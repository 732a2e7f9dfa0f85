//! What the loop reports, and the lines that go to the log.

use vstd::prelude::*;
use vstd::string::StringExecFns;

use crate::block::{ImportError, ProductionError};

verus! {

/// What the loop reports of a step.
#[derive(Clone, Debug, PartialEq, Eq)]
pub enum LogEntry {
    /// Another validator owns the next block.
    NotOurTurn,
    /// This node starts to build the block of this height.
    Building(u64),
    /// The block of this height was built and imported.
    Produced(u64),
    /// The block of this height could not be built.
    BuildFailed(u64, ProductionError),
    /// The block of this height was built and then refused.
    ImportFailed(u64, ImportError),
}

/// The character of one decimal digit.
pub open spec fn digit_char(digit: nat) -> char
    recommends
        digit < 10,
{
    if digit == 0 {
        '0'
    } else if digit == 1 {
        '1'
    } else if digit == 2 {
        '2'
    } else if digit == 3 {
        '3'
    } else if digit == 4 {
        '4'
    } else if digit == 5 {
        '5'
    } else if digit == 6 {
        '6'
    } else if digit == 7 {
        '7'
    } else if digit == 8 {
        '8'
    } else {
        '9'
    }
}

/// A number in decimal: its digits from the most significant on, a single
/// `0` for zero.
pub open spec fn decimal_digits(n: nat) -> Seq<char>
    decreases n,
{
    if n < 10 {
        seq![digit_char(n)]
    } else {
        decimal_digits(n / 10).push(digit_char(n % 10))
    }
}

fn digit_text(digit: u64) -> (text: &'static str)
    requires
        digit < 10,
    ensures
        text@ == seq![digit_char(digit as nat)],
{
    proof {
        reveal_strlit("0");
        reveal_strlit("1");
        reveal_strlit("2");
        reveal_strlit("3");
        reveal_strlit("4");
        reveal_strlit("5");
        reveal_strlit("6");
        reveal_strlit("7");
        reveal_strlit("8");
        reveal_strlit("9");
    }
    let text = if digit == 0 {
        "0"
    } else if digit == 1 {
        "1"
    } else if digit == 2 {
        "2"
    } else if digit == 3 {
        "3"
    } else if digit == 4 {
        "4"
    } else if digit == 5 {
        "5"
    } else if digit == 6 {
        "6"
    } else if digit == 7 {
        "7"
    } else if digit == 8 {
        "8"
    } else {
        "9"
    };
    assert(text@ =~= seq![digit_char(digit as nat)]);
    text
}

/// Writes a number in decimal, with no sign and no padding.
pub fn decimal(n: u64) -> (text: String)
    ensures
        text@ == decimal_digits(n as nat),
{
    let mut text = digit_text(n % 10).to_owned();
    let mut rest: u64 = n / 10;
    assert(decimal_digits(n as nat) =~= if rest > 0 {
        decimal_digits(rest as nat) + text@
    } else {
        text@
    });
    while rest > 0
        invariant
            decimal_digits(n as nat) == if rest > 0 {
                decimal_digits(rest as nat) + text@
            } else {
                text@
            },
        decreases rest,
    {
        let ghost tail = text@;
        let lead = digit_text(rest % 10).to_owned();
        text = lead.concat(text.as_str());
        let ghost before: u64 = rest;
        rest = rest / 10;
        assert(decimal_digits(before as nat) + tail =~= if rest > 0 {
            decimal_digits(rest as nat) + text@
        } else {
            text@
        });
    }
    text
}

impl LogEntry {
    /// The line that goes to the log.
    pub open spec fn text(self) -> Seq<char> {
        match self {
            LogEntry::NotOurTurn => "not our turn"@,
            LogEntry::Building(height) => "building block "@ + decimal_digits(height as nat),
            LogEntry::Produced(height) => "produced block "@ + decimal_digits(height as nat),
            LogEntry::BuildFailed(height, error) => "failed to build block "@ + decimal_digits(
                height as nat,
            ) + ": "@ + error.cause_text(),
            LogEntry::ImportFailed(height, error) => "failed to import block "@ + decimal_digits(
                height as nat,
            ) + ": "@ + error.cause@,
        }
    }

    /// Writes the entry out as the line that goes to the log.
    pub fn message(&self) -> (line: String)
        ensures
            line@ == self.text(),
    {
        match self {
            LogEntry::NotOurTurn => "not our turn".to_owned(),
            LogEntry::Building(height) => {
                let mut line = "building block ".to_owned();
                line.append(decimal(*height).as_str());
                line
            },
            LogEntry::Produced(height) => {
                let mut line = "produced block ".to_owned();
                line.append(decimal(*height).as_str());
                line
            },
            LogEntry::BuildFailed(height, error) => {
                let mut line = "failed to build block ".to_owned();
                line.append(decimal(*height).as_str());
                line.append(": ");
                line.append(error.cause().as_str());
                line
            },
            LogEntry::ImportFailed(height, error) => {
                let mut line = "failed to import block ".to_owned();
                line.append(decimal(*height).as_str());
                line.append(": ");
                line.append(error.cause.as_str());
                line
            },
        }
    }
}

} // verus!
