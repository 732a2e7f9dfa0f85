//! The fixed validator roster and the node's start-up configuration.

use vstd::prelude::*;

use crate::scheduler::{next_slot, slot_at, turn_of};

verus! {

/// Why a configuration was refused at start-up.
#[derive(Clone, Copy, Debug, PartialEq, Eq)]
pub enum ConfigError {
    /// The roster names no validator at all.
    NoValidators,
    /// The tick interval is zero.
    ZeroInterval,
}

/// This node's place among a fixed number of validators.
#[derive(Clone, Copy, Debug, PartialEq, Eq)]
pub struct ValidatorRoster {
    self_id: u32,
    total: u32,
}

impl ValidatorRoster {
    #[verifier::type_invariant]
    spec fn populated(self) -> bool {
        self.total > 0
    }

    /// The node's index in the roster.
    pub closed spec fn spec_self_id(self) -> u32 {
        self.self_id
    }

    /// The number of validators.
    pub closed spec fn spec_total(self) -> u32 {
        self.total
    }

    /// Builds a roster, refusing one without validators.
    pub fn new(self_id: u32, total: u32) -> (made: Result<ValidatorRoster, ConfigError>)
        ensures
            total == 0 ==> made == Err::<ValidatorRoster, ConfigError>(ConfigError::NoValidators),
            total > 0 ==> made is Ok && made->Ok_0.spec_self_id() == self_id
                && made->Ok_0.spec_total() == total,
    {
        if total == 0 {
            Err(ConfigError::NoValidators)
        } else {
            Ok(ValidatorRoster { self_id, total })
        }
    }

    pub fn self_id(&self) -> (id: u32)
        ensures
            id == self.spec_self_id(),
    {
        self.self_id
    }

    /// The number of validators, never zero.
    pub fn total(&self) -> (n: u32)
        ensures
            n == self.spec_total(),
            n > 0,
    {
        proof {
            use_type_invariant(self);
        }
        self.total
    }

    /// The validator that owns the block after `height`.
    pub fn next_slot(&self, height: u64) -> (slot: u32)
        ensures
            self.spec_total() > 0,
            slot == slot_at(height, self.spec_total()),
            slot < self.spec_total(),
    {
        proof {
            use_type_invariant(self);
        }
        next_slot(height, self.total)
    }

    /// Whether this node owns the block after `height`.
    pub fn is_my_turn(&self, height: u64) -> (mine: bool)
        ensures
            self.spec_total() > 0,
            mine == turn_of(height, self.spec_self_id(), self.spec_total()),
    {
        proof {
            use_type_invariant(self);
        }
        next_slot(height, self.total) == self.self_id
    }
}

/// What a node is started with: its roster and the milliseconds between ticks.
#[derive(Clone, Copy, Debug, PartialEq, Eq)]
pub struct Config {
    roster: ValidatorRoster,
    tick_interval_ms: u64,
}

impl Config {
    #[verifier::type_invariant]
    spec fn ticking(self) -> bool {
        self.tick_interval_ms > 0
    }

    pub closed spec fn spec_roster(self) -> ValidatorRoster {
        self.roster
    }

    pub closed spec fn spec_tick_interval_ms(self) -> u64 {
        self.tick_interval_ms
    }

    /// Takes the three options if they are valid. An empty roster is
    /// reported before a zero interval.
    pub fn new(
        validator_id: u32,
        total_validators: u32,
        tick_interval_ms: u64,
    ) -> (made: Result<Config, ConfigError>)
        ensures
            total_validators == 0 ==> made == Err::<Config, ConfigError>(ConfigError::NoValidators),
            total_validators > 0 && tick_interval_ms == 0 ==> made == Err::<Config, ConfigError>(
                ConfigError::ZeroInterval,
            ),
            total_validators > 0 && tick_interval_ms > 0 ==> made is Ok
                && made->Ok_0.spec_roster().spec_self_id() == validator_id
                && made->Ok_0.spec_roster().spec_total() == total_validators
                && made->Ok_0.spec_tick_interval_ms() == tick_interval_ms,
    {
        match ValidatorRoster::new(validator_id, total_validators) {
            Err(e) => Err(e),
            Ok(roster) => {
                if tick_interval_ms == 0 {
                    Err(ConfigError::ZeroInterval)
                } else {
                    Ok(Config { roster, tick_interval_ms })
                }
            },
        }
    }

    pub fn roster(&self) -> (r: ValidatorRoster)
        ensures
            r == self.spec_roster(),
    {
        self.roster
    }

    /// Milliseconds between ticks, never zero.
    pub fn tick_interval_ms(&self) -> (ms: u64)
        ensures
            ms == self.spec_tick_interval_ms(),
            ms > 0,
    {
        proof {
            use_type_invariant(self);
        }
        self.tick_interval_ms
    }
}

} // verus!
