//! The consensus loop: what one node does from tick to tick.
//!
//! Between ticks the loop is idle. A tick starts one attempt: read the chain
//! tip, ask the scheduler, and on this node's turn build a block and hand it
//! to the importer. However the attempt ends, the loop is idle again, and no
//! tick is taken while an attempt is under way.

use vstd::prelude::*;
use vstd::pervasive::{arbitrary, unreached};

use crate::block::{
    import_of, prepare_import, CandidateBlock, ChainTip, ImportError, ImportRequest,
    ImportRequestView, ProductionError,
};
use crate::report::LogEntry;
use crate::roster::ValidatorRoster;
use crate::scheduler::{lemma_turns_exclusive, next_height, slot_at, turn_of};

verus! {

/// Where the loop stands. All but `Idle` are steps of one attempt.
#[derive(Clone, Copy, Debug, PartialEq, Eq)]
pub enum Phase {
    /// Waiting for the next tick.
    Idle,
    /// The chain tip was asked for.
    ReadingTip,
    /// A block on top of this tip is being built.
    Producing(ChainTip),
    /// The block of this height was handed to the importer.
    Importing(u64),
}

/// What happened outside the loop.
#[derive(Debug, PartialEq, Eq)]
pub enum LoopEvent {
    /// The timer fired.
    Tick,
    /// The chain's current tip.
    Tip(ChainTip),
    /// The producer finished.
    Built(Result<CandidateBlock, ProductionError>),
    /// The importer finished.
    Imported(Result<(), ImportError>),
}

/// What the driver does next.
#[derive(Clone, Debug, PartialEq, Eq)]
pub enum LoopAction {
    /// Wait for the next tick.
    AwaitTick,
    /// Read the chain tip.
    ReadTip,
    /// Build a block on top of this tip.
    Produce(ChainTip),
    /// Hand this block to the importer.
    Import(ImportRequest),
}

/// The result of one step of the loop.
#[derive(Clone, Debug, PartialEq, Eq)]
pub struct Outcome {
    pub action: LoopAction,
    pub log: Option<LogEntry>,
}

/// A `LoopAction` with the block it carries seen as a plain value.
pub enum LoopActionView {
    AwaitTick,
    ReadTip,
    Produce(ChainTip),
    Import(ImportRequestView),
}

/// An `Outcome` as a plain value.
pub struct OutcomeView {
    pub action: LoopActionView,
    pub log: Option<LogEntry>,
}

impl View for LoopAction {
    type V = LoopActionView;

    open spec fn view(&self) -> LoopActionView {
        match *self {
            LoopAction::AwaitTick => LoopActionView::AwaitTick,
            LoopAction::ReadTip => LoopActionView::ReadTip,
            LoopAction::Produce(tip) => LoopActionView::Produce(tip),
            LoopAction::Import(request) => LoopActionView::Import(request@),
        }
    }
}

impl View for Outcome {
    type V = OutcomeView;

    open spec fn view(&self) -> OutcomeView {
        OutcomeView { action: self.action@, log: self.log }
    }
}

/// Whether an attempt is under way.
pub open spec fn attempting(phase: Phase) -> bool {
    !(phase is Idle)
}

/// The height of the block after `height`, as a height.
pub open spec fn block_after(height: u64) -> u64 {
    next_height(height) as u64
}

/// Whether `event` is what the loop waits for in `phase`.
pub open spec fn loop_accepts(phase: Phase, event: LoopEvent) -> bool {
    match (phase, event) {
        (Phase::Idle, LoopEvent::Tick) => true,
        (Phase::ReadingTip, LoopEvent::Tip(_)) => true,
        (Phase::Producing(_), LoopEvent::Built(_)) => true,
        (Phase::Importing(_), LoopEvent::Imported(_)) => true,
        _ => false,
    }
}

/// Back to idle, with one line for the log.
pub open spec fn rest(entry: LogEntry) -> (Phase, OutcomeView) {
    (Phase::Idle, OutcomeView { action: LoopActionView::AwaitTick, log: Some(entry) })
}

/// The phase after `event` and what the step calls for, for validator `id`
/// of `total`. Only defined where the phase accepts the event.
pub open spec fn loop_step(id: u32, total: u32, phase: Phase, event: LoopEvent) -> (
    Phase,
    OutcomeView,
)
    recommends
        total > 0,
        loop_accepts(phase, event),
{
    match (phase, event) {
        (Phase::Idle, LoopEvent::Tick) => (
            Phase::ReadingTip,
            OutcomeView { action: LoopActionView::ReadTip, log: None },
        ),
        (Phase::ReadingTip, LoopEvent::Tip(tip)) => {
            if turn_of(tip.height, id, total) {
                (
                    Phase::Producing(tip),
                    OutcomeView {
                        action: LoopActionView::Produce(tip),
                        log: Some(LogEntry::Building(block_after(tip.height))),
                    },
                )
            } else {
                rest(LogEntry::NotOurTurn)
            }
        },
        (Phase::Producing(tip), LoopEvent::Built(Ok(block))) => (
            Phase::Importing(block_after(tip.height)),
            OutcomeView { action: LoopActionView::Import(import_of(block@)), log: None },
        ),
        (Phase::Producing(tip), LoopEvent::Built(Err(error))) => rest(
            LogEntry::BuildFailed(block_after(tip.height), error),
        ),
        (Phase::Importing(height), LoopEvent::Imported(Ok(_))) => rest(LogEntry::Produced(height)),
        (Phase::Importing(height), LoopEvent::Imported(Err(error))) => rest(
            LogEntry::ImportFailed(height, error),
        ),
        _ => arbitrary(),
    }
}

/// The loop of one validator.
#[derive(Clone, Copy, Debug, PartialEq, Eq)]
pub struct RoundRobinConsensus {
    roster: ValidatorRoster,
    phase: Phase,
}

impl RoundRobinConsensus {
    pub closed spec fn spec_roster(self) -> ValidatorRoster {
        self.roster
    }

    pub closed spec fn spec_phase(self) -> Phase {
        self.phase
    }

    /// An idle loop for the node of `roster`.
    pub fn new(roster: ValidatorRoster) -> (made: RoundRobinConsensus)
        ensures
            made.spec_roster() == roster,
            made.spec_phase() == Phase::Idle,
    {
        RoundRobinConsensus { roster, phase: Phase::Idle }
    }

    pub fn roster(&self) -> (roster: ValidatorRoster)
        ensures
            roster == self.spec_roster(),
    {
        self.roster
    }

    pub fn phase(&self) -> (phase: Phase)
        ensures
            phase == self.spec_phase(),
    {
        self.phase
    }

    /// Whether no attempt is under way.
    pub fn is_idle(&self) -> (idle: bool)
        ensures
            idle == !attempting(self.spec_phase()),
    {
        match self.phase {
            Phase::Idle => true,
            _ => false,
        }
    }

    /// Whether `event` is what the loop waits for.
    pub fn accepts(&self, event: &LoopEvent) -> (ok: bool)
        ensures
            ok == loop_accepts(self.spec_phase(), *event),
    {
        match (self.phase, event) {
            (Phase::Idle, LoopEvent::Tick) => true,
            (Phase::ReadingTip, LoopEvent::Tip(_)) => true,
            (Phase::Producing(_), LoopEvent::Built(_)) => true,
            (Phase::Importing(_), LoopEvent::Imported(_)) => true,
            _ => false,
        }
    }

    /// Takes an event if the loop waits for it, as `step` does; otherwise
    /// the loop stays as it is and nothing is to be done.
    pub fn try_step(&mut self, event: LoopEvent) -> (outcome: Option<Outcome>)
        ensures
            final(self).spec_roster() == old(self).spec_roster(),
            loop_accepts(old(self).spec_phase(), event) ==> outcome is Some
                && final(self).spec_phase() == loop_step(
                old(self).spec_roster().spec_self_id(),
                old(self).spec_roster().spec_total(),
                old(self).spec_phase(),
                event,
            ).0 && outcome->Some_0@ == loop_step(
                old(self).spec_roster().spec_self_id(),
                old(self).spec_roster().spec_total(),
                old(self).spec_phase(),
                event,
            ).1,
            !loop_accepts(old(self).spec_phase(), event) ==> outcome is None
                && final(self).spec_phase() == old(self).spec_phase(),
    {
        if self.accepts(&event) {
            Some(self.step(event))
        } else {
            None
        }
    }

    /// Takes the event that the loop waits for and says what to do next.
    pub fn step(&mut self, event: LoopEvent) -> (outcome: Outcome)
        requires
            loop_accepts(old(self).spec_phase(), event),
        ensures
            final(self).spec_roster() == old(self).spec_roster(),
            final(self).spec_roster().spec_total() > 0,
            final(self).spec_phase() == loop_step(
                old(self).spec_roster().spec_self_id(),
                old(self).spec_roster().spec_total(),
                old(self).spec_phase(),
                event,
            ).0,
            outcome@ == loop_step(
                old(self).spec_roster().spec_self_id(),
                old(self).spec_roster().spec_total(),
                old(self).spec_phase(),
                event,
            ).1,
    {
        let roster = self.roster;
        let _ = roster.total();
        match (self.phase, event) {
            (Phase::Idle, LoopEvent::Tick) => {
                self.phase = Phase::ReadingTip;
                Outcome { action: LoopAction::ReadTip, log: None }
            },
            (Phase::ReadingTip, LoopEvent::Tip(tip)) => {
                if roster.is_my_turn(tip.height) {
                    self.phase = Phase::Producing(tip);
                    Outcome {
                        action: LoopAction::Produce(tip),
                        log: Some(LogEntry::Building(tip.height.saturating_add(1))),
                    }
                } else {
                    self.phase = Phase::Idle;
                    Outcome { action: LoopAction::AwaitTick, log: Some(LogEntry::NotOurTurn) }
                }
            },
            (Phase::Producing(tip), LoopEvent::Built(Ok(block))) => {
                self.phase = Phase::Importing(tip.height.saturating_add(1));
                Outcome { action: LoopAction::Import(prepare_import(block)), log: None }
            },
            (Phase::Producing(tip), LoopEvent::Built(Err(error))) => {
                self.phase = Phase::Idle;
                Outcome {
                    action: LoopAction::AwaitTick,
                    log: Some(LogEntry::BuildFailed(tip.height.saturating_add(1), error)),
                }
            },
            (Phase::Importing(height), LoopEvent::Imported(Ok(_))) => {
                self.phase = Phase::Idle;
                Outcome { action: LoopAction::AwaitTick, log: Some(LogEntry::Produced(height)) }
            },
            (Phase::Importing(height), LoopEvent::Imported(Err(error))) => {
                self.phase = Phase::Idle;
                Outcome {
                    action: LoopAction::AwaitTick,
                    log: Some(LogEntry::ImportFailed(height, error)),
                }
            },
            _ => unreached(),
        }
    }
}

/// While an attempt is under way no tick is taken: a node never has two
/// attempts in flight.
pub proof fn lemma_one_attempt_at_a_time(phase: Phase)
    requires
        attempting(phase),
    ensures
        !loop_accepts(phase, LoopEvent::Tick),
{
}

/// A tick on an idle loop starts an attempt by reading the tip afresh.
pub proof fn lemma_tick_reads_tip(id: u32, total: u32)
    ensures
        loop_step(id, total, Phase::Idle, LoopEvent::Tick).0 == Phase::ReadingTip,
        loop_step(id, total, Phase::Idle, LoopEvent::Tick).1.action == LoopActionView::ReadTip,
{
}

/// A block is built exactly on this node's turn, on top of the tip that was
/// read; otherwise the tick ends at once.
pub proof fn lemma_builds_on_own_turn_only(id: u32, total: u32, tip: ChainTip)
    requires
        total > 0,
    ensures
        turn_of(tip.height, id, total) ==> loop_step(
            id,
            total,
            Phase::ReadingTip,
            LoopEvent::Tip(tip),
        ).1.action == LoopActionView::Produce(tip),
        !turn_of(tip.height, id, total) ==> loop_step(
            id,
            total,
            Phase::ReadingTip,
            LoopEvent::Tip(tip),
        ) == rest(LogEntry::NotOurTurn),
{
}

/// Of all the validators of a roster that read the same tip, exactly one
/// builds a block: the owner of the slot.
pub proof fn lemma_one_builder_per_tip(first: u32, second: u32, total: u32, tip: ChainTip)
    requires
        total > 0,
        loop_step(first, total, Phase::ReadingTip, LoopEvent::Tip(tip)).1.action is Produce,
        loop_step(second, total, Phase::ReadingTip, LoopEvent::Tip(tip)).1.action is Produce,
    ensures
        first == second,
        first == slot_at(tip.height, total),
{
    lemma_turns_exclusive(tip.height, first, second, total);
}

/// However building or importing ends, with a block, a missing parent, an
/// executor failure or a refused import, the loop is idle afterwards and
/// waits for the next tick.
pub proof fn lemma_attempt_ends_idle(id: u32, total: u32, phase: Phase, event: LoopEvent)
    requires
        loop_accepts(phase, event),
        event matches LoopEvent::Built(Err(_)) || event is Imported,
    ensures
        loop_step(id, total, phase, event).0 == Phase::Idle,
        loop_step(id, total, phase, event).1.action == LoopActionView::AwaitTick,
        loop_step(id, total, phase, event).1.log is Some,
{
}

/// A failed build, a missing parent among the causes, is reported with the
/// height that was being built and the failure itself; nothing is handed to
/// the importer, and the loop takes the next tick.
pub proof fn lemma_failed_build_is_reported(
    id: u32,
    total: u32,
    tip: ChainTip,
    error: ProductionError,
)
    ensures
        loop_step(id, total, Phase::Producing(tip), LoopEvent::Built(Err(error))) == rest(
            LogEntry::BuildFailed(block_after(tip.height), error),
        ),
        loop_accepts(
            loop_step(id, total, Phase::Producing(tip), LoopEvent::Built(Err(error))).0,
            LoopEvent::Tick,
        ),
{
}

} // verus!
