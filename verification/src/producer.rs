//! The block producer: one production attempt as a machine that is told what
//! the chain and the executor answered and says what to ask them next.
//!
//! The stages follow one another in a fixed order: look the parent up,
//! initialize the executor on it, materialize the inherents, apply each
//! transaction in the order in which it came, finalize. A failure at any
//! stage ends the attempt without a block.

use vstd::prelude::*;
use vstd::pervasive::{arbitrary, unreached};

use vstd::bytes::spec_u64_to_le_bytes;

use crate::block::{
    no_inherents, BlockHash, CandidateBlock, CandidateView, Header, InherentSet, ProductionError, Transaction,
    TIMESTAMP_KIND,
};

verus! {

/// What the machine is waiting for.
#[derive(Clone, Copy, Debug, PartialEq, Eq)]
pub enum Stage {
    /// The parent's header.
    AwaitingParent,
    /// The executor's word that it stands on the parent.
    Initializing,
    /// The transactions that the inherents turn into.
    Materializing,
    /// The executor's word on the transaction that was handed to it last.
    Applying,
    /// The new header.
    Finalizing,
    /// Nothing: the attempt is over.
    Finished,
}

/// What the chain or the executor answered.
#[derive(Clone, Debug, PartialEq, Eq)]
pub enum ExecutorReply {
    /// The parent's header, if the chain still holds it.
    Parent(Option<Header>),
    /// The executor stands on the parent.
    Initialized,
    /// The inherents as transactions, in the order in which to apply them.
    Materialized(Vec<Transaction>),
    /// The transaction was applied.
    Applied,
    /// The header of the new block.
    Finalized(Header),
    /// The step failed, with its cause.
    Failed(String),
}

/// What the driver does next.
#[derive(Clone, Debug, PartialEq, Eq)]
pub enum ProducerAction {
    /// Ask the chain for the header of this block.
    LookupParent(BlockHash),
    /// Initialize the executor on this parent, with its header.
    Initialize(BlockHash, Header),
    /// Turn the producer's inherents into transactions.
    Materialize(BlockHash),
    /// Apply the producer's transaction at this index.
    Apply(BlockHash, usize),
    /// Finalize the block.
    Finalize(BlockHash),
    /// The attempt succeeded with this block.
    Produced(CandidateBlock),
    /// The attempt failed.
    Abort(ProductionError),
}

/// A `ProducerAction` with the block it carries seen as a plain value.
pub enum ActionView {
    LookupParent(BlockHash),
    Initialize(BlockHash, Header),
    Materialize(BlockHash),
    Apply(BlockHash, usize),
    Finalize(BlockHash),
    Produced(CandidateView),
    Abort(ProductionError),
}

impl View for ProducerAction {
    type V = ActionView;

    open spec fn view(&self) -> ActionView {
        match *self {
            ProducerAction::LookupParent(hash) => ActionView::LookupParent(hash),
            ProducerAction::Initialize(hash, header) => ActionView::Initialize(hash, header),
            ProducerAction::Materialize(hash) => ActionView::Materialize(hash),
            ProducerAction::Apply(hash, index) => ActionView::Apply(hash, index),
            ProducerAction::Finalize(hash) => ActionView::Finalize(hash),
            ProducerAction::Produced(block) => ActionView::Produced(block@),
            ProducerAction::Abort(error) => ActionView::Abort(error),
        }
    }
}

/// The state of a production attempt as a plain value.
pub struct ProductionView {
    pub stage: Stage,
    pub parent_hash: BlockHash,
    pub parent_height: u64,
    pub inherents: InherentSet,
    /// The materialized transactions, empty before they came.
    pub body: Seq<Transaction>,
    /// How many of them the executor has applied.
    pub applied: nat,
}

impl ProductionView {
    /// What holds of every state that the machine reaches.
    pub open spec fn wf(self) -> bool {
        &&& self.applied <= self.body.len()
        &&& (self.stage is AwaitingParent || self.stage is Initializing
            || self.stage is Materializing) ==> self.body.len() == 0
        &&& self.stage is Applying ==> self.applied < self.body.len()
        &&& self.stage is Finalizing ==> self.applied == self.body.len()
    }

    /// Whether `reply` answers what the machine asked last. A failure answers
    /// every request.
    pub open spec fn accepts(self, reply: ExecutorReply) -> bool {
        match (self.stage, reply) {
            (Stage::Finished, _) => false,
            (_, ExecutorReply::Failed(_)) => true,
            (Stage::AwaitingParent, ExecutorReply::Parent(_)) => true,
            (Stage::Initializing, ExecutorReply::Initialized) => true,
            (Stage::Materializing, ExecutorReply::Materialized(_)) => true,
            (Stage::Applying, ExecutorReply::Applied) => true,
            (Stage::Finalizing, ExecutorReply::Finalized(_)) => true,
            _ => false,
        }
    }

    /// This state at another stage.
    pub open spec fn at(self, stage: Stage) -> ProductionView {
        ProductionView { stage, ..self }
    }

    /// The state after `reply` and the action that it calls for. Only
    /// defined where the state accepts the reply.
    pub open spec fn step(self, reply: ExecutorReply) -> (ProductionView, ActionView)
        recommends
            self.accepts(reply),
    {
        match (self.stage, reply) {
            (Stage::Finished, _) => arbitrary(),
            (_, ExecutorReply::Failed(cause)) => (
                self.at(Stage::Finished),
                ActionView::Abort(ProductionError::ExecutorFailure(cause)),
            ),
            (Stage::AwaitingParent, ExecutorReply::Parent(None)) => (
                self.at(Stage::Finished),
                ActionView::Abort(ProductionError::ParentNotFound),
            ),
            (Stage::AwaitingParent, ExecutorReply::Parent(Some(header))) => (
                self.at(Stage::Initializing),
                ActionView::Initialize(self.parent_hash, header),
            ),
            (Stage::Initializing, ExecutorReply::Initialized) => (
                self.at(Stage::Materializing),
                ActionView::Materialize(self.parent_hash),
            ),
            (Stage::Materializing, ExecutorReply::Materialized(transactions)) => {
                if transactions@.len() == 0 {
                    (
                        ProductionView { stage: Stage::Finalizing, body: transactions@, applied: 0, ..self },
                        ActionView::Finalize(self.parent_hash),
                    )
                } else {
                    (
                        ProductionView { stage: Stage::Applying, body: transactions@, applied: 0, ..self },
                        ActionView::Apply(self.parent_hash, 0),
                    )
                }
            },
            (Stage::Applying, ExecutorReply::Applied) => {
                if self.applied + 1 < self.body.len() {
                    (
                        ProductionView { applied: self.applied + 1, ..self },
                        ActionView::Apply(self.parent_hash, (self.applied + 1) as usize),
                    )
                } else {
                    (
                        ProductionView { stage: Stage::Finalizing, applied: self.applied + 1, ..self },
                        ActionView::Finalize(self.parent_hash),
                    )
                }
            },
            (Stage::Finalizing, ExecutorReply::Finalized(header)) => (
                ProductionView {
                    stage: Stage::Finished,
                    body: Seq::<Transaction>::empty(),
                    applied: 0,
                    ..self
                },
                ActionView::Produced(CandidateView { header, body: self.body }),
            ),
            _ => arbitrary(),
        }
    }

    /// The state after `count` further transactions were applied.
    pub open spec fn after_applied(self, count: nat) -> ProductionView
        decreases count,
    {
        if count == 0 {
            self
        } else {
            self.after_applied((count - 1) as nat).step(ExecutorReply::Applied).0
        }
    }
}

/// One attempt to produce the block on top of a parent.
pub struct BasicBlockProducer {
    stage: Stage,
    parent_hash: BlockHash,
    parent_height: u64,
    inherents: InherentSet,
    body: Vec<Transaction>,
    applied: usize,
}

impl View for BasicBlockProducer {
    type V = ProductionView;

    closed spec fn view(&self) -> ProductionView {
        ProductionView {
            stage: self.stage,
            parent_hash: self.parent_hash,
            parent_height: self.parent_height,
            inherents: self.inherents,
            body: self.body@,
            applied: self.applied as nat,
        }
    }
}

impl BasicBlockProducer {
    #[verifier::type_invariant]
    spec fn sound(self) -> bool {
        self@.wf()
    }

    /// An attempt on top of the given parent, with the inherents gathered
    /// for it, waiting for the parent's header.
    pub fn new(
        parent_hash: BlockHash,
        parent_height: u64,
        inherents: InherentSet,
    ) -> (producer: BasicBlockProducer)
        ensures
            producer@ == (ProductionView {
                stage: Stage::AwaitingParent,
                parent_hash,
                parent_height,
                inherents,
                body: Seq::<Transaction>::empty(),
                applied: 0,
            }),
            producer@.wf(),
    {
        BasicBlockProducer {
            stage: Stage::AwaitingParent,
            parent_hash,
            parent_height,
            inherents,
            body: Vec::new(),
            applied: 0,
        }
    }

    /// Starts an attempt at the time `now_ms`, in milliseconds since the
    /// epoch: the inherents are the timestamp alone, and the first thing to
    /// ask for is the parent's header.
    pub fn produce_block(
        parent_hash: BlockHash,
        parent_height: u64,
        now_ms: u64,
    ) -> (started: (BasicBlockProducer, ProducerAction))
        ensures
            started.0@.stage == Stage::AwaitingParent,
            started.0@.parent_hash == parent_hash,
            started.0@.parent_height == parent_height,
            started.0@.body.len() == 0,
            started.0@.applied == 0,
            started.0@.inherents@ == no_inherents().insert(
                TIMESTAMP_KIND,
                spec_u64_to_le_bytes(now_ms),
            ),
            started.1@ == ActionView::LookupParent(parent_hash),
    {
        let producer = BasicBlockProducer::new(
            parent_hash,
            parent_height,
            InherentSet::timestamp(now_ms),
        );
        (producer, ProducerAction::LookupParent(parent_hash))
    }

    /// What the machine is waiting for.
    pub fn stage(&self) -> (stage: Stage)
        ensures
            stage == self@.stage,
            self@.wf(),
    {
        proof {
            use_type_invariant(self);
        }
        self.stage
    }

    pub fn parent_hash(&self) -> (hash: BlockHash)
        ensures
            hash == self@.parent_hash,
    {
        self.parent_hash
    }

    pub fn parent_height(&self) -> (height: u64)
        ensures
            height == self@.parent_height,
    {
        self.parent_height
    }

    /// The inherents to materialize.
    pub fn inherents(&self) -> (set: &InherentSet)
        ensures
            *set == self@.inherents,
    {
        &self.inherents
    }

    /// The number of materialized transactions.
    pub fn body_len(&self) -> (n: usize)
        ensures
            n == self@.body.len(),
    {
        self.body.len()
    }

    /// The materialized transaction at `index`, if there is one.
    pub fn transaction(&self, index: usize) -> (found: Option<&Transaction>)
        ensures
            index < self@.body.len() ==> found == Some(&self@.body[index as int]),
            index >= self@.body.len() ==> found is None,
    {
        if index < self.body.len() {
            Some(&self.body[index])
        } else {
            None
        }
    }

    /// Whether `reply` answers what the machine asked last.
    pub fn accepts(&self, reply: &ExecutorReply) -> (ok: bool)
        ensures
            ok == self@.accepts(*reply),
    {
        match (self.stage, reply) {
            (Stage::Finished, _) => false,
            (_, ExecutorReply::Failed(_)) => true,
            (Stage::AwaitingParent, ExecutorReply::Parent(_)) => true,
            (Stage::Initializing, ExecutorReply::Initialized) => true,
            (Stage::Materializing, ExecutorReply::Materialized(_)) => true,
            (Stage::Applying, ExecutorReply::Applied) => true,
            (Stage::Finalizing, ExecutorReply::Finalized(_)) => true,
            _ => false,
        }
    }

    /// Takes a reply if it answers the last request, as `step` does; hands
    /// the machine back untouched if it does not.
    pub fn try_step(
        self,
        reply: ExecutorReply,
    ) -> (next: Result<(BasicBlockProducer, ProducerAction), BasicBlockProducer>)
        ensures
            self@.accepts(reply) ==> next is Ok && next->Ok_0.0@ == self@.step(reply).0
                && next->Ok_0.1@ == self@.step(reply).1,
            !self@.accepts(reply) ==> next is Err && next->Err_0@ == self@,
    {
        if self.accepts(&reply) {
            Ok(self.step(reply))
        } else {
            Err(self)
        }
    }

    /// Takes the answer to the last request and says what to do next.
    pub fn step(self, reply: ExecutorReply) -> (next: (BasicBlockProducer, ProducerAction))
        requires
            self@.accepts(reply),
        ensures
            next.0@ == self@.step(reply).0,
            next.1@ == self@.step(reply).1,
            next.0@.wf(),
    {
        proof {
            use_type_invariant(&self);
        }
        let BasicBlockProducer { stage, parent_hash, parent_height, inherents, body, applied } =
            self;
        match (stage, reply) {
            (Stage::Finished, _) => unreached(),
            (_, ExecutorReply::Failed(cause)) => (
                BasicBlockProducer {
                    stage: Stage::Finished,
                    parent_hash,
                    parent_height,
                    inherents,
                    body,
                    applied,
                },
                ProducerAction::Abort(ProductionError::ExecutorFailure(cause)),
            ),
            (Stage::AwaitingParent, ExecutorReply::Parent(None)) => (
                BasicBlockProducer {
                    stage: Stage::Finished,
                    parent_hash,
                    parent_height,
                    inherents,
                    body,
                    applied,
                },
                ProducerAction::Abort(ProductionError::ParentNotFound),
            ),
            (Stage::AwaitingParent, ExecutorReply::Parent(Some(header))) => (
                BasicBlockProducer {
                    stage: Stage::Initializing,
                    parent_hash,
                    parent_height,
                    inherents,
                    body,
                    applied,
                },
                ProducerAction::Initialize(parent_hash, header),
            ),
            (Stage::Initializing, ExecutorReply::Initialized) => (
                BasicBlockProducer {
                    stage: Stage::Materializing,
                    parent_hash,
                    parent_height,
                    inherents,
                    body,
                    applied,
                },
                ProducerAction::Materialize(parent_hash),
            ),
            (Stage::Materializing, ExecutorReply::Materialized(transactions)) => {
                if transactions.len() == 0 {
                    (
                        BasicBlockProducer {
                            stage: Stage::Finalizing,
                            parent_hash,
                            parent_height,
                            inherents,
                            body: transactions,
                            applied: 0,
                        },
                        ProducerAction::Finalize(parent_hash),
                    )
                } else {
                    (
                        BasicBlockProducer {
                            stage: Stage::Applying,
                            parent_hash,
                            parent_height,
                            inherents,
                            body: transactions,
                            applied: 0,
                        },
                        ProducerAction::Apply(parent_hash, 0),
                    )
                }
            },
            (Stage::Applying, ExecutorReply::Applied) => {
                let count: usize = body.len();
                let done: usize = applied + 1;
                if done < count {
                    (
                        BasicBlockProducer {
                            stage: Stage::Applying,
                            parent_hash,
                            parent_height,
                            inherents,
                            body,
                            applied: done,
                        },
                        ProducerAction::Apply(parent_hash, done),
                    )
                } else {
                    (
                        BasicBlockProducer {
                            stage: Stage::Finalizing,
                            parent_hash,
                            parent_height,
                            inherents,
                            body,
                            applied: done,
                        },
                        ProducerAction::Finalize(parent_hash),
                    )
                }
            },
            (Stage::Finalizing, ExecutorReply::Finalized(header)) => {
                let block = CandidateBlock::new(header, body);
                let rest: Vec<Transaction> = Vec::new();
                assert(rest@ =~= Seq::<Transaction>::empty());
                (
                    BasicBlockProducer {
                        stage: Stage::Finished,
                        parent_hash,
                        parent_height,
                        inherents,
                        body: rest,
                        applied: 0,
                    },
                    ProducerAction::Produced(block),
                )
            },
            _ => unreached(),
        }
    }
}

proof fn lemma_applied_run(state: ProductionView, count: nat)
    requires
        state.wf(),
        state.stage is Applying,
        state.applied + count <= state.body.len(),
    ensures
        state.applied + count < state.body.len() ==> state.after_applied(count) == (ProductionView {
            applied: state.applied + count,
            ..state
        }),
        state.applied + count == state.body.len() ==> state.after_applied(count) == (ProductionView {
            stage: Stage::Finalizing,
            applied: state.body.len(),
            ..state
        }),
    decreases count,
{
    if count > 0 {
        lemma_applied_run(state, (count - 1) as nat);
    }
}

/// Every accepted reply leaves the machine in a state that is sound again.
pub proof fn lemma_step_keeps_sound(state: ProductionView, reply: ExecutorReply)
    requires
        state.wf(),
        state.accepts(reply),
    ensures
        state.step(reply).0.wf(),
{
}

/// The body of the block is the materialized transactions, in their order,
/// whatever that order is. Once they have come, the machine asks for them
/// one after the other from the first on; when the last was applied it asks
/// for the header, and the block of that header has exactly these
/// transactions as its body.
pub proof fn lemma_body_is_materialized(
    state: ProductionView,
    transactions: Vec<Transaction>,
    header: Header,
)
    requires
        state.wf(),
        state.stage is Materializing,
    ensures
        ({
            let started = state.step(ExecutorReply::Materialized(transactions)).0;
            let ready = started.after_applied(transactions@.len());
            &&& forall|i: nat|
                i < transactions@.len() ==> {
                    &&& (#[trigger] started.after_applied(i)).stage is Applying
                    &&& started.after_applied(i).applied == i
                    &&& started.after_applied(i).body == transactions@
                }
            &&& ready.stage is Finalizing
            &&& ready.step(ExecutorReply::Finalized(header)).1 == ActionView::Produced(
                CandidateView { header, body: transactions@ },
            )
        }),
{
    let started = state.step(ExecutorReply::Materialized(transactions)).0;
    if transactions@.len() > 0 {
        lemma_applied_run(started, transactions@.len());
        assert forall|i: nat| i < transactions@.len() implies {
            &&& (#[trigger] started.after_applied(i)).stage is Applying
            &&& started.after_applied(i).applied == i
            &&& started.after_applied(i).body == transactions@
        } by {
            lemma_applied_run(started, i);
        }
    }
}

/// A failure at any stage, the apply stage among them, ends the attempt
/// with that failure and hands no block out; and since the machine takes no
/// reply after that, none comes out later either.
pub proof fn lemma_failure_yields_no_block(state: ProductionView, cause: String)
    requires
        !(state.stage is Finished),
    ensures
        state.accepts(ExecutorReply::Failed(cause)),
        state.step(ExecutorReply::Failed(cause)).0.stage is Finished,
        state.step(ExecutorReply::Failed(cause)).1 == ActionView::Abort(
            ProductionError::ExecutorFailure(cause),
        ),
        forall|later: ExecutorReply| !state.step(ExecutorReply::Failed(cause)).0.accepts(later),
{
}

/// A block comes out of one step only: the answer to the request to
/// finalize, when every materialized transaction was applied. Its body is
/// all of them.
pub proof fn lemma_block_only_when_finalized(state: ProductionView, reply: ExecutorReply)
    requires
        state.wf(),
        state.accepts(reply),
        state.step(reply).1 is Produced,
    ensures
        state.stage is Finalizing,
        reply is Finalized,
        state.applied == state.body.len(),
        state.step(reply).1 == ActionView::Produced(
            CandidateView { header: reply->Finalized_0, body: state.body },
        ),
{
}

/// Where the chain no longer holds the parent's header, the attempt ends
/// with `ParentNotFound`.
pub proof fn lemma_missing_parent_aborts(state: ProductionView)
    requires
        state.stage is AwaitingParent,
    ensures
        state.accepts(ExecutorReply::Parent(None)),
        state.step(ExecutorReply::Parent(None)).0.stage is Finished,
        state.step(ExecutorReply::Parent(None)).1 == ActionView::Abort(
            ProductionError::ParentNotFound,
        ),
{
}

} // verus!
