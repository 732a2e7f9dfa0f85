//! The values that pass between the scheduler, the producer and the importer.

use vstd::prelude::*;
use vstd::bytes::spec_u64_to_le_bytes;

verus! {

/// The identifier under which the block's timestamp travels: the eight
/// letters `timstap0`, read as a little-endian number.
pub const TIMESTAMP_KIND: u64 = 0x3070_6174_736d_6974;

/// The hash that names a block.
#[derive(Clone, Copy, Debug, PartialEq, Eq)]
pub struct BlockHash {
    pub bytes: [u8; 32],
}

/// A block header, opaque to this crate.
#[derive(Clone, Debug, PartialEq, Eq)]
pub struct Header {
    pub bytes: Vec<u8>,
}

/// A transaction, opaque to this crate.
#[derive(Clone, Debug, PartialEq, Eq)]
pub struct Transaction {
    pub bytes: Vec<u8>,
}

/// The canonical head of the chain at one moment.
#[derive(Clone, Copy, Debug, PartialEq, Eq)]
pub struct ChainTip {
    pub hash: BlockHash,
    pub height: u64,
}

/// Why an inherent was not taken into a set.
#[derive(Clone, Copy, Debug, PartialEq, Eq)]
pub enum InherentError {
    /// The set already holds an inherent of that kind.
    DuplicateKind,
}

/// `sp_inherents::InherentData`, the form in which the executor takes the
/// inherents. Nothing is known of a value but what `inherent_entries` says.
#[verifier::external_type_specification]
#[verifier::external_body]
pub struct ExInherentData(sp_inherents::InherentData);

/// `sp_inherents::Error`, carried from `put_data` to where it is told apart
/// from success; nothing is read from it.
#[verifier::external_type_specification]
#[verifier::external_body]
pub struct ExInherentFault(sp_inherents::Error);

/// What an `InherentData` holds: for each identifier, taken as the number
/// that its eight bytes spell in little-endian order, the encoded payload.
pub uninterp spec fn inherent_entries(data: sp_inherents::InherentData) -> Map<u64, Seq<u8>>;

/// The contents of a set that holds nothing.
pub open spec fn no_inherents() -> Map<u64, Seq<u8>> {
    Map::empty()
}

/// `InherentData::new` gives a value that holds nothing.
pub assume_specification[sp_inherents::InherentData::new]() -> (made: sp_inherents::InherentData)
    ensures
        inherent_entries(made) == no_inherents(),
;

/// `InherentData::put_data` with a `u64` as the payload. Where the
/// identifier is vacant the call succeeds and stores the payload's encoding
/// under it, which for a `u64` is its eight bytes in little-endian order;
/// where it is taken the call fails and changes nothing. Nothing else in
/// the value is touched.
#[verifier::external_body]
fn put_number(
    data: &mut sp_inherents::InherentData,
    kind: u64,
    value: u64,
) -> (done: Result<(), sp_inherents::Error>)
    ensures
        done is Err <==> inherent_entries(*old(data)).contains_key(kind),
        done is Err ==> inherent_entries(*final(data)) == inherent_entries(*old(data)),
        done is Ok ==> inherent_entries(*final(data)) == inherent_entries(*old(data)).insert(
            kind,
            spec_u64_to_le_bytes(value),
        ),
{
    data.put_data(kind.to_le_bytes(), &value)
}

/// The inherents gathered for one production attempt: for each kind at most
/// one payload.
pub struct InherentSet {
    data: sp_inherents::InherentData,
}

impl View for InherentSet {
    type V = Map<u64, Seq<u8>>;

    closed spec fn view(&self) -> Map<u64, Seq<u8>> {
        inherent_entries(self.data)
    }
}

impl InherentSet {
    /// The empty set.
    pub fn new() -> (set: InherentSet)
        ensures
            set@ == no_inherents(),
    {
        InherentSet { data: sp_inherents::InherentData::new() }
    }

    /// The set that holds the timestamp alone: `now_ms` milliseconds since the
    /// epoch, as eight little-endian bytes under `TIMESTAMP_KIND`.
    pub fn timestamp(now_ms: u64) -> (set: InherentSet)
        ensures
            set@ == no_inherents().insert(TIMESTAMP_KIND, spec_u64_to_le_bytes(now_ms)),
    {
        let mut set = InherentSet::new();
        let _ = set.insert(TIMESTAMP_KIND, now_ms);
        set
    }

    /// Puts a number into the set under `kind`, as eight little-endian
    /// bytes, unless the kind is taken: then the set stays as it was.
    pub fn insert(&mut self, kind: u64, value: u64) -> (done: Result<(), InherentError>)
        ensures
            old(self)@.contains_key(kind) ==> done == Err::<(), InherentError>(
                InherentError::DuplicateKind,
            ) && final(self)@ == old(self)@,
            !old(self)@.contains_key(kind) ==> done == Ok::<(), InherentError>(())
                && final(self)@ == old(self)@.insert(kind, spec_u64_to_le_bytes(value)),
    {
        match put_number(&mut self.data, kind, value) {
            Ok(_) => Ok(()),
            Err(_) => Err(InherentError::DuplicateKind),
        }
    }

    /// The inherents in the form in which the executor takes them.
    pub fn data(&self) -> (data: &sp_inherents::InherentData)
        ensures
            inherent_entries(*data) == self@,
    {
        &self.data
    }

    /// Gives the inherents up in the form in which the executor takes them.
    pub fn into_data(self) -> (data: sp_inherents::InherentData)
        ensures
            inherent_entries(data) == self@,
    {
        self.data
    }
}

/// What a candidate block is made of.
pub struct CandidateView {
    pub header: Header,
    pub body: Seq<Transaction>,
}

/// A fully assembled block that has not been committed yet.
#[derive(Clone, Debug, PartialEq, Eq)]
pub struct CandidateBlock {
    header: Header,
    body: Vec<Transaction>,
}

impl View for CandidateBlock {
    type V = CandidateView;

    closed spec fn view(&self) -> CandidateView {
        CandidateView { header: self.header, body: self.body@ }
    }
}

impl CandidateBlock {
    pub fn new(header: Header, body: Vec<Transaction>) -> (block: CandidateBlock)
        ensures
            block@ == (CandidateView { header, body: body@ }),
    {
        CandidateBlock { header, body }
    }

    pub fn header(&self) -> (header: &Header)
        ensures
            *header == self@.header,
    {
        &self.header
    }

    pub fn body(&self) -> (body: &Vec<Transaction>)
        ensures
            body@ == self@.body,
    {
        &self.body
    }

    /// Takes the block apart into its header and its body.
    pub fn deconstruct(self) -> (parts: (Header, Vec<Transaction>))
        ensures
            parts.0 == self@.header,
            parts.1@ == self@.body,
    {
        (self.header, self.body)
    }
}

/// Where a block came from.
#[derive(Clone, Copy, Debug, PartialEq, Eq)]
pub enum BlockOrigin {
    Own,
    Peer,
}

/// The rule that picks the canonical chain.
#[derive(Clone, Copy, Debug, PartialEq, Eq)]
pub enum ForkChoice {
    LongestChain,
}

/// What is attached to a block when it is handed over for import.
#[derive(Clone, Copy, Debug, PartialEq, Eq)]
pub struct ImportDirective {
    pub origin: BlockOrigin,
    pub fork_choice: ForkChoice,
}

/// The directive of every block that this node produced itself.
pub open spec fn own_directive() -> ImportDirective {
    ImportDirective { origin: BlockOrigin::Own, fork_choice: ForkChoice::LongestChain }
}

/// What an import request is made of.
pub struct ImportRequestView {
    pub header: Header,
    pub body: Seq<Transaction>,
    pub directive: ImportDirective,
}

/// A block taken apart for the import collaborator, with its directive.
#[derive(Clone, Debug, PartialEq, Eq)]
pub struct ImportRequest {
    pub header: Header,
    pub body: Vec<Transaction>,
    pub directive: ImportDirective,
}

impl View for ImportRequest {
    type V = ImportRequestView;

    open spec fn view(&self) -> ImportRequestView {
        ImportRequestView { header: self.header, body: self.body@, directive: self.directive }
    }
}

/// The request that imports `block` as this node's own.
pub open spec fn import_of(block: CandidateView) -> ImportRequestView {
    ImportRequestView { header: block.header, body: block.body, directive: own_directive() }
}

/// Takes a candidate apart and attaches the directive of an own block under
/// the longest-chain rule.
pub fn prepare_import(block: CandidateBlock) -> (request: ImportRequest)
    ensures
        request@ == import_of(block@),
{
    let (header, body) = block.deconstruct();
    ImportRequest {
        header,
        body,
        directive: ImportDirective { origin: BlockOrigin::Own, fork_choice: ForkChoice::LongestChain },
    }
}

/// Why no candidate block came out of a production attempt.
#[derive(Clone, Debug, PartialEq, Eq)]
pub enum ProductionError {
    /// The chain no longer holds the parent's header.
    ParentNotFound,
    /// A stage of the executor failed; the cause is kept for the log.
    ExecutorFailure(String),
}

impl ProductionError {
    /// The failure in words: what follows the colon in a log line.
    pub open spec fn cause_text(self) -> Seq<char> {
        match self {
            ProductionError::ParentNotFound => "parent header not found"@,
            ProductionError::ExecutorFailure(cause) => cause@,
        }
    }

    /// The failure in words.
    pub fn cause(&self) -> (text: String)
        ensures
            text@ == self.cause_text(),
    {
        match self {
            ProductionError::ParentNotFound => "parent header not found".to_owned(),
            ProductionError::ExecutorFailure(cause) => cause.clone(),
        }
    }
}

/// Why the import collaborator did not commit a block.
#[derive(Clone, Debug, PartialEq, Eq)]
pub struct ImportError {
    pub cause: String,
}

} // verus!
