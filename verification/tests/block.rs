use round_robin::block::{
    prepare_import, BlockHash, BlockOrigin, CandidateBlock, ForkChoice, Header, ImportDirective,
    InherentError, InherentSet, Transaction, TIMESTAMP_KIND,
};
use round_robin::producer::BasicBlockProducer;

fn number_under(set: &InherentSet, identifier: &[u8; 8]) -> Option<u64> {
    set.data().get_data::<u64>(identifier).unwrap()
}

#[test]
fn timestamp_kind_spells_its_identifier() {
    assert_eq!(TIMESTAMP_KIND.to_le_bytes(), *b"timstap0");
}

#[test]
fn a_new_set_is_empty() {
    let set = InherentSet::new();
    assert_eq!(set.data().len(), 0);
    assert_eq!(number_under(&set, b"timstap0"), None);
}

#[test]
fn timestamp_set_holds_the_time_alone() {
    let set = InherentSet::timestamp(1_700_000_000_123);
    assert_eq!(set.data().len(), 1);
    assert_eq!(number_under(&set, b"timstap0"), Some(1_700_000_000_123));
    let raw = set.data().get_data::<[u8; 8]>(b"timstap0").unwrap();
    assert_eq!(raw, Some(1_700_000_000_123u64.to_le_bytes()));
}

#[test]
fn insert_stores_under_the_kind() {
    let mut set = InherentSet::new();
    let kind = u64::from_le_bytes(*b"testkind");
    assert_eq!(set.insert(kind, 42), Ok(()));
    assert_eq!(set.data().len(), 1);
    assert_eq!(number_under(&set, b"testkind"), Some(42));
    assert_eq!(number_under(&set, b"timstap0"), None);
    assert_eq!(set.insert(TIMESTAMP_KIND, 7), Ok(()));
    assert_eq!(set.data().len(), 2);
    assert_eq!(number_under(&set, b"timstap0"), Some(7));
    assert_eq!(number_under(&set, b"testkind"), Some(42));
}

#[test]
fn a_taken_kind_is_refused_and_kept() {
    let mut set = InherentSet::timestamp(1000);
    assert_eq!(set.insert(TIMESTAMP_KIND, 2000), Err(InherentError::DuplicateKind));
    assert_eq!(set.data().len(), 1);
    assert_eq!(number_under(&set, b"timstap0"), Some(1000));
}

#[test]
fn into_data_gives_the_same_contents() {
    let mut set = InherentSet::timestamp(5);
    set.insert(1, 6).unwrap();
    let data = set.into_data();
    assert_eq!(data.len(), 2);
    assert_eq!(data.get_data::<u64>(b"timstap0").unwrap(), Some(5));
    assert_eq!(data.get_data::<u64>(&1u64.to_le_bytes()).unwrap(), Some(6));
}

#[test]
fn each_attempt_carries_its_own_time() {
    let parent = BlockHash { bytes: [1; 32] };
    let (first, _) = BasicBlockProducer::produce_block(parent, 8, 111);
    let (second, _) = BasicBlockProducer::produce_block(parent, 8, 222);
    assert_eq!(number_under(first.inherents(), b"timstap0"), Some(111));
    assert_eq!(number_under(second.inherents(), b"timstap0"), Some(222));
    assert_eq!(first.inherents().data().len(), 1);
}

#[test]
fn a_producer_keeps_the_inherents_it_was_given() {
    let parent = BlockHash { bytes: [2; 32] };
    let mut set = InherentSet::timestamp(9);
    set.insert(3, 4).unwrap();
    let producer = BasicBlockProducer::new(parent, 0, set);
    assert_eq!(producer.inherents().data().len(), 2);
    assert_eq!(number_under(producer.inherents(), b"timstap0"), Some(9));
    assert_eq!(number_under(producer.inherents(), &3u64.to_le_bytes()), Some(4));
}

#[test]
fn candidate_block_comes_apart_as_it_was_made() {
    let header = Header { bytes: vec![1, 2, 3] };
    let body = vec![Transaction { bytes: vec![4] }, Transaction { bytes: vec![5, 6] }];
    let block = CandidateBlock::new(header.clone(), body.clone());
    assert_eq!(block.header(), &header);
    assert_eq!(block.body(), &body);
    let (got_header, got_body) = block.deconstruct();
    assert_eq!(got_header, header);
    assert_eq!(got_body, body);
}

#[test]
fn import_request_is_own_and_longest_chain() {
    let header = Header { bytes: vec![9] };
    let body = vec![Transaction { bytes: vec![1] }, Transaction { bytes: vec![2] }];
    let request = prepare_import(CandidateBlock::new(header.clone(), body.clone()));
    assert_eq!(request.header, header);
    assert_eq!(request.body, body);
    assert_eq!(
        request.directive,
        ImportDirective { origin: BlockOrigin::Own, fork_choice: ForkChoice::LongestChain }
    );
    assert_ne!(request.directive.origin, BlockOrigin::Peer);
}
