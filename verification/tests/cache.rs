use beerus_core::block::{
    BlockStatus, BlockWithTxs, MaybePendingBlockWithTxs, PendingBlockWithTxs,
};
use beerus_core::felt::FieldElement;
use beerus_core::node::NodeData;

fn element(n: u64) -> FieldElement {
    FieldElement::from_str(&n.to_string()).unwrap()
}

fn finalized(number: u64, root: u64) -> BlockWithTxs {
    BlockWithTxs {
        status: BlockStatus::AcceptedOnL2,
        block_hash: element(1000 + number),
        parent_hash: element(999 + number),
        block_number: number,
        new_root: element(root),
        timestamp: 1_675_000_000 + number,
        sequencer_address: element(42),
        transactions: vec![],
    }
}

fn pending() -> PendingBlockWithTxs {
    PendingBlockWithTxs {
        transactions: vec![],
        timestamp: 1_675_000_000,
        sequencer_address: element(42),
        parent_hash: element(7),
    }
}

#[test]
fn new_cache_is_empty() {
    let node = NodeData::new();
    assert_eq!(node.block_number(), 0);
    assert_eq!(node.state_root(), "");
    assert!(node.payload().is_empty());
    let by_default = NodeData::default();
    assert_eq!(by_default.block_number(), 0);
    assert_eq!(by_default.state_root(), "");
    assert!(by_default.payload().is_empty());
}

#[test]
fn newer_block_is_cached_and_older_block_is_dropped() {
    let node = NodeData::new();
    let (node, accepted) = node.accept(finalized(10, 1010));
    assert!(accepted);
    assert_eq!(node.block_number(), 10);
    assert_eq!(node.state_root(), "1010");
    assert_eq!(node.payload().len(), 1);
    assert_eq!(node.payload()[&10].block_hash, element(1010));

    let (node, accepted) = node.accept(finalized(5, 505));
    assert!(!accepted);
    assert_eq!(node.block_number(), 10);
    assert_eq!(node.state_root(), "1010");
    assert_eq!(node.payload().len(), 1);
    assert!(node.payload().get(&5).is_none());
}

#[test]
fn block_with_the_cached_number_is_dropped() {
    let (node, _) = NodeData::new().accept(finalized(10, 1));
    let (node, accepted) = node.accept(finalized(10, 2));
    assert!(!accepted);
    assert_eq!(node.state_root(), "1");
    assert_eq!(node.payload().len(), 1);
}

#[test]
fn block_zero_is_never_cached() {
    let (node, accepted) = NodeData::new().accept(finalized(0, 33));
    assert!(!accepted);
    assert_eq!(node.block_number(), 0);
    assert_eq!(node.state_root(), "");
    assert!(node.payload().is_empty());
}

#[test]
fn pending_block_is_never_cached() {
    let node = NodeData::new().observe(MaybePendingBlockWithTxs::PendingBlock(pending()));
    assert_eq!(node.block_number(), 0);
    assert!(node.payload().is_empty());

    let mut block = finalized(12, 5);
    block.status = BlockStatus::Pending;
    let (node, accepted) = node.accept(block);
    assert!(!accepted);
    assert_eq!(node.block_number(), 0);
    assert_eq!(node.state_root(), "");
    assert!(node.payload().is_empty());
}

#[test]
fn finalized_statuses_are_all_cached() {
    let mut node = NodeData::new();
    let statuses = [
        (1u64, BlockStatus::AcceptedOnL2),
        (2u64, BlockStatus::AcceptedOnL1),
        (3u64, BlockStatus::Rejected),
    ];
    for (number, status) in statuses {
        let mut block = finalized(number, 69 + number);
        block.status = status;
        node = node.observe(MaybePendingBlockWithTxs::Block(block));
        assert_eq!(node.block_number(), number);
    }
    assert_eq!(node.payload().len(), 3);
    assert_eq!(node.state_root(), "72");
}

#[test]
fn two_blocks_end_at_the_higher_in_either_order() {
    let (ascending, _) = NodeData::new().accept(finalized(3, 30));
    let (ascending, _) = ascending.accept(finalized(8, 80));
    let (descending, _) = NodeData::new().accept(finalized(8, 80));
    let (descending, _) = descending.accept(finalized(3, 30));
    assert_eq!(ascending.block_number(), 8);
    assert_eq!(descending.block_number(), 8);
    assert_eq!(ascending.state_root(), "80");
    assert_eq!(descending.state_root(), "80");
    assert_eq!(ascending.payload().len(), 2);
    assert_eq!(descending.payload().len(), 1);
}

#[test]
fn cached_number_never_decreases_over_a_run() {
    let numbers = [4u64, 2, 9, 0, 9, 7, 11, 1];
    let mut node = NodeData::new();
    let mut highest: u64 = 0;
    for number in numbers {
        let before: u64 = node.block_number();
        node = node.observe(MaybePendingBlockWithTxs::Block(finalized(number, number * 3)));
        highest = highest.max(number);
        assert!(node.block_number() >= before);
        assert_eq!(node.block_number(), highest);
        assert_eq!(*node.state_root(), (highest * 3).to_string());
        assert_eq!(*node.payload().keys().max().unwrap(), highest);
    }
    let cached: Vec<u64> = node.payload().keys().copied().collect();
    assert_eq!(cached, vec![4, 9, 11]);
}

#[test]
fn lookup_by_number_finds_only_cached_blocks() {
    let (node, _) = NodeData::new().accept(finalized(3, 30));
    let (node, _) = node.accept(finalized(8, 80));
    assert_eq!(node.block_by_number(3).unwrap().new_root, element(30));
    assert_eq!(node.block_by_number(8).unwrap().new_root, element(80));
    assert!(node.block_by_number(5).is_none());
    assert!(node.block_by_number(0).is_none());
}

#[test]
fn lookup_by_hash_finds_the_lowest_numbered_match() {
    let mut first = finalized(3, 30);
    first.block_hash = element(555);
    let mut second = finalized(8, 80);
    second.block_hash = element(555);
    let third = finalized(9, 90);
    let (node, _) = NodeData::new().accept(first);
    let (node, _) = node.accept(second);
    let (node, _) = node.accept(third);
    assert_eq!(node.block_by_hash(&element(555)).unwrap().block_number, 3);
    assert_eq!(node.block_by_hash(&element(1009)).unwrap().block_number, 9);
    assert!(node.block_by_hash(&element(556)).is_none());
    assert!(NodeData::new().block_by_hash(&element(555)).is_none());
}

#[test]
fn snapshot_does_not_follow_the_cache() {
    let (node, _) = NodeData::new().accept(finalized(3, 30));
    let snapshot = node.clone();
    let (node, _) = node.accept(finalized(8, 80));
    assert_eq!(snapshot.block_number(), 3);
    assert_eq!(snapshot.state_root(), "30");
    assert_eq!(snapshot.payload().len(), 1);
    assert_eq!(node.block_number(), 8);
    assert_eq!(node.payload().len(), 2);
}
