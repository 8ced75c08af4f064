//! The cache of StarkNet blocks that the synchronisation loop fills.

use crate::block::{BlockStatus, BlockWithTxs, MaybePendingBlockWithTxs};
use crate::felt::FieldElement;
use crate::numeric::{decimal_text, lemma_decimal_text_injective, lemma_decimal_text_nonempty};
use std::collections::BTreeMap;
use vstd::std_specs::btree::increasing_seq;
use vstd::std_specs::cmp::OrdSpec;
use vstd::std_specs::iter::IteratorSpec;
use vstd::prelude::*;

verus! {

/// What a cache holds, as mathematics.
pub struct NodeView {
    /// The highest block number seen, 0 while nothing is cached.
    pub block_number: u64,
    /// The decimal text of the state root of that block, empty while nothing
    /// is cached.
    pub state_root: Seq<char>,
    /// Every block accepted so far, by its number.
    pub payload: Map<u64, BlockWithTxs>,
}

impl NodeView {
    /// The cache before anything was accepted.
    pub open spec fn empty() -> NodeView {
        NodeView { block_number: 0, state_root: Seq::empty(), payload: Map::empty() }
    }

    /// What holds of every cache: the blocks are filed under their own
    /// numbers, none is pending nor numbered 0, the cached number is the
    /// highest of them and the cached root is that block's root.
    pub open spec fn wf(self) -> bool {
        &&& self.payload.dom().finite()
        &&& forall|k: u64| #[trigger]
            self.payload.contains_key(k) ==> {
                &&& 0 < k <= self.block_number
                &&& self.payload[k].block_number == k
                &&& self.payload[k].status != BlockStatus::Pending
            }
        &&& if self.block_number == 0 {
            self.payload == Map::<u64, BlockWithTxs>::empty() && self.state_root
                == Seq::<char>::empty()
        } else {
            self.payload.contains_key(self.block_number) && self.state_root == decimal_text(
                self.payload[self.block_number].new_root.value(),
            )
        }
    }

    /// Whether `k` is the lowest number under which a block with the given
    /// hash is cached.
    pub open spec fn is_first_with_hash(self, hash: FieldElement, k: u64) -> bool {
        &&& self.payload.contains_key(k)
        &&& self.payload[k].block_hash == hash
        &&& forall|j: u64|
            j < k && #[trigger] self.payload.contains_key(j) ==> self.payload[j].block_hash
                != hash
    }

    /// The cached block with the given number.
    pub open spec fn block_numbered(self, number: u64) -> Option<BlockWithTxs> {
        if self.payload.contains_key(number) {
            Some(self.payload[number])
        } else {
            None
        }
    }

    /// The cached block with the given hash: of several, the one with the
    /// lowest number.
    pub open spec fn block_hashed(self, hash: FieldElement) -> Option<BlockWithTxs> {
        if exists|k: u64| self.is_first_with_hash(hash, k) {
            Some(self.payload[choose|k: u64| self.is_first_with_hash(hash, k)])
        } else {
            None
        }
    }

    /// Whether a block reported as finalized is taken into the cache: it is
    /// not pending, and its number is above the cached one and above 0.
    pub open spec fn accepts(self, block: BlockWithTxs) -> bool {
        &&& block.status != BlockStatus::Pending
        &&& block.block_number > self.block_number
        &&& 0 < block.block_number
    }

    /// The cache after a block reported as finalized was offered to it.
    pub open spec fn merge(self, block: BlockWithTxs) -> NodeView {
        if self.accepts(block) {
            NodeView {
                block_number: block.block_number,
                state_root: decimal_text(block.new_root.value()),
                payload: self.payload.insert(block.block_number, block),
            }
        } else {
            self
        }
    }

    /// The cache after one answer of the provider was offered to it.
    pub open spec fn observe(self, fetched: MaybePendingBlockWithTxs) -> NodeView {
        match fetched {
            MaybePendingBlockWithTxs::Block(block) => self.merge(block),
            MaybePendingBlockWithTxs::PendingBlock(_) => self,
        }
    }
}

/// The number by which an answer of the provider can raise the cache: the
/// number of a finalized block, 0 for a block that is still pending.
pub open spec fn rank(fetched: MaybePendingBlockWithTxs) -> u64 {
    match fetched {
        MaybePendingBlockWithTxs::Block(block) => if block.status != BlockStatus::Pending {
            block.block_number
        } else {
            0
        },
        MaybePendingBlockWithTxs::PendingBlock(_) => 0,
    }
}

/// The highest rank among a run of answers, 0 for an empty run.
pub open spec fn highest_rank(fetched: Seq<MaybePendingBlockWithTxs>) -> u64
    decreases fetched.len(),
{
    if fetched.len() == 0 {
        0
    } else if rank(fetched.last()) > highest_rank(fetched.drop_last()) {
        rank(fetched.last())
    } else {
        highest_rank(fetched.drop_last())
    }
}

impl NodeView {
    /// The cache after a run of answers of the provider, offered in order.
    pub open spec fn replay(self, fetched: Seq<MaybePendingBlockWithTxs>) -> NodeView
        decreases fetched.len(),
    {
        if fetched.len() == 0 {
            self
        } else {
            self.replay(fetched.drop_last()).observe(fetched.last())
        }
    }

    /// Offering an answer to a well-formed cache leaves it well formed.
    pub proof fn lemma_observe_keeps_wf(self, fetched: MaybePendingBlockWithTxs)
        requires
            self.wf(),
        ensures
            self.observe(fetched).wf(),
    {
    }

    /// A run of answers leaves a well-formed cache well formed: whatever the
    /// provider sends, no block is cached under the number 0 or under a
    /// number that is not its own, no cached block is pending, and the cached
    /// number is the highest number of a cached block.
    pub proof fn lemma_replay_keeps_wf(self, fetched: Seq<MaybePendingBlockWithTxs>)
        requires
            self.wf(),
        ensures
            self.replay(fetched).wf(),
            !self.replay(fetched).payload.contains_key(0),
            forall|k: u64| #[trigger]
                self.replay(fetched).payload.contains_key(k) ==> k <= self.replay(
                    fetched,
                ).block_number && self.replay(fetched).payload[k].status != BlockStatus::Pending,
            self.replay(fetched).block_number != 0 ==> self.replay(fetched).payload.contains_key(
                self.replay(fetched).block_number,
            ),
        decreases fetched.len(),
    {
        if fetched.len() > 0 {
            self.lemma_replay_keeps_wf(fetched.drop_last());
            self.replay(fetched.drop_last()).lemma_observe_keeps_wf(fetched.last());
        }
    }

    /// Nothing leaves the cache: a block that is cached stays cached, and
    /// unchanged, whatever answers follow.
    pub proof fn lemma_replay_keeps_blocks(
        self,
        fetched: Seq<MaybePendingBlockWithTxs>,
        number: u64,
    )
        requires
            self.wf(),
            self.payload.contains_key(number),
        ensures
            self.replay(fetched).payload.contains_key(number),
            self.replay(fetched).payload[number] == self.payload[number],
        decreases fetched.len(),
    {
        if fetched.len() > 0 {
            self.lemma_replay_keeps_blocks(fetched.drop_last(), number);
            self.lemma_replay_keeps_wf(fetched.drop_last());
        }
    }

    /// The cached number after a run of answers is the higher of the number
    /// before it and the highest number of a finalized block in the run.
    pub proof fn lemma_replay_block_number(self, fetched: Seq<MaybePendingBlockWithTxs>)
        ensures
            self.replay(fetched).block_number == if highest_rank(fetched) > self.block_number {
                highest_rank(fetched)
            } else {
                self.block_number
            },
        decreases fetched.len(),
    {
        if fetched.len() > 0 {
            self.lemma_replay_block_number(fetched.drop_last());
        }
    }

    /// The cached number never decreases: after a longer run of the same
    /// answers it is at least what it was after a shorter one.
    pub proof fn lemma_block_number_never_decreases(
        self,
        fetched: Seq<MaybePendingBlockWithTxs>,
        shorter: int,
        longer: int,
    )
        requires
            0 <= shorter <= longer <= fetched.len(),
        ensures
            self.replay(fetched.take(shorter)).block_number <= self.replay(
                fetched.take(longer),
            ).block_number,
        decreases longer - shorter,
    {
        if shorter < longer {
            self.lemma_block_number_never_decreases(fetched, shorter, longer - 1);
            assert(fetched.take(longer).drop_last() == fetched.take(longer - 1));
        }
    }

    /// A block numbered 0 changes nothing, whatever else it holds.
    pub proof fn lemma_block_zero_ignored(self, block: BlockWithTxs)
        requires
            block.block_number == 0,
        ensures
            self.merge(block) == self,
            self.observe(MaybePendingBlockWithTxs::Block(block)) == self,
    {
    }

    /// An answer that is pending changes nothing: neither a pending block nor
    /// a block reported as finalized whose status is pending.
    pub proof fn lemma_pending_ignored(self, fetched: MaybePendingBlockWithTxs)
        requires
            fetched is PendingBlock || fetched->Block_0.status == BlockStatus::Pending,
        ensures
            self.observe(fetched) == self,
    {
    }

    /// The cached root is the text of an attested root exactly when the cache
    /// holds a block and the root of its latest block is the attested number.
    /// An empty cache is fresh against no root.
    pub proof fn lemma_fresh_iff_latest_root_attested(self, attested: nat)
        requires
            self.wf(),
        ensures
            (self.state_root == decimal_text(attested)) == (self.block_number != 0
                && self.payload[self.block_number].new_root.value() == attested),
    {
        lemma_decimal_text_nonempty(attested);
        if self.block_number != 0 && self.state_root == decimal_text(attested) {
            lemma_decimal_text_injective(
                self.payload[self.block_number].new_root.value(),
                attested,
            );
        }
    }

    /// Two finalized blocks, the higher of them above the cached number, leave
    /// the cache at the higher number and its root in whichever order they
    /// arrive; the lower one arriving late changes nothing.
    pub proof fn lemma_order_does_not_matter(self, lower: BlockWithTxs, higher: BlockWithTxs)
        requires
            lower.block_number < higher.block_number,
            higher.status != BlockStatus::Pending,
            self.block_number < higher.block_number,
        ensures
            self.merge(lower).merge(higher).block_number == higher.block_number,
            self.merge(higher).merge(lower).block_number == higher.block_number,
            self.merge(lower).merge(higher).state_root == decimal_text(higher.new_root.value()),
            self.merge(higher).merge(lower).state_root == decimal_text(higher.new_root.value()),
            self.merge(higher).merge(lower) == self.merge(higher),
    {
    }
}

/// The cache: the highest block seen, its state root, and every block
/// accepted so far.
#[derive(Debug)]
pub struct NodeData {
    block_number: u64,
    state_root: String,
    payload: BTreeMap<u64, BlockWithTxs>,
}

impl View for NodeData {
    type V = NodeView;

    closed spec fn view(&self) -> NodeView {
        NodeView {
            block_number: self.block_number,
            state_root: self.state_root@,
            payload: self.payload@,
        }
    }
}

impl NodeData {
    /// Every cache is well formed; `use_type_invariant` makes this known.
    #[verifier::type_invariant]
    pub open spec fn well_formed(&self) -> bool {
        self@.wf()
    }

    /// The highest block number seen, 0 while nothing is cached.
    pub fn block_number(&self) -> (number: u64)
        ensures
            number == self@.block_number,
    {
        self.block_number
    }

    /// The decimal text of the state root of the highest block seen, empty
    /// while nothing is cached.
    pub fn state_root(&self) -> (root: &String)
        ensures
            root@ == self@.state_root,
    {
        &self.state_root
    }

    /// Every block accepted so far, by its number.
    pub fn payload(&self) -> (blocks: &BTreeMap<u64, BlockWithTxs>)
        ensures
            blocks@ == self@.payload,
    {
        &self.payload
    }

    /// An empty cache.
    pub fn new() -> (node: NodeData)
        ensures
            node@ == NodeView::empty(),
    {
        NodeData { block_number: 0, state_root: String::new(), payload: BTreeMap::new() }
    }

    /// Offers a block reported as finalized to the cache and returns the
    /// cache that results, with whether the block was taken.
    pub fn accept(self, block: BlockWithTxs) -> (r: (NodeData, bool))
        ensures
            r.0@ == self@.merge(block),
            r.1 == self@.accepts(block),
    {
        proof {
            use_type_invariant(&self);
        }
        if block.status != BlockStatus::Pending && block.block_number > self.block_number && 0
            < block.block_number {
            let number: u64 = block.block_number;
            let root = block.new_root.to_string();
            let mut payload = self.payload;
            payload.insert(number, block);
            (NodeData { block_number: number, state_root: root, payload }, true)
        } else {
            (self, false)
        }
    }

    /// The cached block with the given number.
    pub fn block_by_number(&self, number: u64) -> (found: Option<&BlockWithTxs>)
        ensures
            match found {
                Some(block) => self@.block_numbered(number) == Some(*block),
                None => self@.block_numbered(number) is None,
            },
    {
        self.payload.get(&number)
    }

    /// The cached block with the given hash: of several, the one with the
    /// lowest number.
    pub fn block_by_hash(&self, hash: &FieldElement) -> (found: Option<&BlockWithTxs>)
        ensures
            match found {
                Some(block) => self@.block_hashed(*hash) == Some(*block) && block.block_hash
                    == *hash,
                None => self@.block_hashed(*hash) is None,
            },
            found is None ==> forall|k: u64| #[trigger]
                self@.payload.contains_key(k) ==> self@.payload[k].block_hash != *hash,
    {
        let ghost map = self.payload@;
        let ghost all = self.payload.iter().remaining();
        for entry in it: self.payload.iter()
            invariant
                map == self.payload@,
                map == self@.payload,
                it.seq() == all,
                all == self.payload.iter().remaining(),
                increasing_seq(all.map_values(|kv: (&u64, &BlockWithTxs)| *kv.0)),
                forall|i: int| 0 <= i < it.index() ==> (*all[i].1).block_hash != *hash,
        {
            if entry.1.block_hash == *hash {
                proof {
                    let k = *entry.0;
                    let seq = all;
                    let at = it.index();
                    let keys = seq.map_values(|kv: (&u64, &BlockWithTxs)| *kv.0);
                    assert(entry == seq[at]);
                    assert(map.contains_key(*seq[at].0) && map[*seq[at].0] == *seq[at].1);
                    assert forall|j: u64| j < k && #[trigger] map.contains_key(j) implies map[j]
                        .block_hash != *hash by {
                        assert(seq.contains((&j, &map[j])));
                        let p = choose|p: int| 0 <= p < seq.len() && seq[p] == (&j, &map[j]);
                        assert(keys[p] == j);
                        assert(keys[at] == k);
                        if at < p {
                            assert(keys[at].cmp_spec(&keys[p]) is Less);
                        }
                        assert(p < at);
                    }
                    assert(self@.is_first_with_hash(*hash, k));
                }
                return Some(entry.1);
            }
        }
        proof {
            let seq = all;
            assert forall|k: u64| #[trigger] map.contains_key(k) implies map[k].block_hash
                != *hash by {
                assert(seq.contains((&k, &map[k])));
                let p = choose|p: int| 0 <= p < seq.len() && seq[p] == (&k, &map[k]);
                assert((*seq[p].1).block_hash != *hash);
            }
        }
        None
    }

    /// Offers one answer of the provider to the cache and returns the cache
    /// that results. A block that is still pending is never taken.
    pub fn observe(self, fetched: MaybePendingBlockWithTxs) -> (node: NodeData)
        ensures
            node@ == self@.observe(fetched),
    {
        match fetched {
            MaybePendingBlockWithTxs::Block(block) => self.accept(block).0,
            MaybePendingBlockWithTxs::PendingBlock(_) => self,
        }
    }
}

impl Clone for NodeData {
    /// A snapshot of the cache.
    fn clone(&self) -> (node: NodeData)
        ensures
            node@ == self@,
    {
        proof {
            use_type_invariant(self);
        }
        NodeData {
            block_number: self.block_number,
            state_root: self.state_root.clone(),
            payload: self.payload.clone(),
        }
    }
}

impl Default for NodeData {
    fn default() -> (node: NodeData)
        ensures
            node@ == NodeView::empty(),
    {
        NodeData::new()
    }
}

} // verus!
