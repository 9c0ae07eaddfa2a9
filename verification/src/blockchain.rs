//! The chain: a genesis block, appends on top of it, and the validation that
//! re-derives every block's hash and checks its link and its difficulty.

use crate::ambient::unix_time;
use crate::block::{
    leading_zeros, meets_difficulty, timestamp_word_of, unsolvable, Block, BlockView, Transaction,
};
use crate::text::{decimal, push_decimal};
use crate::transaction::{canonical_json_list, transaction_views};
use vstd::prelude::*;
use vstd::string::StringExecFns;

verus! {

/// An append-only sequence of blocks with the difficulty that all of them
/// are held to. The chain records transactions and keeps no balances:
/// nothing is debited, credited or refused for want of funds.
pub struct Blockchain {
    pub chain: Vec<Block>,
    pub difficulty: usize,
}

/// The mathematical content of a [`Blockchain`].
pub struct ChainView {
    pub blocks: Seq<BlockView>,
    pub difficulty: nat,
}

impl View for Blockchain {
    type V = ChainView;

    open spec fn view(&self) -> ChainView {
        ChainView {
            blocks: self.chain@.map_values(|b: Block| b@),
            difficulty: self.difficulty as nat,
        }
    }
}

/// What validation holds a block to, in the order in which it checks.
#[derive(Clone, Copy, Debug, PartialEq, Eq, Structural)]
pub enum Invariant {
    /// The stored hash is the hash recomputed from the stored fields.
    HashIntegrity,
    /// The stored previous hash is the stored hash of the block before.
    Linkage,
    /// The stored hash meets the chain's difficulty target.
    ProofOfWork,
}

/// The first violation that validation met: which block, and which
/// invariant it breaks.
#[derive(Clone, Copy, Debug, PartialEq, Eq, Structural)]
pub struct FailureReason {
    pub index: usize,
    pub invariant: Invariant,
}

/// The outcome of validating a chain. `failure_reason` is present exactly
/// when `valid` is false.
#[derive(Clone, Copy, Debug, PartialEq, Eq)]
pub struct Validation {
    pub valid: bool,
    pub failure_reason: Option<FailureReason>,
}

/// The previous hash of a genesis block.
pub open spec fn genesis_previous_hash() -> Seq<char> {
    "0"@
}

/// Whether `block` has the shape of a genesis block: index zero, the
/// sentinel for a previous hash, and no transactions.
pub open spec fn is_genesis(block: BlockView) -> bool {
    &&& block.index == 0
    &&& block.previous_hash == genesis_previous_hash()
    &&& block.transactions.len() == 0
}

/// The first invariant that `current` breaks as the successor of
/// `previous`, in the order hash integrity, linkage, proof of work; `None`
/// where it breaks none.
pub open spec fn block_fault(previous: BlockView, current: BlockView, difficulty: nat) -> Option<
    Invariant,
> {
    if current.hash != current.digest() {
        Some(Invariant::HashIntegrity)
    } else if current.previous_hash != previous.hash {
        Some(Invariant::Linkage)
    } else if !leading_zeros(current.hash, difficulty) {
        Some(Invariant::ProofOfWork)
    } else {
        None
    }
}

/// Whether `next` was sealed on top of `previous`: it carries the next
/// index and the hash of `previous`, and is the outcome of the nonce search.
pub open spec fn sealed_on(previous: BlockView, next: BlockView, difficulty: nat) -> bool {
    &&& next.index == previous.index + 1
    &&& next.previous_hash == previous.hash
    &&& next.mined(difficulty)
}

impl ChainView {
    /// The first invariant that the block at `i` breaks, if any. The block
    /// at zero has no predecessor and is not held to anything.
    pub open spec fn fault_at(self, i: int) -> Option<Invariant> {
        block_fault(self.blocks[i - 1], self.blocks[i], self.difficulty)
    }

    /// Whether no block from index 1 up to, but not including, `end` breaks
    /// an invariant.
    pub open spec fn sound_below(self, end: int) -> bool {
        forall|i: int| 1 <= i < end ==> (#[trigger] self.fault_at(i)) is None
    }

    /// Whether the whole chain is valid: no block after the first breaks an
    /// invariant. A chain of the genesis block alone is valid.
    pub open spec fn valid(self) -> bool {
        self.sound_below(self.blocks.len() as int)
    }

    /// Whether validation fails first at block `index`, on `invariant`.
    pub open spec fn fails_first_at(self, index: int, broken: Invariant) -> bool {
        &&& 1 <= index < self.blocks.len()
        &&& self.sound_below(index)
        &&& self.fault_at(index) == Some(broken)
    }

    /// The chain with `block` appended.
    pub open spec fn push(self, block: BlockView) -> ChainView {
        ChainView { blocks: self.blocks.push(block), difficulty: self.difficulty }
    }

    /// The chain with the block at `i` replaced by `block`.
    pub open spec fn replace(self, i: int, block: BlockView) -> ChainView {
        ChainView { blocks: self.blocks.update(i, block), difficulty: self.difficulty }
    }

    /// Whether the chain is a sealed genesis block followed by blocks that
    /// were each sealed on top of the one before.
    pub open spec fn built_by_appends(self) -> bool
        decreases self.blocks.len(),
    {
        if self.blocks.len() <= 1 {
            &&& self.blocks.len() == 1
            &&& is_genesis(self.blocks[0])
            &&& self.blocks[0].mined(self.difficulty)
        } else {
            &&& (ChainView {
                blocks: self.blocks.drop_last(),
                difficulty: self.difficulty,
            }).built_by_appends()
            &&& sealed_on(
                self.blocks[self.blocks.len() - 2],
                self.blocks.last(),
                self.difficulty,
            )
        }
    }
}

/// Appending a block that keeps its own hash, links to the last block and
/// meets the difficulty keeps a valid chain valid.
pub proof fn lemma_append_keeps_valid(chain: ChainView, block: BlockView)
    requires
        chain.valid(),
        chain.blocks.len() > 0,
        block_fault(chain.blocks.last(), block, chain.difficulty) is None,
    ensures
        chain.push(block).valid(),
{
    let grown = chain.push(block);
    assert forall|i: int| 1 <= i < grown.blocks.len() implies (#[trigger] grown.fault_at(
        i,
    )) is None by {
        if i < chain.blocks.len() {
            assert(chain.fault_at(i) is None);
        }
    }
}

/// A chain built solely by sealing a genesis block and appending sealed
/// blocks to it is valid.
pub proof fn lemma_built_chain_is_valid(chain: ChainView)
    requires
        chain.built_by_appends(),
    ensures
        chain.valid(),
    decreases chain.blocks.len(),
{
    if chain.blocks.len() > 1 {
        let shorter = ChainView { blocks: chain.blocks.drop_last(), difficulty: chain.difficulty };
        lemma_built_chain_is_valid(shorter);
        lemma_append_keeps_valid(shorter, chain.blocks.last());
        assert(shorter.push(chain.blocks.last()).blocks == chain.blocks);
    }
}

/// Tampering is detected as a hash mismatch at the tampered block: if a
/// block after the first of a valid chain is replaced by one that keeps the
/// stored hash while its fields no longer hash to it, validation fails first
/// at that block, on hash integrity.
pub proof fn lemma_tampering_breaks_hash(chain: ChainView, i: int, tampered: BlockView)
    requires
        chain.valid(),
        1 <= i < chain.blocks.len(),
        tampered.hash == chain.blocks[i].hash,
        tampered.digest() != chain.blocks[i].digest(),
    ensures
        chain.replace(i, tampered).fails_first_at(i, Invariant::HashIntegrity),
{
    let changed = chain.replace(i, tampered);
    assert(chain.fault_at(i) is None);
    assert forall|j: int| 1 <= j < i implies (#[trigger] changed.fault_at(j)) is None by {
        assert(chain.fault_at(j) is None);
    }
}

/// Overwriting the stored hash of a block after the first of a valid chain,
/// and nothing else, is detected as a hash mismatch at that block.
pub proof fn lemma_forged_hash_detected(chain: ChainView, i: int, forged: Seq<char>)
    requires
        chain.valid(),
        1 <= i < chain.blocks.len(),
        forged != chain.blocks[i].hash,
    ensures
        chain.replace(i, BlockView { hash: forged, ..chain.blocks[i] }).fails_first_at(
            i,
            Invariant::HashIntegrity,
        ),
{
    let block = BlockView { hash: forged, ..chain.blocks[i] };
    let changed = chain.replace(i, block);
    assert(chain.fault_at(i) is None);
    assert forall|j: int| 1 <= j < i implies (#[trigger] changed.fault_at(j)) is None by {
        assert(chain.fault_at(j) is None);
    }
}

/// A block that still hashes to its stored hash but names another previous
/// hash than the stored hash of the block before it is detected as a broken
/// link at that block.
pub proof fn lemma_relinking_breaks_link(chain: ChainView, i: int, tampered: BlockView)
    requires
        chain.valid(),
        1 <= i < chain.blocks.len(),
        tampered.hash == tampered.digest(),
        tampered.previous_hash != chain.blocks[i - 1].hash,
    ensures
        chain.replace(i, tampered).fails_first_at(i, Invariant::Linkage),
{
    let changed = chain.replace(i, tampered);
    assert forall|j: int| 1 <= j < i implies (#[trigger] changed.fault_at(j)) is None by {
        assert(chain.fault_at(j) is None);
    }
}

impl Invariant {
    /// The words that name a violation of this invariant.
    pub open spec fn label(self) -> Seq<char> {
        match self {
            Invariant::HashIntegrity => "hash mismatch"@,
            Invariant::Linkage => "broken link"@,
            Invariant::ProofOfWork => "insufficient difficulty"@,
        }
    }
}

impl FailureReason {
    /// The failure in words: the violation's name, then `at index` and the
    /// block's index in decimal.
    pub open spec fn message_text(self) -> Seq<char> {
        self.invariant.label() + " at index "@ + decimal(self.index as nat)
    }

    /// The failure in words, such as `hash mismatch at index 3`.
    pub fn message(&self) -> (text: String)
        ensures
            text@ == self.message_text(),
    {
        let mut text = match self.invariant {
            Invariant::HashIntegrity => String::from_str("hash mismatch"),
            Invariant::Linkage => String::from_str("broken link"),
            Invariant::ProofOfWork => String::from_str("insufficient difficulty"),
        };
        text.append(" at index ");
        push_decimal(&mut text, self.index as u64);
        text
    }
}

impl Blockchain {
    /// A chain that holds a freshly sealed genesis block, stamped with
    /// `timestamp`. `None` means that no 64-bit nonce seals the genesis
    /// block at this difficulty.
    pub fn with_genesis_at(difficulty: usize, timestamp: i64) -> (made: Option<Blockchain>)
        ensures
            match made {
                Some(chain) => {
                    &&& chain@.difficulty == difficulty
                    &&& chain@.blocks.len() == 1
                    &&& chain@.blocks[0].timestamp == timestamp
                    &&& chain@.built_by_appends()
                    &&& chain@.valid()
                },
                None => unsolvable(
                    0,
                    timestamp as int,
                    Seq::empty(),
                    genesis_previous_hash(),
                    difficulty as nat,
                ),
            },
            difficulty == 0 ==> made is Some,
    {
        let transactions: Vec<Transaction> = Vec::new();
        assert(transaction_views(transactions@) =~= Seq::empty());
        match Block::mine(0, timestamp, transactions, String::from_str("0"), difficulty) {
            Some(genesis) => {
                let mut chain: Vec<Block> = Vec::new();
                chain.push(genesis);
                Some(Blockchain { chain, difficulty })
            },
            None => None,
        }
    }

    /// A chain that holds a freshly sealed genesis block, stamped with the
    /// current time. `None` means that no 64-bit nonce seals the genesis
    /// block at this difficulty and that time; with a difficulty of zero
    /// every hash meets the target.
    pub fn new(difficulty: usize) -> (made: Option<Blockchain>)
        ensures
            match made {
                Some(chain) => {
                    &&& chain@.difficulty == difficulty
                    &&& chain@.blocks.len() == 1
                    &&& chain@.built_by_appends()
                    &&& chain@.valid()
                },
                None => {
                    &&& difficulty > 0
                    &&& exists|timestamp: int|
                        i64::MIN <= timestamp <= i64::MAX && #[trigger] unsolvable(
                            0,
                            timestamp,
                            Seq::empty(),
                            genesis_previous_hash(),
                            difficulty as nat,
                        )
                },
            },
    {
        let timestamp = unix_time();
        Blockchain::with_genesis_at(difficulty, timestamp)
    }

    /// Seals a block with `transactions` on top of the last block, stamped
    /// with `timestamp`, and appends it. It returns whether a block was
    /// appended; where no 64-bit nonce seals the block, the chain is left
    /// as it was.
    pub fn add_block_at(&mut self, transactions: Vec<Transaction>, timestamp: i64) -> (appended:
        bool)
        requires
            old(self).chain.len() > 0,
            old(self).chain@.last().index < u64::MAX,
        ensures
            final(self).difficulty == old(self).difficulty,
            appended ==> {
                &&& final(self).chain@.len() == old(self).chain@.len() + 1
                &&& final(self).chain@.drop_last() == old(self).chain@
                &&& final(self)@.blocks.last().timestamp == timestamp
                &&& final(self)@.blocks.last().transactions == transaction_views(transactions@)
                &&& sealed_on(
                    old(self)@.blocks.last(),
                    final(self)@.blocks.last(),
                    old(self)@.difficulty,
                )
            },
            !appended ==> {
                &&& final(self).chain@ == old(self).chain@
                &&& unsolvable(
                    old(self)@.blocks.last().index + 1,
                    timestamp as int,
                    transaction_views(transactions@),
                    old(self)@.blocks.last().hash,
                    old(self)@.difficulty,
                )
            },
            old(self).difficulty == 0 ==> appended,
            appended && old(self)@.valid() ==> final(self)@.valid(),
            appended && old(self)@.built_by_appends() ==> final(self)@.built_by_appends(),
    {
        let last = &self.chain[self.chain.len() - 1];
        let sealed = Block::mine(
            last.index + 1,
            timestamp,
            transactions,
            last.hash.clone(),
            self.difficulty,
        );
        match sealed {
            Some(block) => {
                let ghost before = self@;
                self.chain.push(block);
                proof {
                    assert(self@.blocks =~= before.blocks.push(block@));
                    assert(self@.blocks.drop_last() =~= before.blocks);
                    if before.valid() {
                        lemma_append_keeps_valid(before, block@);
                    }
                }
                true
            },
            None => false,
        }
    }

    /// Seals a block with `transactions` on top of the last block, stamped
    /// with the current time, and appends it. It returns whether a block
    /// was appended; where no 64-bit nonce seals the block at that time,
    /// the chain is left as it was.
    pub fn add_block(&mut self, transactions: Vec<Transaction>) -> (appended: bool)
        requires
            old(self).chain.len() > 0,
            old(self).chain@.last().index < u64::MAX,
        ensures
            final(self).difficulty == old(self).difficulty,
            appended ==> {
                &&& final(self).chain@.len() == old(self).chain@.len() + 1
                &&& final(self).chain@.drop_last() == old(self).chain@
                &&& final(self)@.blocks.last().transactions == transaction_views(transactions@)
                &&& sealed_on(
                    old(self)@.blocks.last(),
                    final(self)@.blocks.last(),
                    old(self)@.difficulty,
                )
            },
            !appended ==> {
                &&& final(self).chain@ == old(self).chain@
                &&& exists|timestamp: int|
                    i64::MIN <= timestamp <= i64::MAX && #[trigger] unsolvable(
                        old(self)@.blocks.last().index + 1,
                        timestamp,
                        transaction_views(transactions@),
                        old(self)@.blocks.last().hash,
                        old(self)@.difficulty,
                    )
            },
            old(self).difficulty == 0 ==> appended,
            appended && old(self)@.valid() ==> final(self)@.valid(),
            appended && old(self)@.built_by_appends() ==> final(self)@.built_by_appends(),
    {
        let timestamp = unix_time();
        self.add_block_at(transactions, timestamp)
    }

    /// Validates the whole chain. The blocks after the first are checked in
    /// order; each has its hash recomputed from its stored fields and held
    /// against the stored hash, its previous hash held against the stored
    /// hash of the block before, and its stored hash held to the difficulty.
    /// The first violation ends the walk and is reported with its index.
    pub fn validate(&self) -> (outcome: Validation)
        ensures
            outcome.valid == self@.valid(),
            match outcome.failure_reason {
                None => self@.valid(),
                Some(reason) => self@.fails_first_at(reason.index as int, reason.invariant),
            },
    {
        let mut i: usize = 1;
        while i < self.chain.len()
            invariant
                1 <= i,
                self@.sound_below(i as int),
            decreases self.chain.len() - i,
        {
            let current = &self.chain[i];
            let previous = &self.chain[i - 1];
            let tx_json = canonical_json_list(&current.transactions);
            let recalculated = Block::calculate_hash(
                current.index,
                timestamp_word_of(current.timestamp),
                tx_json.as_str(),
                current.previous_hash.as_str(),
                current.nonce,
            );
            let fault = if recalculated != current.hash {
                Some(Invariant::HashIntegrity)
            } else if current.previous_hash != previous.hash {
                Some(Invariant::Linkage)
            } else if !meets_difficulty(current.hash.as_str(), self.difficulty) {
                Some(Invariant::ProofOfWork)
            } else {
                None
            };
            assert(fault == self@.fault_at(i as int));
            match fault {
                Some(broken) => {
                    return Validation {
                        valid: false,
                        failure_reason: Some(FailureReason { index: i, invariant: broken }),
                    };
                },
                None => {},
            }
            i += 1;
        }
        Validation { valid: true, failure_reason: None }
    }

    /// Whether the whole chain is valid.
    pub fn is_valid_block(&self) -> (valid: bool)
        ensures
            valid == self@.valid(),
    {
        self.validate().valid
    }
}

} // verus!
