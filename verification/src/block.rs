//! Blocks: the canonical hash over a block's fields, the difficulty target,
//! and the nonce search that seals a block.

use crate::ambient::unix_time;
use crate::digest::{sha256, sha256_of};
use crate::hexcode::{encode, hex_lower};
use crate::text::{decimal, push_decimal};
use crate::transaction::{
    canonical_json_list, transaction_views, transactions_json, TransactionView,
};
use vstd::prelude::*;
use vstd::std_specs::iter::IteratorSpec;
use vstd::string::StringExecFns;
use vstd::string::StringSliceAdditionalSpecFns;
use vstd::utf8::encode_utf8;

pub use crate::transaction::{SignedTransaction, Transaction};

verus! {

/// The length of a block hash in characters: two hexadecimal digits for each
/// of the digest's 32 bytes.
pub const HASH_LENGTH: usize = 64;

/// One block of the chain. `hash` is the canonical hash of the other five
/// fields at the time the block was sealed.
#[derive(Debug)]
pub struct Block {
    pub index: u64,
    pub timestamp: i64,
    pub previous_hash: String,
    pub hash: String,
    pub nonce: u64,
    pub transactions: Vec<Transaction>,
}

/// The mathematical content of a [`Block`].
pub struct BlockView {
    pub index: nat,
    pub timestamp: int,
    pub previous_hash: Seq<char>,
    pub hash: Seq<char>,
    pub nonce: nat,
    pub transactions: Seq<TransactionView>,
}

impl View for Block {
    type V = BlockView;

    open spec fn view(&self) -> BlockView {
        BlockView {
            index: self.index as nat,
            timestamp: self.timestamp as int,
            previous_hash: self.previous_hash@,
            hash: self.hash@,
            nonce: self.nonce as nat,
            transactions: transaction_views(self.transactions@),
        }
    }
}

impl Clone for Block {
    fn clone(&self) -> (copy: Self)
        ensures
            copy@ == self@,
    {
        let mut transactions: Vec<Transaction> = Vec::new();
        let mut i: usize = 0;
        while i < self.transactions.len()
            invariant
                i <= self.transactions.len(),
                transactions@.len() == i,
                forall|j: int| 0 <= j < i ==> transactions@[j]@ == self.transactions@[j]@,
            decreases self.transactions.len() - i,
        {
            transactions.push(self.transactions[i].clone());
            i += 1;
        }
        assert(transaction_views(transactions@) =~= transaction_views(self.transactions@));
        Block {
            index: self.index,
            timestamp: self.timestamp,
            previous_hash: self.previous_hash.clone(),
            hash: self.hash.clone(),
            nonce: self.nonce,
            transactions,
        }
    }
}

/// A signed timestamp as the unsigned 64-bit word with the same bits: a
/// time before the epoch counts down from 2^64.
pub open spec fn timestamp_word(timestamp: int) -> nat {
    if timestamp >= 0 {
        timestamp as nat
    } else {
        (timestamp + 0x1_0000_0000_0000_0000) as nat
    }
}

/// The text that is hashed for a block: the index, the timestamp, the
/// transactions' canonical encoding, the previous hash and the nonce, the
/// numbers in decimal, with nothing in between.
pub open spec fn hash_preimage(
    index: nat,
    timestamp: nat,
    tx_json: Seq<char>,
    previous_hash: Seq<char>,
    nonce: nat,
) -> Seq<char> {
    decimal(index) + decimal(timestamp) + tx_json + previous_hash + decimal(nonce)
}

/// The canonical block hash: the SHA-256 digest of the preimage's UTF-8
/// bytes, as 64 lowercase hexadecimal digits.
pub open spec fn block_hash(
    index: nat,
    timestamp: nat,
    tx_json: Seq<char>,
    previous_hash: Seq<char>,
    nonce: nat,
) -> Seq<char> {
    hex_lower(sha256(encode_utf8(hash_preimage(index, timestamp, tx_json, previous_hash, nonce))))
}

/// Whether `hash` meets the difficulty target: its first `difficulty`
/// characters exist and are all `'0'`.
pub open spec fn leading_zeros(hash: Seq<char>, difficulty: nat) -> bool {
    &&& difficulty <= hash.len()
    &&& forall|i: int| 0 <= i < difficulty ==> hash[i] == '0'
}

/// The canonical hash of a block with these fields, sealed with `nonce`.
pub open spec fn sealing_hash(
    index: nat,
    timestamp: int,
    transactions: Seq<TransactionView>,
    previous_hash: Seq<char>,
    nonce: nat,
) -> Seq<char> {
    block_hash(
        index,
        timestamp_word(timestamp),
        transactions_json(transactions),
        previous_hash,
        nonce,
    )
}

/// Whether no nonce of 64 bits seals a block with these fields at
/// `difficulty`.
pub open spec fn unsolvable(
    index: nat,
    timestamp: int,
    transactions: Seq<TransactionView>,
    previous_hash: Seq<char>,
    difficulty: nat,
) -> bool {
    forall|n: nat|
        n <= u64::MAX ==> !leading_zeros(
            #[trigger] sealing_hash(index, timestamp, transactions, previous_hash, n),
            difficulty,
        )
}

impl BlockView {
    /// The hash recomputed from the block's own stored fields, with `nonce`
    /// in place of the stored nonce.
    pub open spec fn digest_with(self, nonce: nat) -> Seq<char> {
        sealing_hash(self.index, self.timestamp, self.transactions, self.previous_hash, nonce)
    }

    /// The hash recomputed from the block's own stored fields.
    pub open spec fn digest(self) -> Seq<char> {
        self.digest_with(self.nonce)
    }

    /// Whether the block is the outcome of the nonce search at `difficulty`:
    /// its stored hash is the recomputed one and meets the target, and no
    /// smaller nonce would have met it.
    pub open spec fn mined(self, difficulty: nat) -> bool {
        &&& self.hash == self.digest()
        &&& leading_zeros(self.hash, difficulty)
        &&& forall|n: nat|
            n < self.nonce ==> !leading_zeros(#[trigger] self.digest_with(n), difficulty)
    }
}

/// The unsigned word that a signed timestamp is hashed as.
pub fn timestamp_word_of(timestamp: i64) -> (word: u64)
    ensures
        word == timestamp_word(timestamp as int),
{
    if timestamp >= 0 {
        timestamp as u64
    } else {
        let above_min: i64 = (timestamp + i64::MAX) + 1;
        (above_min as u64) + 0x8000_0000_0000_0000
    }
}

/// The text that is hashed for a block with these fields.
pub fn hash_preimage_of(
    index: u64,
    timestamp: u64,
    tx_json: &str,
    previous_hash: &str,
    nonce: u64,
) -> (preimage: String)
    ensures
        preimage@ == hash_preimage(
            index as nat,
            timestamp as nat,
            tx_json@,
            previous_hash@,
            nonce as nat,
        ),
{
    let mut preimage = String::new();
    push_decimal(&mut preimage, index);
    push_decimal(&mut preimage, timestamp);
    preimage.append(tx_json);
    preimage.append(previous_hash);
    push_decimal(&mut preimage, nonce);
    preimage
}

/// Whether `hash` starts with `difficulty` characters `'0'`.
pub fn meets_difficulty(hash: &str, difficulty: usize) -> (met: bool)
    ensures
        met == leading_zeros(hash@, difficulty as nat),
{
    broadcast use vstd::string::group_string_axioms;

    let mut rest = hash.chars();
    let mut seen: usize = 0;
    while seen < difficulty
        invariant
            seen <= difficulty,
            seen <= hash@.len(),
            rest.obeys_prophetic_iter_laws(),
            rest.remaining() == hash@.skip(seen as int),
            forall|i: int| 0 <= i < seen ==> hash@[i] == '0',
        decreases difficulty - seen,
    {
        match rest.next() {
            Some(c) => {
                if c != '0' {
                    return false;
                }
            },
            None => {
                return false;
            },
        }
        seen += 1;
    }
    true
}

impl Block {
    /// The canonical hash of a block with these fields.
    pub fn calculate_hash(
        index: u64,
        timestamp: u64,
        tx_json: &str,
        previous_hash: &str,
        nonce: u64,
    ) -> (hash: String)
        ensures
            hash@ == block_hash(
                index as nat,
                timestamp as nat,
                tx_json@,
                previous_hash@,
                nonce as nat,
            ),
            hash@.len() == HASH_LENGTH,
    {
        let preimage = hash_preimage_of(index, timestamp, tx_json, previous_hash, nonce);
        let digest = sha256_of(preimage.as_str().as_bytes());
        encode(digest.as_slice())
    }

    /// Searches the nonces from `first` to `last`, both included, in rising
    /// order, for one whose hash meets the difficulty target. It returns
    /// the least such nonce with its hash, or `None` where the range holds
    /// none. Disjoint ranges can be searched independently of each other.
    pub fn search_nonce(
        index: u64,
        timestamp: u64,
        tx_json: &str,
        previous_hash: &str,
        difficulty: usize,
        first: u64,
        last: u64,
    ) -> (found: Option<(u64, String)>)
        ensures
            match found {
                Some((nonce, hash)) => {
                    &&& first <= nonce <= last
                    &&& hash@ == block_hash(
                        index as nat,
                        timestamp as nat,
                        tx_json@,
                        previous_hash@,
                        nonce as nat,
                    )
                    &&& leading_zeros(hash@, difficulty as nat)
                    &&& forall|n: nat|
                        first <= n < nonce ==> !leading_zeros(
                            #[trigger] block_hash(
                                index as nat,
                                timestamp as nat,
                                tx_json@,
                                previous_hash@,
                                n,
                            ),
                            difficulty as nat,
                        )
                },
                None => forall|n: nat|
                    first <= n <= last ==> !leading_zeros(
                        #[trigger] block_hash(
                            index as nat,
                            timestamp as nat,
                            tx_json@,
                            previous_hash@,
                            n,
                        ),
                        difficulty as nat,
                    ),
            },
            found is Some ==> difficulty <= HASH_LENGTH,
    {
        if first > last {
            return None;
        }
        let mut nonce: u64 = first;
        loop
            invariant
                first <= nonce <= last,
                forall|n: nat|
                    first <= n < nonce ==> !leading_zeros(
                        #[trigger] block_hash(
                            index as nat,
                            timestamp as nat,
                            tx_json@,
                            previous_hash@,
                            n,
                        ),
                        difficulty as nat,
                    ),
            decreases last - nonce,
        {
            let hash = Block::calculate_hash(index, timestamp, tx_json, previous_hash, nonce);
            if meets_difficulty(hash.as_str(), difficulty) {
                return Some((nonce, hash));
            }
            if nonce == last {
                return None;
            }
            nonce += 1;
        }
    }

    /// Seals a block with the given fields and the given timestamp: the
    /// nonces are tried from zero upwards and the first whose hash meets the
    /// difficulty target is kept. `None` means that no 64-bit nonce meets
    /// it.
    pub fn mine(
        index: u64,
        timestamp: i64,
        transactions: Vec<Transaction>,
        previous_hash: String,
        difficulty: usize,
    ) -> (sealed: Option<Block>)
        ensures
            match sealed {
                Some(block) => {
                    &&& block@.index == index
                    &&& block@.timestamp == timestamp
                    &&& block@.transactions == transaction_views(transactions@)
                    &&& block@.previous_hash == previous_hash@
                    &&& block@.mined(difficulty as nat)
                },
                None => unsolvable(
                    index as nat,
                    timestamp as int,
                    transaction_views(transactions@),
                    previous_hash@,
                    difficulty as nat,
                ),
            },
            difficulty == 0 ==> sealed is Some,
            difficulty > HASH_LENGTH ==> sealed is None,
    {
        let tx_json = canonical_json_list(&transactions);
        let word = timestamp_word_of(timestamp);
        let found = Block::search_nonce(
            index,
            word,
            tx_json.as_str(),
            previous_hash.as_str(),
            difficulty,
            0,
            u64::MAX,
        );
        match found {
            Some((nonce, hash)) => Some(
                Block { index, timestamp, previous_hash, hash, nonce, transactions },
            ),
            None => {
                proof {
                    // Every hash meets a target of zero, the first nonce's too.
                    assert(leading_zeros(
                        sealing_hash(
                            index as nat,
                            timestamp as int,
                            transaction_views(transactions@),
                            previous_hash@,
                            0,
                        ),
                        0,
                    ));
                }
                None
            },
        }
    }

    /// Seals a block with the given fields, stamped with the current time.
    /// The time is read once, before the search, and held for all of it.
    /// `None` means that no 64-bit nonce meets the difficulty target at that
    /// time; with a target of zero every hash meets it.
    pub fn new(
        index: u64,
        transactions: Vec<Transaction>,
        previous_hash: String,
        difficulty: usize,
    ) -> (sealed: Option<Block>)
        ensures
            match sealed {
                Some(block) => {
                    &&& block@.index == index
                    &&& block@.transactions == transaction_views(transactions@)
                    &&& block@.previous_hash == previous_hash@
                    &&& block@.mined(difficulty as nat)
                },
                None => {
                    &&& difficulty > 0
                    &&& exists|timestamp: int|
                        i64::MIN <= timestamp <= i64::MAX && #[trigger] unsolvable(
                            index as nat,
                            timestamp,
                            transaction_views(transactions@),
                            previous_hash@,
                            difficulty as nat,
                        )
                },
            },
    {
        let timestamp = unix_time();
        Block::mine(index, timestamp, transactions, previous_hash, difficulty)
    }
}

} // verus!
