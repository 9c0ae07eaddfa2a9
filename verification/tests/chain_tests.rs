use ledger_core::block::{Block, Transaction};
use ledger_core::blockchain::{Blockchain, FailureReason, Invariant, Validation};

const GENESIS_AT_ONE: &str = "0e5a4a5aa9f0faca5ce5d7333f54ba520ce26216dc41098edd28d0b9f14dace2";
const FIRST_AT_ONE: &str = "0ac0c04f4fd2e29f1cf0829cd91dc0c3d7c6f738a101a7bd8731a1ae58f3974d";
const SECOND_AT_ONE: &str = "00a370009d7bccb3a43028f221076f20b52ba3b12391793ad75110aee09991de";

fn transfer(sender: &str, receiver: &str, amount: u64, timestamp: u64) -> Transaction {
    Transaction { sender: sender.to_string(), receiver: receiver.to_string(), amount, timestamp }
}

fn first_batch() -> Vec<Transaction> {
    vec![transfer("A", "B", 10, 0)]
}

fn second_batch() -> Vec<Transaction> {
    vec![transfer("B", "C", 3, 5), transfer("C", "A", 4, 6)]
}

fn fixed_chain(difficulty: usize) -> Blockchain {
    let mut chain = Blockchain::with_genesis_at(difficulty, 1_700_000_000).unwrap();
    assert!(chain.add_block_at(first_batch(), 1_700_000_001));
    assert!(chain.add_block_at(second_batch(), 1_700_000_002));
    chain
}

fn passed() -> Validation {
    Validation { valid: true, failure_reason: None }
}

fn failed(index: usize, invariant: Invariant) -> Validation {
    Validation { valid: false, failure_reason: Some(FailureReason { index, invariant }) }
}

#[test]
fn appended_block_validates_until_its_amount_is_changed() {
    let mut chain = Blockchain::new(2).unwrap();
    assert!(chain.add_block(vec![transfer("A", "B", 10, 0)]));
    assert_eq!(chain.chain.len(), 2);
    assert!(chain.is_valid_block());
    assert_eq!(chain.validate(), passed());

    chain.chain[1].transactions[0].amount = 11;
    assert!(!chain.is_valid_block());
    let outcome = chain.validate();
    assert_eq!(outcome, failed(1, Invariant::HashIntegrity));
    assert_eq!(outcome.failure_reason.unwrap().message(), "hash mismatch at index 1");
}

#[test]
fn new_chain_holds_a_sealed_genesis_block() {
    let chain = Blockchain::new(1).unwrap();
    assert_eq!(chain.difficulty, 1);
    assert_eq!(chain.chain.len(), 1);
    let genesis = &chain.chain[0];
    assert_eq!(genesis.index, 0);
    assert_eq!(genesis.previous_hash, "0");
    assert!(genesis.transactions.is_empty());
    assert!(genesis.hash.starts_with('0'));
    assert!(chain.is_valid_block());
}

#[test]
fn chain_at_a_fixed_time_has_known_blocks() {
    let chain = fixed_chain(1);
    assert_eq!(chain.difficulty, 1);
    assert_eq!(chain.chain.len(), 3);
    assert_eq!(chain.chain[0].nonce, 24);
    assert_eq!(chain.chain[0].hash, GENESIS_AT_ONE);
    assert_eq!(chain.chain[0].timestamp, 1_700_000_000);
    assert_eq!(chain.chain[1].index, 1);
    assert_eq!(chain.chain[1].nonce, 22);
    assert_eq!(chain.chain[1].previous_hash, GENESIS_AT_ONE);
    assert_eq!(chain.chain[1].hash, FIRST_AT_ONE);
    assert_eq!(chain.chain[1].timestamp, 1_700_000_001);
    assert_eq!(chain.chain[1].transactions.len(), 1);
    assert_eq!(chain.chain[2].index, 2);
    assert_eq!(chain.chain[2].nonce, 13);
    assert_eq!(chain.chain[2].previous_hash, FIRST_AT_ONE);
    assert_eq!(chain.chain[2].hash, SECOND_AT_ONE);
    assert_eq!(chain.chain[2].transactions.len(), 2);
    assert_eq!(chain.chain[2].transactions[1].receiver, "A");
}

#[test]
fn chain_at_difficulty_two_has_known_blocks() {
    let chain = fixed_chain(2);
    assert_eq!(chain.chain[0].nonce, 149);
    assert_eq!(chain.chain[1].nonce, 120);
    assert_eq!(chain.chain[2].nonce, 564);
    assert_eq!(
        chain.chain[2].hash,
        "00ceb6dd6f2e93556127789130978e11fe7c673b73215ef3600be874ef5a4d4d"
    );
    assert_eq!(chain.validate(), passed());
}

#[test]
fn chain_of_genesis_alone_is_valid() {
    for difficulty in 0usize..=2 {
        let chain = Blockchain::with_genesis_at(difficulty, 1_700_000_000).unwrap();
        assert_eq!(chain.chain.len(), 1);
        assert_eq!(chain.validate(), passed());
        assert!(chain.is_valid_block());
    }
}

#[test]
fn chain_without_blocks_is_valid() {
    let chain = Blockchain { chain: Vec::new(), difficulty: 3 };
    assert_eq!(chain.validate(), passed());
}

#[test]
fn chain_built_by_appends_stays_valid() {
    for difficulty in 0usize..=2 {
        let mut chain = Blockchain::new(difficulty).unwrap();
        assert!(chain.is_valid_block());
        for round in 0u64..5 {
            let batch: Vec<Transaction> =
                (0..round).map(|i| transfer("A", "B", round * 10 + i, i)).collect();
            let before = chain.chain.len();
            assert!(chain.add_block(batch));
            assert_eq!(chain.chain.len(), before + 1);
            assert_eq!(chain.difficulty, difficulty);
            let last = &chain.chain[before];
            assert_eq!(last.index, before as u64);
            assert_eq!(last.previous_hash, chain.chain[before - 1].hash);
            assert_eq!(last.transactions.len(), round as usize);
            assert!(last.hash.starts_with(&"0".repeat(difficulty)));
            assert_eq!(chain.validate(), passed());
        }
    }
}

#[test]
fn append_leaves_earlier_blocks_alone() {
    let mut chain = Blockchain::with_genesis_at(1, 1_700_000_000).unwrap();
    assert!(chain.add_block_at(first_batch(), 1_700_000_001));
    assert_eq!(chain.chain[0].hash, GENESIS_AT_ONE);
    assert!(chain.add_block_at(second_batch(), 1_700_000_002));
    assert_eq!(chain.chain[0].hash, GENESIS_AT_ONE);
    assert_eq!(chain.chain[1].hash, FIRST_AT_ONE);
    assert_eq!(chain.chain[1].transactions[0].amount, 10);
}

#[test]
fn changed_amount_is_a_hash_mismatch() {
    let mut chain = fixed_chain(1);
    chain.chain[2].transactions[0].amount = 4;
    assert_eq!(chain.validate(), failed(2, Invariant::HashIntegrity));
}

#[test]
fn changed_nonce_is_a_hash_mismatch() {
    let mut chain = fixed_chain(1);
    chain.chain[1].nonce += 1;
    assert_eq!(chain.validate(), failed(1, Invariant::HashIntegrity));
}

#[test]
fn changed_previous_hash_is_a_hash_mismatch() {
    let mut chain = fixed_chain(1);
    chain.chain[2].previous_hash = GENESIS_AT_ONE.to_string();
    assert_eq!(chain.validate(), failed(2, Invariant::HashIntegrity));
}

#[test]
fn changed_transaction_set_is_a_hash_mismatch() {
    let mut added = fixed_chain(1);
    added.chain[1].transactions.push(transfer("M", "M", 1000, 0));
    assert_eq!(added.validate(), failed(1, Invariant::HashIntegrity));

    let mut removed = fixed_chain(1);
    removed.chain[2].transactions.pop();
    assert_eq!(removed.validate(), failed(2, Invariant::HashIntegrity));

    let mut reordered = fixed_chain(1);
    reordered.chain[2].transactions.swap(0, 1);
    assert_eq!(reordered.validate(), failed(2, Invariant::HashIntegrity));

    let mut renamed = fixed_chain(1);
    renamed.chain[1].transactions[0].receiver = "M".to_string();
    assert_eq!(renamed.validate(), failed(1, Invariant::HashIntegrity));
}

#[test]
fn changed_index_or_timestamp_is_a_hash_mismatch() {
    let mut index = fixed_chain(1);
    index.chain[1].index = 7;
    assert_eq!(index.validate(), failed(1, Invariant::HashIntegrity));

    let mut timestamp = fixed_chain(1);
    timestamp.chain[2].timestamp -= 1;
    assert_eq!(timestamp.validate(), failed(2, Invariant::HashIntegrity));
}

#[test]
fn changed_stored_hash_is_a_hash_mismatch() {
    let mut chain = fixed_chain(1);
    chain.chain[1].hash = SECOND_AT_ONE.to_string();
    assert_eq!(chain.validate(), failed(1, Invariant::HashIntegrity));
}

#[test]
fn first_of_two_violations_is_reported() {
    let mut chain = fixed_chain(1);
    chain.chain[2].nonce = 0;
    chain.chain[1].transactions[0].amount = 11;
    assert_eq!(chain.validate(), failed(1, Invariant::HashIntegrity));
}

#[test]
fn resealed_block_on_another_parent_is_a_broken_link() {
    let mut chain = fixed_chain(1);
    let stray = Block::mine(1, 1_700_000_001, first_batch(), "f".repeat(64), 1).unwrap();
    assert_eq!(stray.nonce, 29);
    assert_eq!(stray.hash, "0d2ea245ae3516653b351a0c36f7d7e83f22fc4a2e93be6bdf593fbf1daaaffd");
    chain.chain[1] = stray;
    let outcome = chain.validate();
    assert_eq!(outcome, failed(1, Invariant::Linkage));
    assert_eq!(outcome.failure_reason.unwrap().message(), "broken link at index 1");
}

#[test]
fn resealed_block_breaks_the_link_of_its_successor() {
    let mut chain = fixed_chain(1);
    let resealed = Block::mine(
        1,
        1_700_000_001,
        vec![transfer("A", "B", 11, 0)],
        GENESIS_AT_ONE.to_string(),
        1,
    )
    .unwrap();
    assert_eq!(resealed.hash, "07e9dda238abca4c214d590ed93af1ba681634a6703065cedce9ea957fa56f3f");
    chain.chain[1] = resealed;
    assert_eq!(chain.validate(), failed(2, Invariant::Linkage));
}

#[test]
fn changed_genesis_hash_breaks_the_link_of_the_first_block() {
    let mut chain = fixed_chain(1);
    chain.chain[0].hash = "0".repeat(64);
    assert_eq!(chain.validate(), failed(1, Invariant::Linkage));
}

#[test]
fn genesis_block_itself_is_not_checked() {
    let mut chain = Blockchain::with_genesis_at(1, 1_700_000_000).unwrap();
    chain.chain[0].nonce = 0;
    chain.chain[0].hash = "ffff".to_string();
    assert_eq!(chain.validate(), passed());
}

#[test]
fn raised_difficulty_is_insufficient_difficulty() {
    let mut chain = fixed_chain(1);
    chain.difficulty = 2;
    let outcome = chain.validate();
    assert_eq!(outcome, failed(1, Invariant::ProofOfWork));
    assert_eq!(outcome.failure_reason.unwrap().message(), "insufficient difficulty at index 1");

    chain.difficulty = 65;
    assert_eq!(chain.validate(), failed(1, Invariant::ProofOfWork));
}

#[test]
fn lowered_difficulty_keeps_the_chain_valid() {
    let mut chain = fixed_chain(2);
    chain.difficulty = 1;
    assert_eq!(chain.validate(), passed());
    chain.difficulty = 0;
    assert_eq!(chain.validate(), passed());
}

#[test]
fn failure_message_names_violation_and_index() {
    let reason = FailureReason { index: 0, invariant: Invariant::HashIntegrity };
    assert_eq!(reason.message(), "hash mismatch at index 0");
    let reason = FailureReason { index: 12, invariant: Invariant::Linkage };
    assert_eq!(reason.message(), "broken link at index 12");
    let reason = FailureReason { index: 4096, invariant: Invariant::ProofOfWork };
    assert_eq!(reason.message(), "insufficient difficulty at index 4096");
}

#[test]
fn is_valid_block_agrees_with_validate() {
    let mut chain = fixed_chain(1);
    assert_eq!(chain.is_valid_block(), chain.validate().valid);
    chain.chain[2].nonce = 99;
    assert_eq!(chain.is_valid_block(), chain.validate().valid);
    assert!(!chain.is_valid_block());
}
