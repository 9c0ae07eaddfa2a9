//! Wallets: a signing key with the verifying key that belongs to it, the
//! address derived from the verifying key, and signed transactions.

use crate::ambient::{random_byte, unix_time};
use crate::block::{timestamp_word, timestamp_word_of};
use crate::ed25519::{accepts, derive_public_key, public_key_of, sign, signature_of, verify};
use crate::hexcode::{decode, encode, hex_decode, hex_lower, hex_value, lemma_decode_encode};
use crate::transaction::{transaction_json, SignedTransactionView, TransactionView};
use vstd::prelude::*;
use vstd::string::StringSliceAdditionalSpecFns;
use vstd::utf8::encode_utf8;

pub use crate::transaction::{SignedTransaction, Transaction};

verus! {

/// The length of a signing-key seed and of an encoded verifying key.
pub const KEY_LENGTH: usize = 32;

/// The length of an encoded signature.
pub const SIGNATURE_LENGTH: usize = 64;

/// A key pair. The verifying key is always the one derived from the seed;
/// the two are set together at construction and never again.
pub struct Wallet {
    seed: [u8; 32],
    public_key: [u8; 32],
}

/// The bytes that hexadecimal text stands for where there are exactly
/// `length` of them, `None` for any other text.
pub open spec fn bytes_from_hex(text: Seq<char>, length: nat) -> Option<Seq<u8>> {
    match hex_decode(text) {
        Some(bytes) => if bytes.len() == length {
            Some(bytes)
        } else {
            None
        },
        None => None,
    }
}

/// The bytes that are signed for a transaction: its canonical encoding in
/// UTF-8.
pub open spec fn signed_bytes(transaction: TransactionView) -> Seq<u8> {
    encode_utf8(transaction_json(transaction))
}

/// What signing `transaction` with the key of `seed` produces.
pub open spec fn signed_with(seed: Seq<u8>, transaction: TransactionView) -> SignedTransactionView {
    SignedTransactionView {
        transaction,
        signature: hex_lower(signature_of(seed, signed_bytes(transaction))),
        public_key: hex_lower(public_key_of(seed)),
    }
}

/// Whether a signed transaction verifies: its public key is hexadecimal
/// text of 32 bytes, its signature hexadecimal text of 64 bytes, and the key
/// accepts the signature over the transaction's canonical encoding.
pub open spec fn authentic(signed: SignedTransactionView) -> bool {
    match (
        bytes_from_hex(signed.public_key, KEY_LENGTH as nat),
        bytes_from_hex(signed.signature, SIGNATURE_LENGTH as nat),
    ) {
        (Some(public_key), Some(signature)) => accepts(
            public_key,
            signed_bytes(signed.transaction),
            signature,
        ),
        _ => false,
    }
}

/// A signed transaction whose public key is not hexadecimal text of 32
/// bytes, or whose signature is not hexadecimal text of 64 bytes, never
/// verifies.
pub proof fn lemma_malformed_is_rejected(signed: SignedTransactionView)
    requires
        bytes_from_hex(signed.public_key, KEY_LENGTH as nat) is None || bytes_from_hex(
            signed.signature,
            SIGNATURE_LENGTH as nat,
        ) is None,
    ensures
        !authentic(signed),
{
}

/// Replacing any one character of the signature, or of the public key, by
/// a character that is not a hexadecimal digit makes a signed transaction
/// fail to verify.
pub proof fn lemma_non_hex_character_is_rejected(signed: SignedTransactionView, i: int, c: char)
    requires
        hex_value(c) is None,
    ensures
        0 <= i < signed.signature.len() ==> !authentic(
            SignedTransactionView { signature: signed.signature.update(i, c), ..signed },
        ),
        0 <= i < signed.public_key.len() ==> !authentic(
            SignedTransactionView { public_key: signed.public_key.update(i, c), ..signed },
        ),
{
    if 0 <= i < signed.signature.len() {
        assert(hex_value(signed.signature.update(i, c)[i]) is None);
    }
    if 0 <= i < signed.public_key.len() {
        assert(hex_value(signed.public_key.update(i, c)[i]) is None);
    }
}

/// Reads a verifying key from hexadecimal text: `Some` exactly for text of
/// 64 hexadecimal digits.
pub fn public_key_from_hex(text: &str) -> (key: Option<[u8; 32]>)
    ensures
        match key {
            Some(bytes) => bytes_from_hex(text@, KEY_LENGTH as nat) == Some(bytes@),
            None => bytes_from_hex(text@, KEY_LENGTH as nat) is None,
        },
{
    match decode(text) {
        Some(bytes) => {
            if bytes.len() != KEY_LENGTH {
                return None;
            }
            let mut key = [0u8; 32];
            let mut i: usize = 0;
            while i < KEY_LENGTH
                invariant
                    i <= KEY_LENGTH,
                    bytes@.len() == KEY_LENGTH,
                    forall|j: int| 0 <= j < i ==> key@[j] == bytes@[j],
                decreases KEY_LENGTH - i,
            {
                key[i] = bytes[i];
                i += 1;
            }
            Some(key)
        },
        None => None,
    }
}

/// Reads a signature from hexadecimal text: `Some` exactly for text of 128
/// hexadecimal digits.
pub fn signature_from_hex(text: &str) -> (signature: Option<[u8; 64]>)
    ensures
        match signature {
            Some(bytes) => bytes_from_hex(text@, SIGNATURE_LENGTH as nat) == Some(bytes@),
            None => bytes_from_hex(text@, SIGNATURE_LENGTH as nat) is None,
        },
{
    match decode(text) {
        Some(bytes) => {
            if bytes.len() != SIGNATURE_LENGTH {
                return None;
            }
            let mut signature = [0u8; 64];
            let mut i: usize = 0;
            while i < SIGNATURE_LENGTH
                invariant
                    i <= SIGNATURE_LENGTH,
                    bytes@.len() == SIGNATURE_LENGTH,
                    forall|j: int| 0 <= j < i ==> signature@[j] == bytes@[j],
                decreases SIGNATURE_LENGTH - i,
            {
                signature[i] = bytes[i];
                i += 1;
            }
            Some(signature)
        },
        None => None,
    }
}

impl Wallet {
    #[verifier::type_invariant]
    spec fn paired(self) -> bool {
        self.public_key@ == public_key_of(self.seed@)
    }

    /// The 32 bytes of the signing-key seed.
    pub closed spec fn seed_bytes(self) -> Seq<u8> {
        self.seed@
    }

    /// The 32 bytes of the verifying key.
    pub closed spec fn public_key_bytes(self) -> Seq<u8> {
        self.public_key@
    }

    /// The wallet's address: the verifying key as lowercase hexadecimal
    /// text.
    pub open spec fn address(self) -> Seq<char> {
        hex_lower(self.public_key_bytes())
    }

    /// The wallet of the given signing-key seed.
    pub fn from_seed(seed: [u8; 32]) -> (wallet: Wallet)
        ensures
            wallet.seed_bytes() == seed@,
            wallet.public_key_bytes() == public_key_of(seed@),
    {
        let public_key = derive_public_key(&seed);
        Wallet { seed, public_key }
    }

    /// A wallet with a fresh signing key: 32 random bytes for a seed.
    pub fn new() -> (wallet: Wallet)
        ensures
            wallet.public_key_bytes() == public_key_of(wallet.seed_bytes()),
    {
        let mut seed = [0u8; 32];
        let mut i: usize = 0;
        while i < KEY_LENGTH
            invariant
                i <= KEY_LENGTH,
            decreases KEY_LENGTH - i,
        {
            seed[i] = random_byte();
            i += 1;
        }
        Wallet::from_seed(seed)
    }

    /// The verifying key in its 32-byte encoding. It is the key derived
    /// from the wallet's seed.
    pub fn get_public_key(&self) -> (public_key: &[u8; 32])
        ensures
            public_key@ == self.public_key_bytes(),
            public_key@ == public_key_of(self.seed_bytes()),
    {
        proof {
            use_type_invariant(self);
        }
        &self.public_key
    }

    /// The verifying key as lowercase hexadecimal text.
    pub fn get_public_key_hex(&self) -> (text: String)
        ensures
            text@ == hex_lower(self.public_key_bytes()),
    {
        encode(self.public_key.as_slice())
    }

    /// The wallet's address.
    pub fn get_address(&self) -> (text: String)
        ensures
            text@ == self.address(),
    {
        self.get_public_key_hex()
    }

    /// A transaction from this wallet to `receiver`, created at the time
    /// `now` in seconds.
    pub fn create_transaction_at(&self, receiver: String, amount: u64, now: i64) -> (transaction:
        Transaction)
        ensures
            transaction@ == (TransactionView {
                sender: self.address(),
                receiver: receiver@,
                amount: amount as nat,
                timestamp: timestamp_word(now as int),
            }),
    {
        Transaction {
            sender: self.get_address(),
            receiver,
            amount,
            timestamp: timestamp_word_of(now),
        }
    }

    /// A transaction from this wallet to `receiver`, created now.
    pub fn create_transaction(&self, receiver: String, amount: u64) -> (transaction: Transaction)
        ensures
            transaction@.sender == self.address(),
            transaction@.receiver == receiver@,
            transaction@.amount == amount,
    {
        let now = unix_time();
        self.create_transaction_at(receiver, amount, now)
    }

    /// Signs the canonical encoding of `transaction` with this wallet's
    /// key. The result carries a copy of the transaction, the signature and
    /// this wallet's verifying key, and it verifies.
    pub fn sign_transaction(&self, transaction: &Transaction) -> (signed: SignedTransaction)
        ensures
            signed@ == signed_with(self.seed_bytes(), transaction@),
            authentic(signed@),
    {
        proof {
            use_type_invariant(self);
        }
        let data = transaction.canonical_json();
        let signature = sign(&self.seed, data.as_str().as_bytes());
        proof {
            lemma_decode_encode(signature@);
            lemma_decode_encode(self.public_key@);
        }
        SignedTransaction {
            transaction: transaction.clone(),
            signature: encode(signature.as_slice()),
            public_key: self.get_public_key_hex(),
        }
    }

    /// Whether `signed` verifies. Text that does not decode, a key or a
    /// signature of the wrong length, a key that is no curve point and a
    /// signature that does not match all give `false`.
    pub fn verify_transaction(signed: &SignedTransaction) -> (ok: bool)
        ensures
            ok == authentic(signed@),
    {
        let data = signed.transaction.canonical_json();
        let public_key = match public_key_from_hex(signed.public_key.as_str()) {
            Some(bytes) => bytes,
            None => {
                return false;
            },
        };
        let signature = match signature_from_hex(signed.signature.as_str()) {
            Some(bytes) => bytes,
            None => {
                return false;
            },
        };
        verify(&public_key, data.as_str().as_bytes(), &signature)
    }
}

impl Default for Wallet {
    fn default() -> (wallet: Wallet)
        ensures
            wallet.public_key_bytes() == public_key_of(wallet.seed_bytes()),
    {
        Wallet::new()
    }
}

} // verus!
