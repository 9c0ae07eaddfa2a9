//! Transactions and their canonical encoding: the one byte-exact JSON text
//! that both block hashes and signatures are computed over.

use crate::hexcode::hex_chars;
use crate::text::{decimal, push_decimal};
use vstd::prelude::*;
use vstd::string::StringExecFns;

verus! {

/// A transfer of `amount` from `sender` to `receiver`, stamped with the time
/// of its creation in seconds.
#[derive(Debug)]
pub struct Transaction {
    pub sender: String,
    pub receiver: String,
    pub amount: u64,
    pub timestamp: u64,
}

/// A transaction together with a signature over its canonical encoding and
/// the public key to check it with, both as hexadecimal text.
#[derive(Debug)]
pub struct SignedTransaction {
    pub transaction: Transaction,
    pub signature: String,
    pub public_key: String,
}

/// The mathematical content of a [`Transaction`].
pub struct TransactionView {
    pub sender: Seq<char>,
    pub receiver: Seq<char>,
    pub amount: nat,
    pub timestamp: nat,
}

/// The mathematical content of a [`SignedTransaction`].
pub struct SignedTransactionView {
    pub transaction: TransactionView,
    pub signature: Seq<char>,
    pub public_key: Seq<char>,
}

impl View for Transaction {
    type V = TransactionView;

    open spec fn view(&self) -> TransactionView {
        TransactionView {
            sender: self.sender@,
            receiver: self.receiver@,
            amount: self.amount as nat,
            timestamp: self.timestamp as nat,
        }
    }
}

impl View for SignedTransaction {
    type V = SignedTransactionView;

    open spec fn view(&self) -> SignedTransactionView {
        SignedTransactionView {
            transaction: self.transaction@,
            signature: self.signature@,
            public_key: self.public_key@,
        }
    }
}

impl Clone for Transaction {
    fn clone(&self) -> (copy: Self)
        ensures
            copy@ == self@,
    {
        Transaction {
            sender: self.sender.clone(),
            receiver: self.receiver.clone(),
            amount: self.amount,
            timestamp: self.timestamp,
        }
    }
}

impl Clone for SignedTransaction {
    fn clone(&self) -> (copy: Self)
        ensures
            copy@ == self@,
    {
        SignedTransaction {
            transaction: self.transaction.clone(),
            signature: self.signature.clone(),
            public_key: self.public_key.clone(),
        }
    }
}

/// The views of a sequence of transactions, in order.
pub open spec fn transaction_views(transactions: Seq<Transaction>) -> Seq<TransactionView> {
    transactions.map_values(|t: Transaction| t@)
}

/// What one character of a string becomes inside a JSON string literal: the
/// quote and the backslash get a backslash in front, the control characters
/// below U+0020 their short escape or `\u00` and two lowercase hexadecimal
/// digits, and every other character stands for itself.
pub open spec fn escaped_char(c: char) -> Seq<char> {
    let code = c as u32 as int;
    if code == 0x22 {
        seq!['\\', '"']
    } else if code == 0x5c {
        seq!['\\', '\\']
    } else if code == 0x08 {
        seq!['\\', 'b']
    } else if code == 0x09 {
        seq!['\\', 't']
    } else if code == 0x0a {
        seq!['\\', 'n']
    } else if code == 0x0c {
        seq!['\\', 'f']
    } else if code == 0x0d {
        seq!['\\', 'r']
    } else if code < 0x20 {
        seq!['\\', 'u', '0', '0', hex_chars()[code / 16], hex_chars()[code % 16]]
    } else {
        seq![c]
    }
}

/// The JSON string literal for `text`: its characters, each escaped as
/// [`escaped_char`] says, between two quotes.
pub open spec fn json_string(text: Seq<char>) -> Seq<char> {
    seq!['"'] + text.map_values(|c: char| escaped_char(c)).flatten() + seq!['"']
}

/// The canonical encoding of one transaction: a JSON object with the four
/// fields in their declared order and no whitespace.
pub open spec fn transaction_json(t: TransactionView) -> Seq<char> {
    "{\"sender\":"@ + json_string(t.sender) + ",\"receiver\":"@ + json_string(t.receiver)
        + ",\"amount\":"@ + decimal(t.amount) + ",\"timestamp\":"@ + decimal(t.timestamp) + "}"@
}

/// The encodings of the transactions in order, with a comma between each
/// two.
pub open spec fn comma_separated(transactions: Seq<TransactionView>) -> Seq<char>
    decreases transactions.len(),
{
    if transactions.len() == 0 {
        Seq::empty()
    } else if transactions.len() == 1 {
        transaction_json(transactions[0])
    } else {
        comma_separated(transactions.drop_last()) + ","@ + transaction_json(transactions.last())
    }
}

/// The canonical encoding of a transaction sequence: a JSON array of the
/// transactions' encodings in order, with no whitespace.
pub open spec fn transactions_json(transactions: Seq<TransactionView>) -> Seq<char> {
    "["@ + comma_separated(transactions) + "]"@
}

/// `serde_json::to_string` on a string slice: the JSON string literal for
/// it. The serializer writes a quote, the text with `"`, `\` and the bytes
/// below 0x20 replaced by their escapes, and a quote; writing to a string
/// cannot fail, so the error arm is never taken.
#[verifier::external_body]
pub(crate) fn quote(text: &str) -> (literal: String)
    ensures
        literal@ == json_string(text@),
{
    serde_json::to_string(text).unwrap_or_default()
}

impl Transaction {
    /// The canonical encoding of this transaction.
    pub fn canonical_json(&self) -> (json: String)
        ensures
            json@ == transaction_json(self@),
    {
        let mut json = String::from_str("{\"sender\":");
        json.append(quote(self.sender.as_str()).as_str());
        json.append(",\"receiver\":");
        json.append(quote(self.receiver.as_str()).as_str());
        json.append(",\"amount\":");
        push_decimal(&mut json, self.amount);
        json.append(",\"timestamp\":");
        push_decimal(&mut json, self.timestamp);
        json.append("}");
        json
    }
}

/// The canonical encoding of a transaction sequence.
pub fn canonical_json_list(transactions: &Vec<Transaction>) -> (json: String)
    ensures
        json@ == transactions_json(transaction_views(transactions@)),
{
    let ghost views = transaction_views(transactions@);
    let mut json = String::from_str("[");
    let mut i: usize = 0;
    while i < transactions.len()
        invariant
            i <= transactions.len(),
            views == transaction_views(transactions@),
            json@ == "["@ + comma_separated(views.take(i as int)),
        decreases transactions.len() - i,
    {
        if i > 0 {
            json.append(",");
        }
        json.append(transactions[i].canonical_json().as_str());
        proof {
            let next = views.take(i + 1);
            assert(next.drop_last() == views.take(i as int));
        }
        i += 1;
    }
    proof {
        assert(views.take(i as int) == views);
    }
    json.append("]");
    json
}

} // verus!
