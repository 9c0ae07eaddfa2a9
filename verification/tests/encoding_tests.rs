use ledger_core::transaction::{canonical_json_list, Transaction};

fn transfer(sender: &str, receiver: &str, amount: u64, timestamp: u64) -> Transaction {
    Transaction { sender: sender.to_string(), receiver: receiver.to_string(), amount, timestamp }
}

#[test]
fn transaction_encodes_fields_in_declared_order() {
    assert_eq!(
        transfer("A", "B", 10, 0).canonical_json(),
        "{\"sender\":\"A\",\"receiver\":\"B\",\"amount\":10,\"timestamp\":0}"
    );
    assert_eq!(
        transfer("", "", u64::MAX, u64::MAX).canonical_json(),
        "{\"sender\":\"\",\"receiver\":\"\",\"amount\":18446744073709551615,\
         \"timestamp\":18446744073709551615}"
    );
}

#[test]
fn strings_are_minimally_escaped() {
    let transaction = transfer("a\"b\\c\n\t\u{1}\u{7f}é/", "\u{8}\u{c}\r\u{1f} ", 1, 2);
    assert_eq!(
        transaction.canonical_json(),
        "{\"sender\":\"a\\\"b\\\\c\\n\\t\\u0001\u{7f}é/\",\
         \"receiver\":\"\\b\\f\\r\\u001f \",\"amount\":1,\"timestamp\":2}"
    );
}

#[test]
fn every_low_character_is_escaped_as_the_json_library_does() {
    for code in 0u32..=0x250 {
        let c = char::from_u32(code).unwrap();
        let text = format!("x{}y", c);
        let transaction = transfer(&text, "r", 0, 0);
        let expected = format!(
            "{{\"sender\":{},\"receiver\":\"r\",\"amount\":0,\"timestamp\":0}}",
            serde_json::to_string(&text).unwrap()
        );
        assert_eq!(transaction.canonical_json(), expected);
    }
}

#[test]
fn encoding_agrees_with_a_json_parser() {
    let transaction = transfer("al\"ice\n", "bo\\b\u{3}", 77, 1_700_000_000);
    let parsed: serde_json::Value = serde_json::from_str(&transaction.canonical_json()).unwrap();
    assert_eq!(parsed["sender"].as_str(), Some("al\"ice\n"));
    assert_eq!(parsed["receiver"].as_str(), Some("bo\\b\u{3}"));
    assert_eq!(parsed["amount"].as_u64(), Some(77));
    assert_eq!(parsed["timestamp"].as_u64(), Some(1_700_000_000));
    assert_eq!(parsed.as_object().unwrap().len(), 4);
}

#[test]
fn empty_list_encodes_as_empty_array() {
    assert_eq!(canonical_json_list(&Vec::new()), "[]");
}

#[test]
fn list_encodes_in_order_with_commas() {
    let one = vec![transfer("A", "B", 10, 0)];
    assert_eq!(
        canonical_json_list(&one),
        "[{\"sender\":\"A\",\"receiver\":\"B\",\"amount\":10,\"timestamp\":0}]"
    );
    let three = vec![transfer("A", "B", 1, 2), transfer("C", "D", 3, 4), transfer("E", "F", 5, 6)];
    assert_eq!(
        canonical_json_list(&three),
        "[{\"sender\":\"A\",\"receiver\":\"B\",\"amount\":1,\"timestamp\":2},\
         {\"sender\":\"C\",\"receiver\":\"D\",\"amount\":3,\"timestamp\":4},\
         {\"sender\":\"E\",\"receiver\":\"F\",\"amount\":5,\"timestamp\":6}]"
    );
    let swapped = vec![transfer("C", "D", 3, 4), transfer("A", "B", 1, 2)];
    assert_eq!(
        canonical_json_list(&swapped),
        "[{\"sender\":\"C\",\"receiver\":\"D\",\"amount\":3,\"timestamp\":4},\
         {\"sender\":\"A\",\"receiver\":\"B\",\"amount\":1,\"timestamp\":2}]"
    );
}

#[test]
fn cloned_transaction_has_the_same_fields() {
    let first = transfer("A\"", "B", 10, 3);
    let copy = first.clone();
    assert_eq!(copy.sender, first.sender);
    assert_eq!(copy.receiver, first.receiver);
    assert_eq!(copy.amount, first.amount);
    assert_eq!(copy.timestamp, first.timestamp);
    assert_eq!(copy.canonical_json(), first.canonical_json());
}
