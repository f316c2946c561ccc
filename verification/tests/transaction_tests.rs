use powchain::transaction::Transaction;

fn sample_transaction() -> Transaction {
    Transaction::new("Alice".to_string(), "Bob".to_string(), "42".to_string())
}

#[test]
fn test_transaction_new_and_getters() {
    let tx = sample_transaction();
    assert_eq!(tx.get_sender(), "Alice");
    assert_eq!(tx.get_receiver(), "Bob");
    assert_eq!(tx.get_amount(), "42");
}

#[test]
fn test_transaction_to_string_format() {
    let tx = sample_transaction();
    let expected = "Transaction { sender: Alice, receiver: Bob, amount: 42 }";
    assert_eq!(tx.to_string(), expected);
}
