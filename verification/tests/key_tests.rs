use powchain::keys::{
    generate_keypair, hash_transaction, sign_transaction, verify_transaction_signature,
};
use powchain::transaction::Transaction;

fn mock_transaction() -> Transaction {
    Transaction::new("Alice".to_string(), "Bob".to_string(), "100".to_string())
}

#[test]
fn test_generate_keypair_validity() {
    let (_secret_key, public_key) = generate_keypair();

    assert_eq!(public_key.len(), 33);
}

#[test]
fn test_sign_and_verify_transaction_success() {
    let tx = mock_transaction();
    let (secret_key, public_key) = generate_keypair();
    let signature = sign_transaction(&tx, &secret_key).expect("a generated key is valid");

    let is_valid = verify_transaction_signature(&tx, &signature, &public_key);
    assert!(is_valid);
}

#[test]
fn test_verify_transaction_signature_failure_wrong_key() {
    let tx = mock_transaction();
    let (secret_key1, _) = generate_keypair();
    let (_, public_key2) = generate_keypair(); // Wrong key

    let signature = sign_transaction(&tx, &secret_key1).expect("a generated key is valid");
    let is_valid = verify_transaction_signature(&tx, &signature, &public_key2);

    assert!(!is_valid);
}

#[test]
fn test_verify_transaction_signature_failure_modified_transaction() {
    let original_tx = mock_transaction();
    let modified_tx =
        Transaction::new("Alice".to_string(), "Charlie".to_string(), "100".to_string());
    let (secret_key, public_key) = generate_keypair();

    let signature = sign_transaction(&original_tx, &secret_key).expect("a generated key is valid");
    let is_valid = verify_transaction_signature(&modified_tx, &signature, &public_key);

    assert!(!is_valid);
}

#[test]
fn test_hash_transaction_length() {
    let tx = mock_transaction();
    let hash = hash_transaction(&tx);
    assert_eq!(hash.len(), 32); // SHA-256 = 32 bytes
}
