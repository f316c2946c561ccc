use powchain::block::Block;
use powchain::blockchain::Blockchain;
use powchain::transaction::Transaction;

fn mock_transaction(id: u64) -> Transaction {
    Transaction::new(format!("from{id}"), format!("to{id}"), format!("{}", id * 10))
}

#[test]
fn test_genesis_block_creation() {
    let blockchain = Blockchain::new(2);
    let genesis_block = &blockchain.chain[0];

    assert_eq!(genesis_block.get_previous_hash(), "0");
    assert_eq!(genesis_block.get_hash(), "0");
    assert_eq!(genesis_block.tx.len(), 0);
    assert_eq!(genesis_block.index, 0);
}

#[test]
fn test_add_transaction() {
    let mut blockchain = Blockchain::new(2);
    let tx = mock_transaction(1);

    blockchain.add_transaction(tx.clone());

    assert_eq!(blockchain.mempool.len(), 1);
    assert_eq!(blockchain.mempool[0].to_string(), tx.to_string());
}

#[test]
fn test_add_block() {
    let mut blockchain = Blockchain::new(1);
    let block = Block::new(
        1,
        "abc".to_string(),
        "2025-05-31T00:00:00Z".to_string(),
        vec![],
        0,
        "xyz".to_string(),
    );
    blockchain.add_block(block.clone());

    assert_eq!(blockchain.chain.len(), 2);
    assert_eq!(blockchain.chain[1].get_hash(), &"xyz".to_string());
}

#[test]
fn test_mine_block_with_transactions() {
    let mut blockchain = Blockchain::new(2); // Low difficulty for test
    blockchain.add_transaction(mock_transaction(1));
    blockchain.add_transaction(mock_transaction(2));

    let mined_hash = blockchain.mine_block();

    assert!(mined_hash.starts_with("00"));
    assert_eq!(blockchain.chain.len(), 2); // One block mined after genesis
    assert_eq!(blockchain.mempool.len(), 0); // Mempool should be cleared
}

#[test]
fn test_mine_block_without_transactions() {
    let mut blockchain = Blockchain::new(2);
    let result = blockchain.mine_block();

    assert_eq!(result, "No transactions to mine.");
    assert_eq!(blockchain.chain.len(), 1); // No block mined
}

#[test]
fn test_hash_block_respects_difficulty() {
    let blockchain = Blockchain::new(2);
    let block = blockchain
        .hash_block(
            1,
            "000".to_string(),
            "2025-05-31T12:00:00Z".to_string(),
            vec![mock_transaction(1)],
        )
        .expect("the search finds a nonce");

    assert!(block.get_hash().starts_with("00"));
}

#[test]
fn test_calculate_hash_is_deterministic() {
    let blockchain = Blockchain::new(1);
    let txs = vec![mock_transaction(1)];
    let timestamp = "2025-05-31T12:00:00Z".to_string();
    let hash1 = blockchain.calculate_hash(1, "prevhash", timestamp.clone(), &txs, 42);
    let hash2 = blockchain.calculate_hash(1, "prevhash", timestamp, &txs, 42);

    assert_eq!(hash1, hash2);
}

#[test]
fn test_chain_integrity() {
    let mut blockchain = Blockchain::new(1);
    blockchain.add_transaction(mock_transaction(1));
    blockchain.mine_block();
    blockchain.add_transaction(mock_transaction(2));
    blockchain.mine_block();

    assert_eq!(blockchain.get_chain().len(), 3);
    for i in 0..blockchain.get_chain().len() {
        assert_eq!(blockchain.get_blocks()[i].index, i as u64);
    }
}
