use tron_index::codec::tron_address_to_base58;
use tron_index::model::{
    Block, Clock, Contract, ContractPayload, QueryError, Transaction, Transactions,
};
use tron_index::transactions::{filtered_transactions, map_transactions};
use tron_index::model::transaction_failed;

fn clock() -> Clock {
    Clock {
        id: "block-1".to_string(),
        number: 1,
        timestamp_seconds: 1_700_000_000,
        timestamp_nanos: 0,
    }
}

fn tx_with_code(code: i32) -> Transaction {
    Transaction {
        code,
        contracts: vec![],
        info: None,
    }
}

fn transfer_tx(owner: &[u8]) -> Transaction {
    let mut value = vec![0x0a, owner.len() as u8];
    value.extend_from_slice(owner);
    Transaction {
        code: 0,
        contracts: vec![Contract {
            contract_type: 1,
            parameter: Some(ContractPayload {
                type_url: "type.googleapis.com/protocol.TransferContract".to_string(),
                value,
            }),
        }],
        info: None,
    }
}

#[test]
fn failed_status_codes() {
    assert!(!transaction_failed(0));
    assert!(transaction_failed(1));
    assert!(transaction_failed(-1));
    assert!(transaction_failed(7));
}

#[test]
fn collect_drops_failed_and_keeps_order() {
    let block = Block {
        transactions: vec![
            tx_with_code(0),
            tx_with_code(1),
            tx_with_code(0),
            tx_with_code(5),
            tx_with_code(0),
        ],
    };
    let batch = map_transactions(clock(), block);
    assert_eq!(batch.transactions.len(), 3);
    assert!(batch.transactions.iter().all(|tx| tx.code == 0));
    let c = batch.clock.expect("clock is attached");
    assert_eq!(c.id, "block-1");
    assert_eq!(c.number, 1);
}

#[test]
fn collect_of_empty_block() {
    let block = Block {
        transactions: vec![],
    };
    let batch = map_transactions(clock(), block);
    assert_eq!(batch.transactions.len(), 0);
    assert!(batch.clock.is_some());
}

#[test]
fn filter_by_from_key_retains_exactly_the_matches() {
    let owner_a = vec![0x41, 1, 1, 1];
    let owner_b = vec![0x41, 2, 2, 2];
    let batch = Transactions {
        transactions: vec![transfer_tx(&owner_a), transfer_tx(&owner_b), transfer_tx(&owner_a)],
        clock: Some(clock()),
    };
    let query = format!("from:{}", tron_address_to_base58(&owner_a));
    let out = filtered_transactions(query, batch).expect("plain term query");
    assert_eq!(out.transactions.len(), 2);
    for tx in &out.transactions {
        let keys = tron_index::index::transaction_keys(tx);
        assert!(keys.contains(&format!("from:{}", tron_address_to_base58(&owner_a))));
    }
    assert!(out.clock.is_some());
}

#[test]
fn filter_by_type_key() {
    let owner = vec![0x41, 1, 1, 1];
    let batch = Transactions {
        transactions: vec![transfer_tx(&owner), tx_with_code(0)],
        clock: None,
    };
    let out =
        filtered_transactions("contract_type:TransferContract".to_string(), batch).unwrap();
    assert_eq!(out.transactions.len(), 1);
    assert_eq!(out.transactions[0].contracts.len(), 1);
}

#[test]
fn filter_with_boolean_query() {
    let owner_a = vec![0x41, 1, 1, 1];
    let owner_b = vec![0x41, 2, 2, 2];
    let batch = Transactions {
        transactions: vec![transfer_tx(&owner_a), transfer_tx(&owner_b)],
        clock: None,
    };
    let query = format!(
        "from:{} || from:{}",
        tron_address_to_base58(&owner_a),
        tron_address_to_base58(&owner_b)
    );
    let out = filtered_transactions(query, batch).unwrap();
    assert_eq!(out.transactions.len(), 2);
}

#[test]
fn filter_rejects_malformed_query() {
    let batch = Transactions {
        transactions: vec![tx_with_code(0)],
        clock: None,
    };
    match filtered_transactions("((".to_string(), batch) {
        Ok(_) => panic!("a malformed query must be rejected"),
        Err(e) => assert_eq!(e, QueryError),
    }
}
