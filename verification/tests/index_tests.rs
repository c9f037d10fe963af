use tron_index::codec::tron_address_to_base58;
use tron_index::index::{index_transactions, transaction_keys};
use tron_index::model::{Contract, ContractPayload, ReceiptInfo, Transaction, Transactions};

fn transfer_payload(owner: &[u8], to: &[u8]) -> ContractPayload {
    let mut value = vec![0x0a, owner.len() as u8];
    value.extend_from_slice(owner);
    value.push(0x12);
    value.push(to.len() as u8);
    value.extend_from_slice(to);
    ContractPayload {
        type_url: "type.googleapis.com/protocol.TransferContract".to_string(),
        value,
    }
}

fn transfer_contract(owner: &[u8], to: &[u8]) -> Contract {
    Contract {
        contract_type: 1,
        parameter: Some(transfer_payload(owner, to)),
    }
}

#[test]
fn keys_of_one_transfer() {
    let owner = vec![0x41, 1, 2, 3];
    let to = vec![0x41, 4, 5, 6];
    let tx = Transaction {
        code: 0,
        contracts: vec![transfer_contract(&owner, &to)],
        info: None,
    };
    let keys = transaction_keys(&tx);
    assert_eq!(
        keys,
        vec![
            "contract_type:TransferContract".to_string(),
            format!("from:{}", tron_address_to_base58(&owner)),
            format!("to:{}", tron_address_to_base58(&to)),
        ]
    );
}

#[test]
fn two_contracts_of_one_kind_give_one_type_key() {
    let owner_a = vec![0x41, 1, 1, 1];
    let owner_b = vec![0x41, 2, 2, 2];
    let to = vec![0x41, 3, 3, 3];
    let tx = Transaction {
        code: 0,
        contracts: vec![
            transfer_contract(&owner_a, &to),
            transfer_contract(&owner_b, &to),
        ],
        info: None,
    };
    let keys = transaction_keys(&tx);
    let type_keys = keys
        .iter()
        .filter(|k| k.as_str() == "contract_type:TransferContract")
        .count();
    assert_eq!(type_keys, 1);
    // The shared `to` key collapses as well; each sender keeps its own key.
    assert_eq!(keys.len(), 4);
    assert!(keys.contains(&format!("from:{}", tron_address_to_base58(&owner_a))));
    assert!(keys.contains(&format!("from:{}", tron_address_to_base58(&owner_b))));
    assert!(keys.contains(&format!("to:{}", tron_address_to_base58(&to))));
}

#[test]
fn unknown_kind_gives_unknown_type_key_only() {
    let tx = Transaction {
        code: 0,
        contracts: vec![Contract {
            contract_type: 999,
            parameter: Some(transfer_payload(&[0x41, 1, 2, 3], &[0x41, 4, 5, 6])),
        }],
        info: None,
    };
    let keys = transaction_keys(&tx);
    assert_eq!(keys, vec!["contract_type:Unknown".to_string()]);
}

#[test]
fn receipt_address_gives_contract_address_key() {
    let deployed = vec![0x41, 9, 9, 9];
    let tx = Transaction {
        code: 0,
        contracts: vec![],
        info: Some(ReceiptInfo {
            contract_address: deployed.clone(),
        }),
    };
    let keys = transaction_keys(&tx);
    assert_eq!(
        keys,
        vec![format!("contract_address:{}", tron_address_to_base58(&deployed))]
    );
}

#[test]
fn empty_receipt_address_gives_no_key() {
    let tx = Transaction {
        code: 0,
        contracts: vec![],
        info: Some(ReceiptInfo {
            contract_address: vec![],
        }),
    };
    assert_eq!(transaction_keys(&tx), Vec::<String>::new());
}

#[test]
fn contract_without_parameter_gives_type_key_only() {
    let tx = Transaction {
        code: 0,
        contracts: vec![Contract {
            contract_type: 1,
            parameter: None,
        }],
        info: None,
    };
    assert_eq!(
        transaction_keys(&tx),
        vec!["contract_type:TransferContract".to_string()]
    );
}

#[test]
fn batch_index_deduplicates_across_transactions() {
    let owner = vec![0x41, 1, 2, 3];
    let to = vec![0x41, 4, 5, 6];
    let tx = Transaction {
        code: 0,
        contracts: vec![transfer_contract(&owner, &to)],
        info: None,
    };
    let other = Transaction {
        code: 0,
        contracts: vec![transfer_contract(&owner, &to)],
        info: None,
    };
    let batch = Transactions {
        transactions: vec![tx, other],
        clock: None,
    };
    let keys = index_transactions(batch);
    assert_eq!(keys.keys.len(), 3);
    assert!(keys
        .keys
        .contains(&"contract_type:TransferContract".to_string()));
    assert!(keys
        .keys
        .contains(&format!("from:{}", tron_address_to_base58(&owner))));
    assert!(keys
        .keys
        .contains(&format!("to:{}", tron_address_to_base58(&to))));
}
