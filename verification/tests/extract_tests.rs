use tron_index::extract::{extract_from_address, extract_to_address};
use tron_index::model::ContractPayload;

/// Encodes one length-delimited record: tag byte, length byte, content.
fn payload_with_field(type_url: &str, field: u8, bytes: &[u8]) -> ContractPayload {
    let mut value = vec![8 * field + 2, bytes.len() as u8];
    value.extend_from_slice(bytes);
    ContractPayload {
        type_url: type_url.to_string(),
        value,
    }
}

fn empty_payload(type_url: &str) -> ContractPayload {
    ContractPayload {
        type_url: type_url.to_string(),
        value: vec![],
    }
}

#[test]
fn extract_shielded_transfer_contract() {
    let owner = vec![7, 7, 7, 7];
    let any = payload_with_field(
        "type.googleapis.com/protocol.ShieldedTransferContract",
        1,
        &owner,
    );
    let result = extract_from_address(51, &any);
    assert_eq!(result, Some(owner));
}

#[test]
fn extract_custom_contract_none() {
    let any = empty_payload("type.googleapis.com/protocol.CustomContract");
    let result = extract_from_address(20, &any);
    assert_eq!(result, None);
}

#[test]
fn extract_get_contract_none() {
    let any = empty_payload("type.googleapis.com/protocol.GetContract");
    let result = extract_from_address(32, &any);
    assert_eq!(result, None);
}

#[test]
fn extract_transfer_contract() {
    let owner = vec![1, 2, 3, 4];
    let any = payload_with_field("type.googleapis.com/protocol.TransferContract", 1, &owner);
    let result = extract_from_address(1, &any);
    assert_eq!(result, Some(owner));
}

#[test]
fn extract_to_transfer_contract() {
    let to = vec![9, 8, 7, 6];
    let any = payload_with_field("type.googleapis.com/protocol.TransferContract", 2, &to);
    let result = extract_to_address(1, &any);
    assert_eq!(result, Some(to));
}

#[test]
fn extract_transfer_asset_contract() {
    // The asset transfer schema keeps its owner in the second field.
    let owner = vec![1, 2, 3, 4];
    let any = payload_with_field(
        "type.googleapis.com/protocol.TransferAssetContract",
        2,
        &owner,
    );
    let result = extract_from_address(2, &any);
    assert_eq!(result, Some(owner));
}

#[test]
fn extract_to_freeze_balance_contract() {
    // The freeze schema keeps its counterpart in field 15.
    let to = vec![9, 8, 7, 6];
    let any = payload_with_field(
        "type.googleapis.com/protocol.FreezeBalanceContract",
        15,
        &to,
    );
    let result = extract_to_address(11, &any);
    assert_eq!(result, Some(to));
}

#[test]
fn extract_sender_for_every_kind_with_one() {
    // Every kind that defines a sender field, with that field's number.
    let table: Vec<(i32, u8)> = vec![
        (0, 1),
        (1, 1),
        (2, 2),
        (3, 1),
        (4, 1),
        (5, 1),
        (6, 1),
        (8, 1),
        (9, 1),
        (10, 2),
        (11, 1),
        (12, 1),
        (13, 1),
        (14, 1),
        (15, 1),
        (16, 1),
        (17, 1),
        (18, 1),
        (19, 2),
        (30, 1),
        (31, 1),
        (33, 1),
        (41, 1),
        (42, 1),
        (43, 1),
        (44, 1),
        (45, 1),
        (46, 1),
        (48, 1),
        (49, 1),
        (51, 1),
        (52, 1),
        (53, 1),
        (54, 1),
        (55, 1),
        (56, 1),
        (57, 1),
        (58, 1),
        (59, 1),
    ];
    for (tag, field) in table {
        let owner = vec![1, 2, 3, 4];
        let any = payload_with_field("", field, &owner);
        assert_eq!(
            extract_from_address(tag, &any),
            Some(owner.clone()),
            "sender of kind tag {}",
            tag
        );
    }
}

#[test]
fn extract_receiver_for_every_kind_with_one() {
    // Every kind that defines a receiver field, with that field's number.
    let table: Vec<(i32, u8)> = vec![
        (0, 2),
        (1, 2),
        (2, 3),
        (9, 2),
        (11, 15),
        (12, 15),
        (51, 6),
        (57, 4),
        (58, 4),
    ];
    for (tag, field) in table {
        let to = vec![9, 8, 7, 6];
        let any = payload_with_field("", field, &to);
        assert_eq!(
            extract_to_address(tag, &any),
            Some(to.clone()),
            "receiver of kind tag {}",
            tag
        );
    }
}

#[test]
fn extract_to_delegate_resource_contract() {
    let to = vec![9, 8, 7, 6];
    let any = payload_with_field(
        "type.googleapis.com/protocol.DelegateResourceContract",
        4,
        &to,
    );
    let result = extract_to_address(57, &any);
    assert_eq!(result, Some(to));
}

#[test]
fn extract_to_account_create_contract() {
    let account = vec![5, 5, 5, 5];
    let any = payload_with_field(
        "type.googleapis.com/protocol.AccountCreateContract",
        2,
        &account,
    );
    let result = extract_to_address(0, &any);
    assert_eq!(result, Some(account));
}

#[test]
fn extract_unknown_tag_none() {
    let owner = vec![1, 2, 3, 4];
    let any = payload_with_field("type.googleapis.com/protocol.SomethingElse", 1, &owner);
    assert_eq!(extract_from_address(999, &any), None);
    assert_eq!(extract_to_address(999, &any), None);
}

#[test]
fn extract_no_receiver_field_none() {
    // A vote has a sender but no receiver field, whatever the payload holds.
    let owner = vec![1, 2, 3, 4];
    let any = payload_with_field("type.googleapis.com/protocol.VoteWitnessContract", 1, &owner);
    assert_eq!(extract_from_address(4, &any), Some(owner));
    assert_eq!(extract_to_address(4, &any), None);
}

#[test]
fn extract_malformed_payload_none() {
    // A truncated varint cannot be decoded: absent data, not an error.
    let any = ContractPayload {
        type_url: "type.googleapis.com/protocol.TransferContract".to_string(),
        value: vec![0x0a],
    };
    assert_eq!(extract_from_address(1, &any), None);
}

#[test]
fn extract_wrong_wire_type_none() {
    // The owner field under a varint wire type is not a bytes field.
    let any = ContractPayload {
        type_url: "type.googleapis.com/protocol.TransferContract".to_string(),
        value: vec![0x08, 0x01],
    };
    assert_eq!(extract_from_address(1, &any), None);
}

#[test]
fn extract_empty_payload_is_default() {
    // A well-formed payload that never mentions the field yields the
    // field's schema default: empty address bytes.
    let any = empty_payload("type.googleapis.com/protocol.TransferContract");
    assert_eq!(extract_from_address(1, &any), Some(vec![]));
}

#[test]
fn extract_last_occurrence_wins() {
    let any = ContractPayload {
        type_url: "type.googleapis.com/protocol.TransferContract".to_string(),
        value: vec![0x0a, 2, 1, 1, 0x0a, 2, 9, 9],
    };
    assert_eq!(extract_from_address(1, &any), Some(vec![9, 9]));
}

#[test]
fn extract_skips_other_fields() {
    // amount (field 3, varint) beside the owner record.
    let any = ContractPayload {
        type_url: "type.googleapis.com/protocol.TransferContract".to_string(),
        value: vec![0x18, 0x80, 0x08, 0x0a, 2, 4, 2],
    };
    assert_eq!(extract_from_address(1, &any), Some(vec![4, 2]));
}
