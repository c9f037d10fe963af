//! The closed enumeration of contract kinds, their stable numeric tags,
//! their canonical names, and the per-kind table naming which payload field
//! holds the sending and the receiving address, when the kind defines one.
//!
//! Most kinds carry the sender in their `owner_address` field; the shielded
//! transfer kind uses its transparent sender field instead, and the receiver
//! side varies: a plain `to_address`, a `receiver_address` for the
//! delegation and freeze kinds, or the created account's address. Kinds with
//! no counterparty map to no field at all — a deliberate table entry, not an
//! omission. Tags outside the enumeration degrade to an unknown kind rather
//! than fail.

use vstd::prelude::*;

verus! {

/// The operation type of one contract inside a transaction.
#[derive(Clone, Copy, PartialEq, Eq, Structural, Debug)]
pub enum ContractKind {
    AccountCreate,
    Transfer,
    TransferAsset,
    VoteAsset,
    VoteWitness,
    WitnessCreate,
    AssetIssue,
    WitnessUpdate,
    ParticipateAssetIssue,
    AccountUpdate,
    FreezeBalance,
    UnfreezeBalance,
    WithdrawBalance,
    UnfreezeAsset,
    UpdateAsset,
    ProposalCreate,
    ProposalApprove,
    ProposalDelete,
    SetAccountId,
    Custom,
    CreateSmart,
    TriggerSmart,
    Get,
    UpdateSetting,
    ExchangeCreate,
    ExchangeInject,
    ExchangeWithdraw,
    ExchangeTransaction,
    UpdateEnergyLimit,
    AccountPermissionUpdate,
    ClearAbi,
    UpdateBrokerage,
    ShieldedTransfer,
    MarketSellAsset,
    MarketCancelOrder,
    FreezeBalanceV2,
    UnfreezeBalanceV2,
    WithdrawExpireUnfreeze,
    DelegateResource,
    UnDelegateResource,
    CancelAllUnfreezeV2,
}

/// The kind a numeric tag stands for; tags outside the enumeration have
/// none.
pub open spec fn spec_kind_from_tag(tag: i32) -> Option<ContractKind> {
    if tag == 0 {
        Some(ContractKind::AccountCreate)
    } else if tag == 1 {
        Some(ContractKind::Transfer)
    } else if tag == 2 {
        Some(ContractKind::TransferAsset)
    } else if tag == 3 {
        Some(ContractKind::VoteAsset)
    } else if tag == 4 {
        Some(ContractKind::VoteWitness)
    } else if tag == 5 {
        Some(ContractKind::WitnessCreate)
    } else if tag == 6 {
        Some(ContractKind::AssetIssue)
    } else if tag == 8 {
        Some(ContractKind::WitnessUpdate)
    } else if tag == 9 {
        Some(ContractKind::ParticipateAssetIssue)
    } else if tag == 10 {
        Some(ContractKind::AccountUpdate)
    } else if tag == 11 {
        Some(ContractKind::FreezeBalance)
    } else if tag == 12 {
        Some(ContractKind::UnfreezeBalance)
    } else if tag == 13 {
        Some(ContractKind::WithdrawBalance)
    } else if tag == 14 {
        Some(ContractKind::UnfreezeAsset)
    } else if tag == 15 {
        Some(ContractKind::UpdateAsset)
    } else if tag == 16 {
        Some(ContractKind::ProposalCreate)
    } else if tag == 17 {
        Some(ContractKind::ProposalApprove)
    } else if tag == 18 {
        Some(ContractKind::ProposalDelete)
    } else if tag == 19 {
        Some(ContractKind::SetAccountId)
    } else if tag == 20 {
        Some(ContractKind::Custom)
    } else if tag == 30 {
        Some(ContractKind::CreateSmart)
    } else if tag == 31 {
        Some(ContractKind::TriggerSmart)
    } else if tag == 32 {
        Some(ContractKind::Get)
    } else if tag == 33 {
        Some(ContractKind::UpdateSetting)
    } else if tag == 41 {
        Some(ContractKind::ExchangeCreate)
    } else if tag == 42 {
        Some(ContractKind::ExchangeInject)
    } else if tag == 43 {
        Some(ContractKind::ExchangeWithdraw)
    } else if tag == 44 {
        Some(ContractKind::ExchangeTransaction)
    } else if tag == 45 {
        Some(ContractKind::UpdateEnergyLimit)
    } else if tag == 46 {
        Some(ContractKind::AccountPermissionUpdate)
    } else if tag == 48 {
        Some(ContractKind::ClearAbi)
    } else if tag == 49 {
        Some(ContractKind::UpdateBrokerage)
    } else if tag == 51 {
        Some(ContractKind::ShieldedTransfer)
    } else if tag == 52 {
        Some(ContractKind::MarketSellAsset)
    } else if tag == 53 {
        Some(ContractKind::MarketCancelOrder)
    } else if tag == 54 {
        Some(ContractKind::FreezeBalanceV2)
    } else if tag == 55 {
        Some(ContractKind::UnfreezeBalanceV2)
    } else if tag == 56 {
        Some(ContractKind::WithdrawExpireUnfreeze)
    } else if tag == 57 {
        Some(ContractKind::DelegateResource)
    } else if tag == 58 {
        Some(ContractKind::UnDelegateResource)
    } else if tag == 59 {
        Some(ContractKind::CancelAllUnfreezeV2)
    } else {
        None
    }
}

/// Resolves a numeric tag to its kind.
pub fn kind_from_tag(tag: i32) -> (r: Option<ContractKind>)
    ensures
        r == spec_kind_from_tag(tag),
{
    match tag {
        0 => Some(ContractKind::AccountCreate),
        1 => Some(ContractKind::Transfer),
        2 => Some(ContractKind::TransferAsset),
        3 => Some(ContractKind::VoteAsset),
        4 => Some(ContractKind::VoteWitness),
        5 => Some(ContractKind::WitnessCreate),
        6 => Some(ContractKind::AssetIssue),
        8 => Some(ContractKind::WitnessUpdate),
        9 => Some(ContractKind::ParticipateAssetIssue),
        10 => Some(ContractKind::AccountUpdate),
        11 => Some(ContractKind::FreezeBalance),
        12 => Some(ContractKind::UnfreezeBalance),
        13 => Some(ContractKind::WithdrawBalance),
        14 => Some(ContractKind::UnfreezeAsset),
        15 => Some(ContractKind::UpdateAsset),
        16 => Some(ContractKind::ProposalCreate),
        17 => Some(ContractKind::ProposalApprove),
        18 => Some(ContractKind::ProposalDelete),
        19 => Some(ContractKind::SetAccountId),
        20 => Some(ContractKind::Custom),
        30 => Some(ContractKind::CreateSmart),
        31 => Some(ContractKind::TriggerSmart),
        32 => Some(ContractKind::Get),
        33 => Some(ContractKind::UpdateSetting),
        41 => Some(ContractKind::ExchangeCreate),
        42 => Some(ContractKind::ExchangeInject),
        43 => Some(ContractKind::ExchangeWithdraw),
        44 => Some(ContractKind::ExchangeTransaction),
        45 => Some(ContractKind::UpdateEnergyLimit),
        46 => Some(ContractKind::AccountPermissionUpdate),
        48 => Some(ContractKind::ClearAbi),
        49 => Some(ContractKind::UpdateBrokerage),
        51 => Some(ContractKind::ShieldedTransfer),
        52 => Some(ContractKind::MarketSellAsset),
        53 => Some(ContractKind::MarketCancelOrder),
        54 => Some(ContractKind::FreezeBalanceV2),
        55 => Some(ContractKind::UnfreezeBalanceV2),
        56 => Some(ContractKind::WithdrawExpireUnfreeze),
        57 => Some(ContractKind::DelegateResource),
        58 => Some(ContractKind::UnDelegateResource),
        59 => Some(ContractKind::CancelAllUnfreezeV2),
        _ => None,
    }
}

/// The canonical textual name of a kind, as the chain's schema spells it.
pub open spec fn spec_kind_name(k: ContractKind) -> Seq<char> {
    match k {
        ContractKind::AccountCreate => "AccountCreateContract"@,
        ContractKind::Transfer => "TransferContract"@,
        ContractKind::TransferAsset => "TransferAssetContract"@,
        ContractKind::VoteAsset => "VoteAssetContract"@,
        ContractKind::VoteWitness => "VoteWitnessContract"@,
        ContractKind::WitnessCreate => "WitnessCreateContract"@,
        ContractKind::AssetIssue => "AssetIssueContract"@,
        ContractKind::WitnessUpdate => "WitnessUpdateContract"@,
        ContractKind::ParticipateAssetIssue => "ParticipateAssetIssueContract"@,
        ContractKind::AccountUpdate => "AccountUpdateContract"@,
        ContractKind::FreezeBalance => "FreezeBalanceContract"@,
        ContractKind::UnfreezeBalance => "UnfreezeBalanceContract"@,
        ContractKind::WithdrawBalance => "WithdrawBalanceContract"@,
        ContractKind::UnfreezeAsset => "UnfreezeAssetContract"@,
        ContractKind::UpdateAsset => "UpdateAssetContract"@,
        ContractKind::ProposalCreate => "ProposalCreateContract"@,
        ContractKind::ProposalApprove => "ProposalApproveContract"@,
        ContractKind::ProposalDelete => "ProposalDeleteContract"@,
        ContractKind::SetAccountId => "SetAccountIdContract"@,
        ContractKind::Custom => "CustomContract"@,
        ContractKind::CreateSmart => "CreateSmartContract"@,
        ContractKind::TriggerSmart => "TriggerSmartContract"@,
        ContractKind::Get => "GetContract"@,
        ContractKind::UpdateSetting => "UpdateSettingContract"@,
        ContractKind::ExchangeCreate => "ExchangeCreateContract"@,
        ContractKind::ExchangeInject => "ExchangeInjectContract"@,
        ContractKind::ExchangeWithdraw => "ExchangeWithdrawContract"@,
        ContractKind::ExchangeTransaction => "ExchangeTransactionContract"@,
        ContractKind::UpdateEnergyLimit => "UpdateEnergyLimitContract"@,
        ContractKind::AccountPermissionUpdate => "AccountPermissionUpdateContract"@,
        ContractKind::ClearAbi => "ClearABIContract"@,
        ContractKind::UpdateBrokerage => "UpdateBrokerageContract"@,
        ContractKind::ShieldedTransfer => "ShieldedTransferContract"@,
        ContractKind::MarketSellAsset => "MarketSellAssetContract"@,
        ContractKind::MarketCancelOrder => "MarketCancelOrderContract"@,
        ContractKind::FreezeBalanceV2 => "FreezeBalanceV2Contract"@,
        ContractKind::UnfreezeBalanceV2 => "UnfreezeBalanceV2Contract"@,
        ContractKind::WithdrawExpireUnfreeze => "WithdrawExpireUnfreezeContract"@,
        ContractKind::DelegateResource => "DelegateResourceContract"@,
        ContractKind::UnDelegateResource => "UnDelegateResourceContract"@,
        ContractKind::CancelAllUnfreezeV2 => "CancelAllUnfreezeV2Contract"@,
    }
}

/// The canonical textual name of a kind.
pub fn kind_name(k: ContractKind) -> (r: &'static str)
    ensures
        r@ == spec_kind_name(k),
{
    match k {
        ContractKind::AccountCreate => "AccountCreateContract",
        ContractKind::Transfer => "TransferContract",
        ContractKind::TransferAsset => "TransferAssetContract",
        ContractKind::VoteAsset => "VoteAssetContract",
        ContractKind::VoteWitness => "VoteWitnessContract",
        ContractKind::WitnessCreate => "WitnessCreateContract",
        ContractKind::AssetIssue => "AssetIssueContract",
        ContractKind::WitnessUpdate => "WitnessUpdateContract",
        ContractKind::ParticipateAssetIssue => "ParticipateAssetIssueContract",
        ContractKind::AccountUpdate => "AccountUpdateContract",
        ContractKind::FreezeBalance => "FreezeBalanceContract",
        ContractKind::UnfreezeBalance => "UnfreezeBalanceContract",
        ContractKind::WithdrawBalance => "WithdrawBalanceContract",
        ContractKind::UnfreezeAsset => "UnfreezeAssetContract",
        ContractKind::UpdateAsset => "UpdateAssetContract",
        ContractKind::ProposalCreate => "ProposalCreateContract",
        ContractKind::ProposalApprove => "ProposalApproveContract",
        ContractKind::ProposalDelete => "ProposalDeleteContract",
        ContractKind::SetAccountId => "SetAccountIdContract",
        ContractKind::Custom => "CustomContract",
        ContractKind::CreateSmart => "CreateSmartContract",
        ContractKind::TriggerSmart => "TriggerSmartContract",
        ContractKind::Get => "GetContract",
        ContractKind::UpdateSetting => "UpdateSettingContract",
        ContractKind::ExchangeCreate => "ExchangeCreateContract",
        ContractKind::ExchangeInject => "ExchangeInjectContract",
        ContractKind::ExchangeWithdraw => "ExchangeWithdrawContract",
        ContractKind::ExchangeTransaction => "ExchangeTransactionContract",
        ContractKind::UpdateEnergyLimit => "UpdateEnergyLimitContract",
        ContractKind::AccountPermissionUpdate => "AccountPermissionUpdateContract",
        ContractKind::ClearAbi => "ClearABIContract",
        ContractKind::UpdateBrokerage => "UpdateBrokerageContract",
        ContractKind::ShieldedTransfer => "ShieldedTransferContract",
        ContractKind::MarketSellAsset => "MarketSellAssetContract",
        ContractKind::MarketCancelOrder => "MarketCancelOrderContract",
        ContractKind::FreezeBalanceV2 => "FreezeBalanceV2Contract",
        ContractKind::UnfreezeBalanceV2 => "UnfreezeBalanceV2Contract",
        ContractKind::WithdrawExpireUnfreeze => "WithdrawExpireUnfreezeContract",
        ContractKind::DelegateResource => "DelegateResourceContract",
        ContractKind::UnDelegateResource => "UnDelegateResourceContract",
        ContractKind::CancelAllUnfreezeV2 => "CancelAllUnfreezeV2Contract",
    }
}

/// The payload field holding the sending address of a kind, if it defines
/// one. Most kinds keep it in their first, `owner_address` field; a few
/// schemas put another field first, and the shielded transfer kind uses its
/// transparent sender field. The custom and generic invocation kinds define
/// none.
pub open spec fn spec_sender_field(k: ContractKind) -> Option<u64> {
    match k {
        ContractKind::TransferAsset => Some(2u64),
        ContractKind::AccountUpdate => Some(2u64),
        ContractKind::SetAccountId => Some(2u64),
        ContractKind::Custom => None,
        ContractKind::Get => None,
        _ => Some(1u64),
    }
}

/// The sending-address field of a kind, as `spec_sender_field` lists it.
pub fn sender_field(k: ContractKind) -> (r: Option<u64>)
    ensures
        r == spec_sender_field(k),
{
    match k {
        ContractKind::TransferAsset => Some(2u64),
        ContractKind::AccountUpdate => Some(2u64),
        ContractKind::SetAccountId => Some(2u64),
        ContractKind::Custom => None,
        ContractKind::Get => None,
        _ => Some(1u64),
    }
}

/// The payload field holding the receiving address of a kind, if it defines
/// one: the plain `to_address` of the transfer kinds, the counterpart
/// `receiver_address` of the delegation and freeze kinds, the transparent
/// receiver of the shielded transfer, or the created account's address. All
/// other kinds define none.
pub open spec fn spec_receiver_field(k: ContractKind) -> Option<u64> {
    match k {
        ContractKind::Transfer => Some(2u64),
        ContractKind::TransferAsset => Some(3u64),
        ContractKind::ParticipateAssetIssue => Some(2u64),
        ContractKind::UnDelegateResource => Some(4u64),
        ContractKind::DelegateResource => Some(4u64),
        ContractKind::UnfreezeBalance => Some(15u64),
        ContractKind::FreezeBalance => Some(15u64),
        ContractKind::ShieldedTransfer => Some(6u64),
        ContractKind::AccountCreate => Some(2u64),
        _ => None,
    }
}

/// The receiving-address field of a kind, as `spec_receiver_field` lists it.
pub fn receiver_field(k: ContractKind) -> (r: Option<u64>)
    ensures
        r == spec_receiver_field(k),
{
    match k {
        ContractKind::Transfer => Some(2u64),
        ContractKind::TransferAsset => Some(3u64),
        ContractKind::ParticipateAssetIssue => Some(2u64),
        ContractKind::UnDelegateResource => Some(4u64),
        ContractKind::DelegateResource => Some(4u64),
        ContractKind::UnfreezeBalance => Some(15u64),
        ContractKind::FreezeBalance => Some(15u64),
        ContractKind::ShieldedTransfer => Some(6u64),
        ContractKind::AccountCreate => Some(2u64),
        _ => None,
    }
}

/// Every sender or receiver field the table names is a small, positive
/// field number (it fits one tag byte on the wire).
pub proof fn lemma_fields_small(k: ContractKind)
    ensures
        spec_sender_field(k) matches Some(f) ==> 1 <= f <= 15,
        spec_receiver_field(k) matches Some(f) ==> 1 <= f <= 15,
{
}

} // verus!
