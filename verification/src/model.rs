//! The plain data the library works on: one contract inside a transaction
//! (a kind tag and an opaque type-tagged payload), a transaction (its
//! contracts, execution status code, and optional receipt), a block, the
//! clock metadata a batch carries, and the derived key collection.

use vstd::prelude::*;

verus! {

/// The type-tagged byte blob of one contract: a type identifier string and
/// the raw encoded bytes of the kind-specific record.
pub struct ContractPayload {
    pub type_url: String,
    pub value: Vec<u8>,
}

/// One operation inside a transaction: its kind tag and its payload.
pub struct Contract {
    pub contract_type: i32,
    pub parameter: Option<ContractPayload>,
}

/// Receipt metadata of an executed transaction; carries the deployed
/// contract's address for contract-creation kinds, empty otherwise.
pub struct ReceiptInfo {
    pub contract_address: Vec<u8>,
}

/// A transaction: its execution status code, its contracts in order, and
/// its optional receipt metadata.
pub struct Transaction {
    pub code: i32,
    pub contracts: Vec<Contract>,
    pub info: Option<ReceiptInfo>,
}

/// Block timestamp and height metadata, opaque to this library and passed
/// through unmodified.
pub struct Clock {
    pub id: String,
    pub number: u64,
    pub timestamp_seconds: i64,
    pub timestamp_nanos: i32,
}

/// A block: its transactions in order.
pub struct Block {
    pub transactions: Vec<Transaction>,
}

/// A batch of transactions with the clock of the block they came from.
pub struct Transactions {
    pub transactions: Vec<Transaction>,
    pub clock: Option<Clock>,
}

/// A deduplicated collection of derived index keys.
pub struct Keys {
    pub keys: Vec<String>,
}

/// The failure surfaced when the query matcher rejects a query expression:
/// the one condition this library reports as a hard error rather than as
/// absent data.
#[derive(Clone, Copy, PartialEq, Eq, Structural, Debug)]
pub struct QueryError;

/// The status code that marks a successfully executed transaction; every
/// other code counts as failed.
pub open spec fn spec_transaction_failed(status: i32) -> bool {
    status != 0
}

/// Whether a status code marks a failed transaction: anything but the single
/// success value.
pub fn transaction_failed(status: i32) -> (r: bool)
    ensures
        r == spec_transaction_failed(status),
{
    status != 0
}

} // verus!
