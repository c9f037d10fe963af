//! Derives searchable index keys (participant addresses, contract kind,
//! deployed-contract address) from the encoded contract payloads of chain
//! transactions, and filters transaction batches by those keys.

pub mod codec;
pub mod extract;
pub mod index;
pub mod kinds;
pub mod model;
pub mod proto;
pub mod transactions;
