//! The messages that the three entry operations take.
use vstd::prelude::*;

verus! {

/// A stored secret as listed for its owner.
#[derive(Debug, Clone)]
pub struct DataEntry {
    pub key_id: u64,
    pub owner: String,
    pub encrypted_data: Vec<u8>,
}

/// Sets up a deployment.
#[derive(Debug, Clone)]
pub struct InstantiateMsg {
    pub broadcast: String,
}

/// The operations that change the vault.
#[derive(Debug, Clone)]
pub enum ExecuteMsg {
    /// Seals and files `key` for `recipient`.
    StoreKey { key: String, recipient: String },
    /// Decrypts the secret filed under the identifier `key`.
    RetrieveKey { key: u64 },
}

/// The read-only operations.
#[derive(Debug, Clone)]
pub enum QueryMsg {
    /// The details of the record filed under the identifier `key`.
    GetKeyDetails { key: u64 },
}

} // verus!
