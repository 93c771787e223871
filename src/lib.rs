//! An escrow of encrypted secrets: a secret is stored sealed under an
//! authenticated cipher, filed under a numeric identifier, and can later be
//! retrieved, which marks the record as consumed.

pub mod cipher;
pub mod text;
pub mod state;
pub mod lifecycle;
pub mod msg;
pub mod contract;
