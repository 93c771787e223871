//! Facts about sequences of operations on a vault, stated over the steps
//! that `store_key` and `retrieve_key` ensure.
use crate::cipher::{lemma_decrypt_of_sealed, MAX_PLAINTEXT_LEN};
use crate::state::{
    details, marked_retrieved, retrieve_key_step, store_key_step, VaultError, VaultView,
};
use vstd::prelude::*;
use vstd::utf8::encode_utf8;

verus! {

/// A secret that the cipher accepts, stored under a free identifier, is
/// filed under that identifier, and retrieving it gives the secret back.
pub proof fn lemma_store_then_retrieve(
    v0: VaultView,
    v1: VaultView,
    v2: VaultView,
    height: u64,
    sender: Seq<char>,
    secret: Seq<char>,
    recipient: Seq<char>,
    stored: Result<u64, VaultError>,
    retrieved: Result<Seq<char>, VaultError>,
)
    requires
        !v0.records.contains_key(height),
        encode_utf8(secret).len() <= MAX_PLAINTEXT_LEN,
        store_key_step(v0, v1, height, sender, secret, recipient, stored),
        retrieve_key_step(v1, v2, height, retrieved),
    ensures
        stored == Ok::<u64, VaultError>(height),
        retrieved == Ok::<Seq<char>, VaultError>(secret),
{
    let rec = v1.records[height];
    lemma_decrypt_of_sealed(v0.cipher_key, height, secret, rec.encrypted_data);
}

/// A second store on the same counter tick fails with `AlreadyExists` and
/// leaves the vault, and so the first record, as it was.
pub proof fn lemma_same_tick_collision(
    v0: VaultView,
    v1: VaultView,
    v2: VaultView,
    height: u64,
    sender1: Seq<char>,
    secret1: Seq<char>,
    recipient1: Seq<char>,
    sender2: Seq<char>,
    secret2: Seq<char>,
    recipient2: Seq<char>,
    first: Result<u64, VaultError>,
    second: Result<u64, VaultError>,
)
    requires
        store_key_step(v0, v1, height, sender1, secret1, recipient1, first),
        first is Ok,
        store_key_step(v1, v2, height, sender2, secret2, recipient2, second),
    ensures
        second == Err::<u64, VaultError>(VaultError::AlreadyExists),
        v2 == v1,
        details(v2, height) == details(v1, height),
{
}

/// Retrieving an identifier under which nothing is filed fails with
/// `NotFound` and changes nothing.
pub proof fn lemma_retrieve_unissued(
    v: VaultView,
    post: VaultView,
    key_id: u64,
    r: Result<Seq<char>, VaultError>,
)
    requires
        !v.records.contains_key(key_id),
        retrieve_key_step(v, post, key_id, r),
    ensures
        r == Err::<Seq<char>, VaultError>(VaultError::NotFound),
        post == v,
{
}

/// A freshly stored record shows `retrieved == false`; after a successful
/// retrieval it shows `retrieved == true`.
pub proof fn lemma_retrieved_flag(
    v0: VaultView,
    v1: VaultView,
    v2: VaultView,
    height: u64,
    sender: Seq<char>,
    secret: Seq<char>,
    recipient: Seq<char>,
    retrieved: Result<Seq<char>, VaultError>,
)
    requires
        store_key_step(v0, v1, height, sender, secret, recipient, Ok::<u64, VaultError>(height)),
        retrieve_key_step(v1, v2, height, retrieved),
        retrieved is Ok,
    ensures
        details(v1, height) matches Ok(rec) && !rec.retrieved,
        details(v2, height) matches Ok(rec) && rec.retrieved,
{
}

/// Retrieving again after a successful retrieval gives the same text and
/// leaves the vault as it was, with the record still marked retrieved.
pub proof fn lemma_retrieve_again(
    v1: VaultView,
    v2: VaultView,
    v3: VaultView,
    key_id: u64,
    first: Result<Seq<char>, VaultError>,
    second: Result<Seq<char>, VaultError>,
)
    requires
        retrieve_key_step(v1, v2, key_id, first),
        first is Ok,
        retrieve_key_step(v2, v3, key_id, second),
    ensures
        second == first,
        v3 == v2,
        details(v3, key_id) matches Ok(rec) && rec.retrieved,
{
    let rec = v2.records[key_id];
    assert(marked_retrieved(rec) == rec);
    assert(v2.records.insert(key_id, rec) =~= v2.records);
}

} // verus!
