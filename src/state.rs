//! The vault: the singleton configuration and the records filed by
//! identifier, with the lifecycle of a record (stored, then retrieved).
use crate::cipher::{
    decrypt, decrypted, encrypt, nonce_bytes, opened, sealed, CipherError,
    KEY_LEN, MAX_PLAINTEXT_LEN,
};
use std::collections::HashMap;
use vstd::prelude::*;
use vstd::utf8::encode_utf8;

verus! {

broadcast use vstd::std_specs::hash::group_hash_axioms;

/// The deployment's configuration: who set it up, and a message shown with
/// every record's details.
#[derive(Debug, Clone)]
pub struct State {
    pub creator: String,
    pub broadcast: String,
}

pub struct ConfigView {
    pub creator: Seq<char>,
    pub broadcast: Seq<char>,
}

impl View for State {
    type V = ConfigView;

    open spec fn view(&self) -> ConfigView {
        ConfigView { creator: self.creator@, broadcast: self.broadcast@ }
    }
}

/// A stored secret: its ciphertext and what is known about it.
#[derive(Debug, Clone)]
pub struct EncryptedKey {
    pub key_id: u64,
    pub creator: String,
    /// Nanoseconds of the logical clock; records are filed with zero.
    pub timestamp: u64,
    /// Designated at store time; retrieval does not check it.
    pub recipient: String,
    pub retrieved: bool,
    pub encrypted_data: Vec<u8>,
}

pub struct RecordView {
    pub key_id: u64,
    pub creator: Seq<char>,
    pub timestamp: u64,
    pub recipient: Seq<char>,
    pub retrieved: bool,
    pub encrypted_data: Seq<u8>,
}

impl View for EncryptedKey {
    type V = RecordView;

    open spec fn view(&self) -> RecordView {
        RecordView {
            key_id: self.key_id,
            creator: self.creator@,
            timestamp: self.timestamp,
            recipient: self.recipient@,
            retrieved: self.retrieved,
            encrypted_data: self.encrypted_data@,
        }
    }
}

/// Why an operation on the vault failed.
#[derive(Debug, Clone, Copy, PartialEq, Eq, Structural)]
pub enum VaultError {
    /// No record under the identifier, or no configuration yet.
    NotFound,
    /// A record is already filed under the identifier.
    AlreadyExists,
    /// The secret is longer than the cipher accepts.
    SecretTooLong,
    /// The stored ciphertext failed authentication.
    AuthenticationFailure,
    /// The decrypted bytes are not valid UTF-8.
    DecodeFailure,
}

impl VaultError {
    pub open spec fn spec_from_cipher(e: CipherError) -> VaultError {
        match e {
            CipherError::TooLong => VaultError::SecretTooLong,
            CipherError::AuthenticationFailure => VaultError::AuthenticationFailure,
            CipherError::DecodeFailure => VaultError::DecodeFailure,
        }
    }

    /// The vault's error for a cipher failure.
    pub fn from_cipher(e: CipherError) -> (r: VaultError)
        ensures
            r == Self::spec_from_cipher(e),
    {
        match e {
            CipherError::TooLong => VaultError::SecretTooLong,
            CipherError::AuthenticationFailure => VaultError::AuthenticationFailure,
            CipherError::DecodeFailure => VaultError::DecodeFailure,
        }
    }

    pub open spec fn spec_message(self) -> Seq<char> {
        match self {
            VaultError::NotFound => "Not found"@,
            VaultError::AlreadyExists => "Key already exists"@,
            VaultError::SecretTooLong => "Secret is too long to encrypt"@,
            VaultError::AuthenticationFailure => "Decryption failed"@,
            VaultError::DecodeFailure => "Decrypted data is not valid UTF-8"@,
        }
    }

    /// A description of the error for the caller.
    pub fn message(&self) -> (r: String)
        ensures
            r@ == self.spec_message(),
    {
        match self {
            VaultError::NotFound => "Not found".to_owned(),
            VaultError::AlreadyExists => "Key already exists".to_owned(),
            VaultError::SecretTooLong => "Secret is too long to encrypt".to_owned(),
            VaultError::AuthenticationFailure => "Decryption failed".to_owned(),
            VaultError::DecodeFailure => "Decrypted data is not valid UTF-8".to_owned(),
        }
    }
}

/// The storage context of one deployment: the cipher key, the configuration
/// once set, and the records by identifier.
pub struct KeyVault {
    cipher_key: SecretKey,
    config: Option<State>,
    records: HashMap<u64, EncryptedKey>,
}

/// Key material of the length that AES-256 needs.
struct SecretKey {
    bytes: Vec<u8>,
}

impl SecretKey {
    #[verifier::type_invariant]
    spec fn fits(&self) -> bool {
        self.bytes@.len() == KEY_LEN
    }
}

pub struct VaultView {
    pub cipher_key: Seq<u8>,
    pub config: Option<ConfigView>,
    pub records: Map<u64, RecordView>,
}

impl VaultView {
    /// The same vault with `records` in place of its records.
    pub open spec fn with_records(self, records: Map<u64, RecordView>) -> VaultView {
        VaultView { cipher_key: self.cipher_key, config: self.config, records }
    }
}

impl View for KeyVault {
    type V = VaultView;

    closed spec fn view(&self) -> VaultView {
        VaultView {
            cipher_key: self.cipher_key.bytes@,
            config: match self.config {
                Some(s) => Some(s@),
                None => None,
            },
            records: self.records@.map_values(|r: EncryptedKey| r@),
        }
    }
}

/// The record that storing `secret` under `key_id` files.
pub open spec fn stored_record(
    v: VaultView,
    key_id: u64,
    sender: Seq<char>,
    secret: Seq<char>,
    recipient: Seq<char>,
) -> RecordView {
    RecordView {
        key_id,
        creator: sender,
        timestamp: 0,
        recipient,
        retrieved: false,
        encrypted_data: sealed(v.cipher_key, nonce_bytes(key_id), encode_utf8(secret)),
    }
}

/// A store of `secret` at counter `height` turns `pre` into `post` with result `r`.
pub open spec fn store_key_step(
    pre: VaultView,
    post: VaultView,
    height: u64,
    sender: Seq<char>,
    secret: Seq<char>,
    recipient: Seq<char>,
    r: Result<u64, VaultError>,
) -> bool {
    if pre.records.contains_key(height) {
        r == Err::<u64, VaultError>(VaultError::AlreadyExists) && post == pre
    } else if encode_utf8(secret).len() > MAX_PLAINTEXT_LEN {
        r == Err::<u64, VaultError>(VaultError::SecretTooLong) && post == pre
    } else {
        let rec = stored_record(pre, height, sender, secret, recipient);
        &&& r == Ok::<u64, VaultError>(height)
        &&& post == pre.with_records(pre.records.insert(height, rec))
        &&& opened(pre.cipher_key, nonce_bytes(height), rec.encrypted_data) == Some(
            encode_utf8(secret),
        )
    }
}

/// The record `rec` once it has been retrieved.
pub open spec fn marked_retrieved(rec: RecordView) -> RecordView {
    RecordView {
        key_id: rec.key_id,
        creator: rec.creator,
        timestamp: rec.timestamp,
        recipient: rec.recipient,
        retrieved: true,
        encrypted_data: rec.encrypted_data,
    }
}

/// A retrieval of `key_id` turns `pre` into `post` with result `r`.
pub open spec fn retrieve_key_step(
    pre: VaultView,
    post: VaultView,
    key_id: u64,
    r: Result<Seq<char>, VaultError>,
) -> bool {
    if !pre.records.contains_key(key_id) {
        r == Err::<Seq<char>, VaultError>(VaultError::NotFound) && post == pre
    } else {
        let rec = pre.records[key_id];
        match decrypted(pre.cipher_key, key_id, rec.encrypted_data) {
            Ok(text) => r == Ok::<Seq<char>, VaultError>(text) && post == pre.with_records(
                pre.records.insert(key_id, marked_retrieved(rec)),
            ),
            Err(e) => r == Err::<Seq<char>, VaultError>(VaultError::spec_from_cipher(e)) && post
                == pre,
        }
    }
}

/// What inspecting `key_id` shows: the record, or `NotFound`.
pub open spec fn details(v: VaultView, key_id: u64) -> Result<RecordView, VaultError> {
    if v.records.contains_key(key_id) {
        Ok(v.records[key_id])
    } else {
        Err(VaultError::NotFound)
    }
}

/// The view of a textual result.
pub open spec fn text_view(r: Result<String, VaultError>) -> Result<Seq<char>, VaultError> {
    match r {
        Ok(s) => Ok(s@),
        Err(e) => Err(e),
    }
}

/// The view of a record result.
pub open spec fn record_view(r: Result<EncryptedKey, VaultError>) -> Result<RecordView, VaultError> {
    match r {
        Ok(k) => Ok(k@),
        Err(e) => Err(e),
    }
}

/// What loading the configuration of `v` gives.
pub open spec fn configured(v: VaultView) -> Result<ConfigView, VaultError> {
    match v.config {
        Some(c) => Ok(c),
        None => Err(VaultError::NotFound),
    }
}

/// The view of a configuration result.
pub open spec fn state_view(r: Result<State, VaultError>) -> Result<ConfigView, VaultError> {
    match r {
        Ok(s) => Ok(s@),
        Err(e) => Err(e),
    }
}

/// A copy of `r`, field by field.
fn copy_record(r: &EncryptedKey) -> (c: EncryptedKey)
    ensures
        c@ == r@,
{
    EncryptedKey {
        key_id: r.key_id,
        creator: r.creator.clone(),
        timestamp: r.timestamp,
        recipient: r.recipient.clone(),
        retrieved: r.retrieved,
        encrypted_data: r.encrypted_data.clone(),
    }
}

impl KeyVault {
    /// An empty vault whose records are sealed under `cipher_key`.
    pub fn new(cipher_key: Vec<u8>) -> (v: KeyVault)
        requires
            cipher_key@.len() == KEY_LEN,
        ensures
            v@.cipher_key == cipher_key@,
            v@.config is None,
            v@.records == Map::<u64, RecordView>::empty(),
    {
        let v = KeyVault {
            cipher_key: SecretKey { bytes: cipher_key },
            config: None,
            records: HashMap::new(),
        };
        assert(v@.records =~= Map::<u64, RecordView>::empty());
        v
    }

    /// Whether a record is filed under `key_id`.
    pub fn has(&self, key_id: u64) -> (r: bool)
        ensures
            r == self@.records.contains_key(key_id),
    {
        self.records.contains_key(&key_id)
    }

    /// Files `record` under `key_id`, unless a record is already filed there.
    pub fn insert(&mut self, key_id: u64, record: EncryptedKey) -> (r: Result<(), VaultError>)
        ensures
            old(self)@.records.contains_key(key_id) ==> r == Err::<(), VaultError>(
                VaultError::AlreadyExists,
            ) && final(self)@ == old(self)@,
            !old(self)@.records.contains_key(key_id) ==> r is Ok && final(self)@ == old(
                self,
            )@.with_records(old(self)@.records.insert(key_id, record@)),
    {
        if self.records.contains_key(&key_id) {
            return Err(VaultError::AlreadyExists);
        }
        self.put(key_id, record);
        Ok(())
    }

    /// Replaces the record filed under `key_id`, which must be there.
    pub fn overwrite(&mut self, key_id: u64, record: EncryptedKey) -> (r: Result<(), VaultError>)
        ensures
            !old(self)@.records.contains_key(key_id) ==> r == Err::<(), VaultError>(
                VaultError::NotFound,
            ) && final(self)@ == old(self)@,
            old(self)@.records.contains_key(key_id) ==> r is Ok && final(self)@ == old(
                self,
            )@.with_records(old(self)@.records.insert(key_id, record@)),
    {
        if !self.records.contains_key(&key_id) {
            return Err(VaultError::NotFound);
        }
        self.put(key_id, record);
        Ok(())
    }

    /// The record filed under `key_id`.
    pub fn load(&self, key_id: u64) -> (r: Result<EncryptedKey, VaultError>)
        ensures
            record_view(r) == details(self@, key_id),
    {
        match self.records.get(&key_id) {
            Some(rec) => Ok(copy_record(rec)),
            None => Err(VaultError::NotFound),
        }
    }

    fn put(&mut self, key_id: u64, record: EncryptedKey)
        ensures
            final(self)@ == old(self)@.with_records(old(self)@.records.insert(key_id, record@)),
    {
        let ghost rv = record@;
        self.records.insert(key_id, record);
        assert(self@.records =~= old(self)@.records.insert(key_id, rv));
    }
}

/// Sets the configuration.
pub fn save_config(vault: &mut KeyVault, state: &State)
    ensures
        final(vault)@ == (VaultView {
            cipher_key: old(vault)@.cipher_key,
            config: Some(state@),
            records: old(vault)@.records,
        }),
{
    vault.config = Some(State { creator: state.creator.clone(), broadcast: state.broadcast.clone() });
}

/// The configuration, or `NotFound` before it has been set.
pub fn load_config(vault: &KeyVault) -> (r: Result<State, VaultError>)
    ensures
        state_view(r) == configured(vault@),
{
    match &vault.config {
        Some(s) => Ok(State { creator: s.creator.clone(), broadcast: s.broadcast.clone() }),
        None => Err(VaultError::NotFound),
    }
}

/// Seals `key` and files it, on behalf of `sender`, under the identifier
/// `height` (the host's counter at the time of the call), which it returns.
pub fn store_key(
    vault: &mut KeyVault,
    height: u64,
    sender: String,
    key: String,
    recipient: String,
) -> (r: Result<u64, VaultError>)
    ensures
        store_key_step(old(vault)@, final(vault)@, height, sender@, key@, recipient@, r),
{
    proof {
        use_type_invariant(&vault.cipher_key);
    }
    let key_id = height;
    if vault.has(key_id) {
        return Err(VaultError::AlreadyExists);
    }
    let encrypted_data = match encrypt(&vault.cipher_key.bytes, key_id, key.as_str()) {
        Ok(c) => c,
        Err(e) => return Err(VaultError::from_cipher(e)),
    };
    let record = EncryptedKey {
        key_id,
        creator: sender,
        timestamp: 0,
        recipient,
        retrieved: false,
        encrypted_data,
    };
    vault.put(key_id, record);
    Ok(key_id)
}

/// Decrypts the secret filed under `key_id` and marks the record retrieved.
pub fn retrieve_key(vault: &mut KeyVault, key_id: u64) -> (r: Result<String, VaultError>)
    ensures
        retrieve_key_step(old(vault)@, final(vault)@, key_id, text_view(r)),
{
    proof {
        use_type_invariant(&vault.cipher_key);
    }
    let mut key = match vault.load(key_id) {
        Ok(k) => k,
        Err(e) => return Err(e),
    };
    let text = match decrypt(&vault.cipher_key.bytes, key_id, &key.encrypted_data) {
        Ok(t) => t,
        Err(e) => return Err(VaultError::from_cipher(e)),
    };
    key.retrieved = true;
    vault.put(key_id, key);
    Ok(text)
}

/// The record filed under `key_id`, without decrypting it.
pub fn get_key_details(vault: &KeyVault, key_id: u64) -> (r: Result<EncryptedKey, VaultError>)
    ensures
        record_view(r) == details(vault@, key_id),
{
    vault.load(key_id)
}

} // verus!
