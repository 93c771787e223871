//! The authenticated cipher that seals secrets at rest (AES-256-GCM), and the
//! derivation of a distinct nonce for each record.
use aes_gcm::aead::generic_array::GenericArray;
use aes_gcm::aead::Aead;
use aes_gcm::{Aes256Gcm, KeyInit};
use crate::text::string_from_utf8;
use vstd::prelude::*;
use vstd::utf8::{decode_utf8, encode_utf8, valid_utf8};

verus! {

/// Length in bytes of a cipher key (256 bits).
pub const KEY_LEN: usize = 32;

/// Length in bytes of a nonce (96 bits).
pub const NONCE_LEN: usize = 12;

/// Longest plaintext, in bytes, that AES-GCM accepts.
pub const MAX_PLAINTEXT_LEN: u64 = 68719476736;

/// The ciphertext (with its tag appended) that AES-256-GCM produces for
/// `plain` under `key` and `nonce`, with no associated data.
pub uninterp spec fn sealed(key: Seq<u8>, nonce: Seq<u8>, plain: Seq<u8>) -> Seq<u8>;

/// What AES-256-GCM decryption of `ciphertext` under `key` and `nonce` yields:
/// the plaintext, or `None` when the tag does not verify.
pub uninterp spec fn opened(key: Seq<u8>, nonce: Seq<u8>, ciphertext: Seq<u8>) -> Option<Seq<u8>>;

#[verifier::external_type_specification]
#[verifier::external_body]
pub struct ExAeadError(aes_gcm::Error);

/// Relies on `Aead::encrypt` of `aes_gcm::Aes256Gcm`: it fails exactly when the
/// plaintext is longer than `P_MAX` bytes, and what it returns decrypts under
/// the same key and nonce to the plaintext. `KeyInit::new_from_slice` and
/// `GenericArray::from_slice` succeed on a key and a nonce of these lengths.
#[verifier::external_body]
fn aes_seal(key: &[u8], nonce: &[u8], plain: &[u8]) -> (r: Result<Vec<u8>, aes_gcm::Error>)
    requires
        key@.len() == KEY_LEN,
        nonce@.len() == NONCE_LEN,
    ensures
        r is Err <==> plain@.len() > MAX_PLAINTEXT_LEN,
        r matches Ok(c) ==> c@ == sealed(key@, nonce@, plain@) && opened(key@, nonce@, c@)
            == Some(plain@),
{
    let cipher = Aes256Gcm::new_from_slice(key).unwrap();
    cipher.encrypt(GenericArray::from_slice(nonce), plain)
}

/// Relies on `Aead::decrypt` of `aes_gcm::Aes256Gcm`: it returns the plaintext,
/// or an error when the ciphertext does not authenticate. `KeyInit::new_from_slice`
/// and `GenericArray::from_slice` succeed on a key and a nonce of these lengths.
#[verifier::external_body]
fn aes_open(key: &[u8], nonce: &[u8], ciphertext: &[u8]) -> (r: Result<Vec<u8>, aes_gcm::Error>)
    requires
        key@.len() == KEY_LEN,
        nonce@.len() == NONCE_LEN,
    ensures
        match r {
            Ok(p) => opened(key@, nonce@, ciphertext@) == Some(p@),
            Err(_) => opened(key@, nonce@, ciphertext@) is None,
        },
{
    let cipher = Aes256Gcm::new_from_slice(key).unwrap();
    cipher.decrypt(GenericArray::from_slice(nonce), ciphertext)
}

/// The `count` low-order bytes of `n`, least significant first.
pub open spec fn le_bytes(n: nat, count: nat) -> Seq<u8>
    decreases count,
{
    if count == 0 {
        Seq::empty()
    } else {
        seq![(n % 256) as u8] + le_bytes(n / 256, (count - 1) as nat)
    }
}

/// The nonce of the record filed under `key_id`: its eight little-endian
/// bytes followed by four zero bytes.
pub open spec fn nonce_bytes(key_id: u64) -> Seq<u8> {
    le_bytes(key_id as nat, 8) + seq![0u8, 0u8, 0u8, 0u8]
}

/// `256` to the power `count`.
pub open spec fn pow256(count: nat) -> nat
    decreases count,
{
    if count == 0 {
        1
    } else {
        256 * pow256((count - 1) as nat)
    }
}

proof fn lemma_le_bytes_len(n: nat, count: nat)
    ensures
        le_bytes(n, count).len() == count,
    decreases count,
{
    if count > 0 {
        lemma_le_bytes_len(n / 256, (count - 1) as nat);
    }
}

proof fn lemma_le_bytes_injective(a: nat, b: nat, count: nat)
    requires
        a < pow256(count),
        b < pow256(count),
        le_bytes(a, count) == le_bytes(b, count),
    ensures
        a == b,
    decreases count,
{
    if count > 0 {
        let c1 = (count - 1) as nat;
        let p = pow256(c1);
        assert(le_bytes(a, count)[0] == (a % 256) as u8);
        assert(le_bytes(b, count)[0] == (b % 256) as u8);
        assert(le_bytes(a / 256, c1) =~= le_bytes(a, count).drop_first());
        assert(le_bytes(b / 256, c1) =~= le_bytes(b, count).drop_first());
        assert(a / 256 < p) by (nonlinear_arith)
            requires
                a < 256 * p,
        ;
        assert(b / 256 < p) by (nonlinear_arith)
            requires
                b < 256 * p,
        ;
        lemma_le_bytes_injective(a / 256, b / 256, c1);
        assert(a % 256 == b % 256);
        assert(a == 256 * (a / 256) + a % 256);
        assert(b == 256 * (b / 256) + b % 256);
    }
}

/// Records filed under distinct identifiers are sealed under distinct nonces.
pub proof fn lemma_nonce_distinct(a: u64, b: u64)
    requires
        a != b,
    ensures
        nonce_bytes(a) != nonce_bytes(b),
{
    if nonce_bytes(a) == nonce_bytes(b) {
        lemma_le_bytes_len(a as nat, 8);
        lemma_le_bytes_len(b as nat, 8);
        assert(le_bytes(a as nat, 8) =~= nonce_bytes(a).subrange(0, 8));
        assert(le_bytes(b as nat, 8) =~= nonce_bytes(b).subrange(0, 8));
        reveal_with_fuel(pow256, 9);
        assert(pow256(8) == 18446744073709551616nat);
        lemma_le_bytes_injective(a as nat, b as nat, 8);
    }
}

/// Builds the nonce of the record filed under `key_id`.
pub fn nonce_for(key_id: u64) -> (r: Vec<u8>)
    ensures
        r@ == nonce_bytes(key_id),
        r@.len() == NONCE_LEN,
{
    let mut out: Vec<u8> = Vec::new();
    let mut rest: u64 = key_id;
    let mut i: usize = 0;
    while i < 8
        invariant
            i <= 8,
            out@.len() == i,
            out@ + le_bytes(rest as nat, (8 - i) as nat) == le_bytes(key_id as nat, 8),
        decreases 8 - i,
    {
        let ghost before = out@;
        out.push((rest % 256) as u8);
        proof {
            let tail = le_bytes((rest / 256) as nat, (8 - i - 1) as nat);
            assert(le_bytes(rest as nat, (8 - i) as nat) == seq![(rest % 256) as u8] + tail);
            assert(out@ + tail =~= before + (seq![(rest % 256) as u8] + tail));
        }
        rest = rest / 256;
        i = i + 1;
    }
    assert(out@ =~= le_bytes(key_id as nat, 8));
    let mut j: usize = 0;
    while j < 4
        invariant
            j <= 4,
            out@ =~= le_bytes(key_id as nat, 8) + Seq::new(j as nat, |k: int| 0u8),
        decreases 4 - j,
    {
        out.push(0u8);
        j = j + 1;
    }
    assert(out@ =~= nonce_bytes(key_id));
    out
}

/// Why a ciphertext could not be turned back into text.
#[derive(Debug, Clone, Copy, PartialEq, Eq, Structural)]
pub enum CipherError {
    /// The plaintext is longer than the cipher accepts.
    TooLong,
    /// The authentication tag did not verify.
    AuthenticationFailure,
    /// The decrypted bytes are not valid UTF-8.
    DecodeFailure,
}

/// Seals the UTF-8 bytes of `text` under `key` with the nonce of `key_id`.
pub fn encrypt(key: &Vec<u8>, key_id: u64, text: &str) -> (r: Result<Vec<u8>, CipherError>)
    requires
        key@.len() == KEY_LEN,
    ensures
        match r {
            Ok(c) => encode_utf8(text@).len() <= MAX_PLAINTEXT_LEN
                && c@ == sealed(key@, nonce_bytes(key_id), encode_utf8(text@))
                && opened(key@, nonce_bytes(key_id), c@) == Some(encode_utf8(text@)),
            Err(e) => e == CipherError::TooLong && encode_utf8(text@).len() > MAX_PLAINTEXT_LEN,
        },
{
    let nonce = nonce_for(key_id);
    match aes_seal(key.as_slice(), nonce.as_slice(), text.as_bytes()) {
        Ok(c) => Ok(c),
        Err(_) => Err(CipherError::TooLong),
    }
}

/// What decrypting `ciphertext` under `key` with the nonce of `key_id` gives:
/// the text it holds, or why there is none.
pub open spec fn decrypted(key: Seq<u8>, key_id: u64, ciphertext: Seq<u8>) -> Result<Seq<char>, CipherError> {
    match opened(key, nonce_bytes(key_id), ciphertext) {
        None => Err(CipherError::AuthenticationFailure),
        Some(p) => if valid_utf8(p) {
            Ok(decode_utf8(p))
        } else {
            Err(CipherError::DecodeFailure)
        },
    }
}

/// Opens `ciphertext` under `key` with the nonce of `key_id` and reads it as text.
pub fn decrypt(key: &Vec<u8>, key_id: u64, ciphertext: &Vec<u8>) -> (r: Result<String, CipherError>)
    requires
        key@.len() == KEY_LEN,
    ensures
        match r {
            Ok(s) => decrypted(key@, key_id, ciphertext@) == Ok::<Seq<char>, CipherError>(s@),
            Err(e) => decrypted(key@, key_id, ciphertext@) == Err::<Seq<char>, CipherError>(e),
        },
{
    let nonce = nonce_for(key_id);
    match aes_open(key.as_slice(), nonce.as_slice(), ciphertext.as_slice()) {
        Err(_) => Err(CipherError::AuthenticationFailure),
        Ok(p) => match string_from_utf8(p) {
            Some(s) => Ok(s),
            None => Err(CipherError::DecodeFailure),
        },
    }
}

/// Sealing a text and opening the result under the same key and identifier
/// gives the text back.
pub proof fn lemma_decrypt_of_sealed(key: Seq<u8>, key_id: u64, text: Seq<char>, c: Seq<u8>)
    requires
        opened(key, nonce_bytes(key_id), c) == Some(encode_utf8(text)),
    ensures
        decrypted(key, key_id, c) == Ok::<Seq<char>, CipherError>(text),
{
    vstd::utf8::encode_utf8_valid_utf8(text);
    vstd::utf8::encode_utf8_decode_utf8(text);
}

} // verus!
