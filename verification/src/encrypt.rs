//! Sealing and opening of secrets under a password-keyed symmetric cipher.
//!
//! `encrypt_data` mints a fresh password and retrieval handle and seals the
//! plaintext under the password into a single transport-safe string;
//! `decrypt_data` opens such a string again given the same password and
//! answers every failure with the same bare `None`, so a caller learns
//! nothing about why an attempt was refused.

use vstd::prelude::*;

use magic_crypt::MagicCryptTrait;

use crate::token::generate_hash;
use crate::token::generate_password;
use crate::token::handle_alphabet;
use crate::token::password_alphabet;

verus! {

/// The transport-safe ciphertext that sealing produces: a function of the
/// password and the plaintext alone.
pub uninterp spec fn seal_of(key: Seq<char>, data: Seq<char>) -> Seq<char>;

/// What opening a string under a password yields: the recovered plaintext,
/// or nothing when decoding, decryption or the final text conversion fails.
/// A function of the password and the sealed string alone.
pub uninterp spec fn open_of(key: Seq<char>, sealed: Seq<char>) -> Option<Seq<char>>;

/// Relies on `magic_crypt::MagicCrypt256::new` and
/// `MagicCryptTrait::encrypt_str_to_base64`: the cipher is AES-256-CBC with
/// PKCS7 padding, keyed by the SHA-256 of `key` with a fixed all-zero IV,
/// and the result is the base64 of the ciphertext — a deterministic function
/// of `key` and `data`. `MagicCryptTrait::decrypt_base64_to_string` under
/// the same `key` inverts it, which the second clause records.
#[verifier::external_body]
fn encrypt_to_base64(key: &str, data: &str) -> (r: String)
    ensures
        r@ == seal_of(key@, data@),
        open_of(key@, r@) == Some(data@),
{
    let mc = magic_crypt::MagicCrypt256::new(key, None::<&[u8]>);
    mc.encrypt_str_to_base64(data)
}

/// Relies on `magic_crypt::MagicCrypt256::new` and
/// `MagicCryptTrait::decrypt_base64_to_string`: base64 decoding, AES-256-CBC
/// decryption with PKCS7 unpadding and UTF-8 conversion, deterministic in
/// `key` and `sealed`; every failure collapses into the one `Err`, which is
/// mapped to `None` here.
#[verifier::external_body]
fn decrypt_base64(key: &str, sealed: &str) -> (r: Option<String>)
    ensures
        (match r {
            Some(p) => open_of(key@, sealed@) == Some(p@),
            None => open_of(key@, sealed@) is None,
        }),
{
    let mc = magic_crypt::MagicCrypt256::new(key, None::<&[u8]>);
    mc.decrypt_base64_to_string(sealed).ok()
}

/// Seals `data`: mints a fresh 16-character password and an independent
/// 8-character handle and returns `(handle, password, sealed)`, where
/// `sealed` is the ciphertext of `data` under the password. Opening
/// `sealed` with the returned password recovers `data` exactly.
pub fn encrypt_data(data: String) -> (r: (String, String, String))
    ensures
        r.0@.len() == 8,
        forall|i: int| 0 <= i < 8 ==> handle_alphabet().contains(#[trigger] r.0@[i]),
        r.1@.len() == 16,
        forall|i: int| 0 <= i < 16 ==> password_alphabet().contains(#[trigger] r.1@[i]),
        r.2@ == seal_of(r.1@, data@),
        open_of(r.1@, r.2@) == Some(data@),
{
    let key = generate_password(16);
    let encrypted = encrypt_to_base64(key.as_str(), data.as_str());
    let hash = generate_hash(8);
    (hash, key, encrypted)
}

/// Why a sealing request was refused before any cryptographic work.
#[derive(Clone, Copy, Debug, PartialEq, Eq, Structural)]
pub enum InputError {
    /// The plaintext to seal was empty.
    EmptyPlaintext,
}

/// Seals `plaintext` as `encrypt_data` does, but refuses an empty plaintext
/// with `InputError::EmptyPlaintext` before any password is minted or any
/// cryptographic work is done.
pub fn seal(plaintext: String) -> (r: Result<(String, String, String), InputError>)
    ensures
        plaintext@.len() == 0 <==> r is Err,
        (r matches Err(e) ==> e == InputError::EmptyPlaintext),
        (r matches Ok(t) ==> {
            &&& t.0@.len() == 8
            &&& forall|i: int| 0 <= i < 8 ==> handle_alphabet().contains(#[trigger] t.0@[i])
            &&& t.1@.len() == 16
            &&& forall|i: int| 0 <= i < 16 ==> password_alphabet().contains(#[trigger] t.1@[i])
            &&& t.2@ == seal_of(t.1@, plaintext@)
            &&& open_of(t.1@, t.2@) == Some(plaintext@)
        }),
{
    if plaintext.as_str().is_empty() {
        Err(InputError::EmptyPlaintext)
    } else {
        Ok(encrypt_data(plaintext))
    }
}

/// Opens `data` under `key`: returns the recovered plaintext, or `None` on
/// any failure — wrong password, corrupted ciphertext and malformed encoding
/// are indistinguishable in the result.
pub fn decrypt_data(data: String, key: String) -> (r: Option<String>)
    ensures
        (match r {
            Some(p) => open_of(key@, data@) == Some(p@),
            None => open_of(key@, data@) is None,
        }),
{
    decrypt_base64(key.as_str(), data.as_str())
}

} // verus!
