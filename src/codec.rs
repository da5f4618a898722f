//! Decoding of encrypted text assets: base64, then AES-256 in ECB mode with
//! PKCS#7 padding, then UTF-8.
use vstd::prelude::*;
use vstd::utf8::{decode_utf8, valid_utf8};
use aes::cipher::block_padding::Pkcs7;
use aes::cipher::{BlockDecryptMut, KeyInit};
use base64::Engine;

verus! {

/// Why an encrypted text could not be decoded.
#[derive(Clone, Copy, Debug, PartialEq, Eq, Structural)]
pub enum DecodeError {
    /// The padding after decryption is inconsistent (or the input is not
    /// block-aligned).
    BadPadding,
    /// The plaintext is not valid UTF-8.
    InvalidUtf8,
}

/// The bytes that standard base64 text decodes to; `None` for text that is not
/// valid standard base64.
pub uninterp spec fn base64_decoded(text: Seq<char>) -> Option<Seq<u8>>;

/// The plaintext of `data` under AES-256-ECB with PKCS#7 padding removed;
/// `None` when the padding is malformed or `data` is not block-aligned.
pub uninterp spec fn aes256_ecb_decrypted(key: Seq<u8>, data: Seq<u8>) -> Option<Seq<u8>>;

/// Relies on `base64::engine::general_purpose::STANDARD.decode`: the decoded
/// bytes, or an error for text that is not standard base64.
#[verifier::external_body]
pub(crate) fn base64_decode(text: &str) -> (r: Option<Vec<u8>>)
    ensures
        r matches Some(v) ==> base64_decoded(text@) == Some(v@),
        r is None <==> base64_decoded(text@) is None,
{
    base64::prelude::BASE64_STANDARD.decode(text).ok()
}

/// Relies on `ecb::Decryptor::<aes::Aes256>::decrypt_padded_b2b_mut::<Pkcs7>`:
/// the unpadded plaintext, or an error for bad padding or unaligned input.
#[verifier::external_body]
fn aes256_ecb_decrypt(key: &[u8; 32], data: &[u8]) -> (r: Option<Vec<u8>>)
    ensures
        r matches Some(v) ==> aes256_ecb_decrypted(key@, data@) == Some(v@),
        r is None <==> aes256_ecb_decrypted(key@, data@) is None,
{
    let mut out = vec![0u8; data.len()];
    let decryptor = ecb::Decryptor::<aes::Aes256>::new(key.into());
    decryptor.decrypt_padded_b2b_mut::<Pkcs7>(data, &mut out).ok().map(|pt| pt.to_vec())
}

/// Relies on `String::from_utf8`: it succeeds exactly on valid UTF-8 and the
/// string holds the characters the bytes encode.
#[verifier::external_body]
fn utf8_text(bytes: Vec<u8>) -> (r: Option<String>)
    ensures
        r is Some <==> valid_utf8(bytes@),
        r matches Some(s) ==> s@ == decode_utf8(bytes@),
{
    String::from_utf8(bytes).ok()
}

/// What decrypting `data` under `key` gives.
pub open spec fn decrypt_spec(key: Seq<u8>, data: Seq<u8>) -> Result<Seq<char>, DecodeError> {
    match aes256_ecb_decrypted(key, data) {
        None => Err(DecodeError::BadPadding),
        Some(plain) => if valid_utf8(plain) {
            Ok(decode_utf8(plain))
        } else {
            Err(DecodeError::InvalidUtf8)
        },
    }
}

/// Decrypts `data` with `key` and reads the plaintext as UTF-8 text.
pub fn decrypt(key: &[u8; 32], data: &[u8]) -> (r: Result<String, DecodeError>)
    ensures
        r matches Ok(s) ==> decrypt_spec(key@, data@) == Ok::<Seq<char>, DecodeError>(s@),
        r matches Err(e) ==> decrypt_spec(key@, data@) == Err::<Seq<char>, DecodeError>(e),
{
    match aes256_ecb_decrypt(key, data) {
        None => Err(DecodeError::BadPadding),
        Some(plain) => match utf8_text(plain) {
            None => Err(DecodeError::InvalidUtf8),
            Some(s) => Ok(s),
        },
    }
}

} // verus!
