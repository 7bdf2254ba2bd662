//! The calls this library makes into outside crates and into parts of std
//! that vstd leaves unspecified. Each item here is trusted: its contract
//! states what the called function's source or documentation shows.
use aes_gcm::aead::Aead;
use aes_gcm::{Aes256Gcm, Key, KeyInit, Nonce};
use base64::Engine;
use sha2::Digest;
use vstd::prelude::*;
use vstd::utf8::{decode_utf8, valid_utf8};

verus! {

/// What AES-256-GCM decryption returns for a key, a nonce and a sealed value
/// (ciphertext followed by its tag): the plaintext, or nothing when the tag
/// does not authenticate.
pub uninterp spec fn aes256_gcm_open(key: Seq<u8>, nonce: Seq<u8>, sealed: Seq<u8>) -> Option<Seq<u8>>;

/// What AES-256-GCM encryption returns: ciphertext followed by its tag.
pub uninterp spec fn aes256_gcm_seal(key: Seq<u8>, nonce: Seq<u8>, plain: Seq<u8>) -> Seq<u8>;

/// What AES-128-CBC decryption with PKCS#7 padding returns (empty on error).
pub uninterp spec fn aes128_cbc_decrypt(key: Seq<u8>, iv: Seq<u8>, data: Seq<u8>) -> Seq<u8>;

/// What AES-128-CBC encryption with PKCS#7 padding returns.
pub uninterp spec fn aes128_cbc_encrypt(key: Seq<u8>, iv: Seq<u8>, plain: Seq<u8>) -> Seq<u8>;

/// PBKDF2 with HMAC-SHA1 as its pseudo-random function, `len` bytes long.
pub uninterp spec fn pbkdf2_hmac_sha1(password: Seq<u8>, salt: Seq<u8>, rounds: u32, len: nat) -> Seq<u8>;

/// The SHA-256 digest of a byte string.
pub uninterp spec fn sha256_of(data: Seq<u8>) -> Seq<u8>;

/// The bytes that standard, padded base64 text decodes to, if it is valid.
pub uninterp spec fn base64_decoded(text: Seq<char>) -> Option<Seq<u8>>;

/// The Unicode lower-case mapping of a string.
pub uninterp spec fn lower_of(s: Seq<char>) -> Seq<char>;

/// A byte vector's contents, when there is one.
pub open spec fn bytes_of(v: Option<Vec<u8>>) -> Option<Seq<u8>> {
    match v {
        Some(b) => Some(b@),
        None => None,
    }
}

/// Relies on aes_gcm's `Aes256Gcm::decrypt`: the plaintext of a sealed
/// value under a 32-byte key and a 12-byte nonce, or an error when
/// authentication fails.
#[verifier::external_body]
pub(crate) fn gcm_open(key: &[u8], nonce: &[u8], sealed: &[u8]) -> (r: Option<Vec<u8>>)
    requires
        key@.len() == 32,
        nonce@.len() == 12,
    ensures
        bytes_of(r) == aes256_gcm_open(key@, nonce@, sealed@),
{
    let cipher = Aes256Gcm::new(Key::<Aes256Gcm>::from_slice(key));
    cipher.decrypt(Nonce::from_slice(nonce), sealed).ok()
}

/// Relies on aes_gcm's `Aes256Gcm::encrypt`: ciphertext and a 16-byte tag,
/// which `Aes256Gcm::decrypt` opens back to the plaintext. It fails only on
/// plaintexts longer than 2^36 bytes.
#[verifier::external_body]
pub(crate) fn gcm_seal(key: &[u8], nonce: &[u8], plain: &[u8]) -> (r: Vec<u8>)
    requires
        key@.len() == 32,
        nonce@.len() == 12,
        plain@.len() <= 0x10_0000_0000,
    ensures
        r@ == aes256_gcm_seal(key@, nonce@, plain@),
        r@.len() == plain@.len() + 16,
        aes256_gcm_open(key@, nonce@, r@) == Some(plain@),
{
    let cipher = Aes256Gcm::new(Key::<Aes256Gcm>::from_slice(key));
    cipher.encrypt(Nonce::from_slice(nonce), plain).unwrap()
}

/// Relies on libaes's `Cipher::new_128` and `Cipher::cbc_decrypt` with its
/// default PKCS#7 padding.
#[verifier::external_body]
pub(crate) fn cbc_decrypt(key: &[u8], iv: &[u8], data: &[u8]) -> (r: Vec<u8>)
    requires
        key@.len() == 16,
        iv@.len() == 16,
    ensures
        r@ == aes128_cbc_decrypt(key@, iv@, data@),
{
    libaes::Cipher::new_128(key.try_into().unwrap()).cbc_decrypt(iv, data)
}

/// Relies on libaes's `Cipher::new_128` and `Cipher::cbc_encrypt`: the
/// plaintext padded by PKCS#7 to whole 16-byte blocks, encrypted;
/// `cbc_decrypt` with the same key and IV gives the plaintext back.
#[verifier::external_body]
pub(crate) fn cbc_encrypt(key: &[u8], iv: &[u8], plain: &[u8]) -> (r: Vec<u8>)
    requires
        key@.len() == 16,
        iv@.len() == 16,
    ensures
        r@ == aes128_cbc_encrypt(key@, iv@, plain@),
        r@.len() == 16 * (plain@.len() / 16 + 1),
        aes128_cbc_decrypt(key@, iv@, r@) == plain@,
{
    libaes::Cipher::new_128(key.try_into().unwrap()).cbc_encrypt(iv, plain)
}

/// Relies on `pbkdf2::pbkdf2` over `Hmac<Sha1>`, which never fails with an
/// HMAC: a 16-byte derived key.
#[verifier::external_body]
pub(crate) fn pbkdf2_sha1_16(password: &[u8], salt: &[u8], rounds: u32) -> (r: Vec<u8>)
    requires
        rounds >= 1,
    ensures
        r@ == pbkdf2_hmac_sha1(password@, salt@, rounds, 16),
        r@.len() == 16,
{
    let mut key = [0u8; 16];
    let _ = pbkdf2::pbkdf2::<hmac::Hmac<sha1::Sha1>>(password, salt, rounds, &mut key);
    key.to_vec()
}

/// Relies on sha2's `Sha256::digest`: a 32-byte digest.
#[verifier::external_body]
pub(crate) fn sha256(data: &[u8]) -> (r: Vec<u8>)
    ensures
        r@ == sha256_of(data@),
        r@.len() == 32,
{
    sha2::Sha256::digest(data).to_vec()
}

/// Relies on base64's `STANDARD` engine and its `decode`.
#[verifier::external_body]
pub(crate) fn base64_decode(text: &str) -> (r: Option<Vec<u8>>)
    ensures
        bytes_of(r) == base64_decoded(text@),
{
    base64::engine::general_purpose::STANDARD.decode(text).ok()
}

/// Relies on std's `String::from_utf8`: the text that the bytes encode in
/// UTF-8, or an error when they are not valid UTF-8.
#[verifier::external_body]
pub(crate) fn utf8_text(bytes: Vec<u8>) -> (r: Option<String>)
    ensures
        r is Some <==> valid_utf8(bytes@),
        r is Some ==> r->Some_0@ == decode_utf8(bytes@),
{
    String::from_utf8(bytes).ok()
}

/// Relies on std's `str::to_lowercase`.
#[verifier::external_body]
pub(crate) fn lowercase(s: &str) -> (r: String)
    ensures
        r@ == lower_of(s@),
{
    s.to_lowercase()
}

#[verifier::external_type_specification]
#[verifier::external_body]
pub struct ExUrl(url::Url);

#[verifier::external_type_specification]
#[verifier::external_body]
pub struct ExUrlParseError(url::ParseError);

/// Relies on url's `Url::parse`, which decides alone whether the text is a
/// URL.
pub assume_specification[ url::Url::parse ](input: &str) -> Result<url::Url, url::ParseError>;

/// Relies on url's `Url::host_str`, the host of a parsed URL if it has one.
pub assume_specification[ url::Url::host_str ](u: &url::Url) -> Option<&str>;

#[verifier::external_type_specification]
#[verifier::external_body]
pub struct ExJsonValue(serde_json::Value);

/// Relies on `serde_json::from_str`, read into a `serde_json::Value`.
#[verifier::external_body]
pub(crate) fn parse_json(text: &str) -> (r: Option<serde_json::Value>) {
    serde_json::from_str(text).ok()
}

/// Relies on serde_json's `Value::pointer`, a lookup by JSON pointer.
pub assume_specification<'a>[ serde_json::Value::pointer ](v: &'a serde_json::Value, pointer: &str) -> Option<&'a serde_json::Value>;

/// Relies on serde_json's `Value::as_str`, the text of a JSON string.
pub assume_specification[ serde_json::Value::as_str ](v: &serde_json::Value) -> Option<&str>;

} // verus!
