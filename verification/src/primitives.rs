//! The calls into cryptographic and encoding crates, and into the one
//! function of the standard library that the verifier has no contract for.
//!
//! Nothing in this module is proved. Each function below hands its
//! arguments to one outside function and states, as its contract, what that
//! function is documented to return. Results that are deterministic but too
//! long to write down (a digest, a ciphertext, the verdict on a signature)
//! are given a name: a specification function without a body, of which the
//! rest of the crate knows only what the contracts here say.

use base64::Engine;
use chacha20poly1305::aead::Aead;
use chacha20poly1305::KeyInit;
use ed25519_dalek::pkcs8::DecodePublicKey;
use ed25519_dalek::Verifier;
use sha2::Digest;
use vstd::prelude::*;

verus! {

/// Length in bytes of a SHA-256 digest and of every key in this crate.
pub const KEY_LEN: usize = 32;

/// Length in bytes of an XChaCha20 nonce.
pub const NONCE_LEN: usize = 24;

/// Length in bytes of a Poly1305 authentication tag.
pub const TAG_LEN: usize = 16;

/// Length in bytes of an Ed25519 signature.
pub const SIGNATURE_LEN: usize = 64;

/// The SHA-256 digest of `data`.
pub uninterp spec fn sha256(data: Seq<u8>) -> Seq<u8>;

/// The XChaCha20-Poly1305 ciphertext, tag included, of `plaintext` under
/// `key` and `nonce` with no associated data.
pub uninterp spec fn xchacha20poly1305_sealed(
    key: Seq<u8>,
    nonce: Seq<u8>,
    plaintext: Seq<u8>,
) -> Seq<u8>;

/// What XChaCha20-Poly1305 decryption of `ciphertext` under `key` and
/// `nonce` yields: the plaintext, or nothing when authentication fails.
pub uninterp spec fn xchacha20poly1305_opened(
    key: Seq<u8>,
    nonce: Seq<u8>,
    ciphertext: Seq<u8>,
) -> Option<Seq<u8>>;

/// The Ed25519 verifying key that belongs to the signing key `secret`.
pub uninterp spec fn ed25519_public(secret: Seq<u8>) -> Seq<u8>;

/// Whether the 32 bytes `key` decode to an Ed25519 verifying key.
pub uninterp spec fn ed25519_key_valid(key: Seq<u8>) -> bool;

/// Whether `signature` is accepted as an Ed25519 signature over `message`
/// under the verifying key `key`.
pub uninterp spec fn ed25519_verifies(key: Seq<u8>, message: Seq<u8>, signature: Seq<u8>) -> bool;

/// The standard, padded base64 text of `data`.
pub uninterp spec fn base64_text(data: Seq<u8>) -> Seq<char>;

/// The bytes that the standard, padded base64 text `text` (given as its
/// bytes) decodes to, or nothing when it is not valid base64.
pub uninterp spec fn base64_decoded(text: Seq<u8>) -> Option<Seq<u8>>;

/// The Ed25519 key held by the DER-encoded SubjectPublicKeyInfo `der`, or
/// nothing when `der` is not such a document.
pub uninterp spec fn spki_ed25519_key(der: Seq<u8>) -> Option<Seq<u8>>;

/// The text `text` without its leading and trailing white space, white
/// space being what Unicode defines as such.
pub uninterp spec fn trimmed_text(text: Seq<char>) -> Seq<char>;

/// Whether `c` belongs to the URL-safe alphabet that tokens are drawn
/// from: ASCII letters, digits, `_` and `-`.
pub open spec fn is_token_char(c: char) -> bool {
    ||| c == '_'
    ||| c == '-'
    ||| ('0' as u32 <= c as u32 && c as u32 <= '9' as u32)
    ||| ('a' as u32 <= c as u32 && c as u32 <= 'z' as u32)
    ||| ('A' as u32 <= c as u32 && c as u32 <= 'Z' as u32)
}

/// Calls `sha2::Sha256::digest`. Assumed: the result is the SHA-256 digest
/// of the input.
#[verifier::external_body]
pub(crate) fn sha256_digest(data: &[u8]) -> (digest: [u8; 32])
    ensures
        digest@ == sha256(data@),
{
    sha2::Sha256::digest(data).into()
}

/// Calls `Aead::encrypt` of `chacha20poly1305::XChaCha20Poly1305` with no
/// associated data. Assumed, as the crate's source shows: encryption is
/// refused exactly for plaintexts of `u32::MAX` or more 64-byte blocks; the
/// ciphertext is the plaintext's length plus a 16-byte tag; and decrypting
/// it under the same key and nonce gives the plaintext back.
#[verifier::external_body]
pub(crate) fn aead_seal(key: &[u8; 32], nonce: &[u8; 24], plaintext: &[u8]) -> (sealed: Option<
    Vec<u8>,
>)
    ensures
        sealed is Some <==> plaintext@.len() / 64 < u32::MAX,
        sealed matches Some(ciphertext) ==> {
            &&& ciphertext@ == xchacha20poly1305_sealed(key@, nonce@, plaintext@)
            &&& ciphertext@.len() == plaintext@.len() + TAG_LEN
            &&& xchacha20poly1305_opened(key@, nonce@, ciphertext@) == Some(plaintext@)
        },
{
    let cipher = chacha20poly1305::XChaCha20Poly1305::new(key.into());
    cipher.encrypt(nonce.into(), plaintext).ok()
}

/// Calls `Aead::decrypt` of `chacha20poly1305::XChaCha20Poly1305` with no
/// associated data. Assumed: the result is the named outcome of
/// decryption; an input shorter than the tag is refused; and a plaintext
/// that comes out is 16 bytes shorter than the input.
#[verifier::external_body]
pub(crate) fn aead_open(key: &[u8; 32], nonce: &[u8; 24], ciphertext: &[u8]) -> (opened: Option<
    Vec<u8>,
>)
    ensures
        match opened {
            Some(plaintext) => xchacha20poly1305_opened(key@, nonce@, ciphertext@) == Some(
                plaintext@,
            ),
            None => xchacha20poly1305_opened(key@, nonce@, ciphertext@) is None,
        },
        ciphertext@.len() < TAG_LEN ==> opened is None,
        opened matches Some(plaintext) ==> plaintext@.len() + TAG_LEN == ciphertext@.len(),
{
    let cipher = chacha20poly1305::XChaCha20Poly1305::new(key.into());
    cipher.decrypt(nonce.into(), ciphertext).ok()
}

/// Calls `rand::random` for 24 bytes. Nothing is assumed of the result.
#[verifier::external_body]
pub(crate) fn random_nonce() -> [u8; 24] {
    rand::random()
}

/// Calls `ed25519_dalek::SigningKey::generate` on the operating system's
/// random source and returns the key's 32 secret bytes. Nothing is assumed
/// of the result.
#[verifier::external_body]
pub(crate) fn fresh_signing_key() -> [u8; 32] {
    ed25519_dalek::SigningKey::generate(&mut rand::rngs::OsRng).to_bytes()
}

/// Calls `ed25519_dalek::SigningKey::verifying_key` on the signing key made
/// of `secret`. Assumed: the result is the named verifying key.
#[verifier::external_body]
pub(crate) fn derive_public_key(secret: &[u8; 32]) -> (public: [u8; 32])
    ensures
        public@ == ed25519_public(secret@),
{
    ed25519_dalek::SigningKey::from_bytes(secret).verifying_key().to_bytes()
}

/// Calls `ed25519_dalek::VerifyingKey::from_bytes`. Assumed: the result
/// says whether the bytes decode to a verifying key.
#[verifier::external_body]
pub(crate) fn key_is_valid(key: &[u8; 32]) -> (valid: bool)
    ensures
        valid == ed25519_key_valid(key@),
{
    ed25519_dalek::VerifyingKey::from_bytes(key).is_ok()
}

/// Calls `Verifier::verify` of `ed25519_dalek::VerifyingKey` on the key
/// decoded from `key`. Assumed: the result is true exactly when the key
/// decodes and the signature is accepted for the message.
#[verifier::external_body]
pub(crate) fn signature_verifies(
    key: &[u8; 32],
    message: &[u8],
    signature: &[u8; 64],
) -> (accepted: bool)
    ensures
        accepted == (ed25519_key_valid(key@) && ed25519_verifies(key@, message@, signature@)),
{
    match ed25519_dalek::VerifyingKey::from_bytes(key) {
        Ok(verifying_key) => {
            let signature = ed25519_dalek::Signature::from_bytes(signature);
            verifying_key.verify(message, &signature).is_ok()
        },
        Err(_) => false,
    }
}

/// Calls `Engine::encode` of `base64::engine::general_purpose::STANDARD`.
/// The input is kept short enough that the encoded length fits a `usize`,
/// for the crate panics beyond that. Assumed: the result is the named
/// text, four characters for every three bytes begun.
#[verifier::external_body]
pub(crate) fn base64_encode(data: &[u8]) -> (text: String)
    requires
        4 * (data@.len() / 3) + 4 <= usize::MAX,
    ensures
        text@ == base64_text(data@),
        text@.len() == 4 * ((data@.len() + 2) / 3),
{
    base64::engine::general_purpose::STANDARD.encode(data)
}

/// Calls `Engine::decode` of `base64::engine::general_purpose::STANDARD`.
/// Assumed: the result is the named outcome of decoding.
#[verifier::external_body]
pub(crate) fn base64_decode(text: &[u8]) -> (decoded: Option<Vec<u8>>)
    ensures
        match decoded {
            Some(bytes) => base64_decoded(text@) == Some(bytes@),
            None => base64_decoded(text@) is None,
        },
{
    base64::engine::general_purpose::STANDARD.decode(text).ok()
}

/// Calls `DecodePublicKey::from_public_key_der` of
/// `ed25519_dalek::VerifyingKey`. Assumed: the result is the named key,
/// and a key that comes out decodes to a verifying key, as the crate's
/// source checks before it returns one.
#[verifier::external_body]
pub(crate) fn spki_decode(der: &[u8]) -> (key: Option<[u8; 32]>)
    ensures
        match key {
            Some(bytes) => spki_ed25519_key(der@) == Some(bytes@) && ed25519_key_valid(bytes@),
            None => spki_ed25519_key(der@) is None,
        },
{
    match ed25519_dalek::VerifyingKey::from_public_key_der(der) {
        Ok(verifying_key) => Some(verifying_key.to_bytes()),
        Err(_) => None,
    }
}

/// Calls `nanoid::format` with the crate's default random source and its
/// URL-safe alphabet. The size is kept positive, for the crate does not
/// return on size zero, and small enough for the crate's own arithmetic.
/// Assumed: the token has `size` characters, all of that alphabet.
#[verifier::external_body]
pub(crate) fn fresh_token(size: usize) -> (token: String)
    requires
        0 < size,
        8 * size <= usize::MAX,
    ensures
        token@.len() == size,
        forall|i: int| 0 <= i < token@.len() ==> is_token_char(#[trigger] token@[i]),
{
    nanoid::format(nanoid::rngs::default, &nanoid::alphabet::SAFE, size)
}

/// Calls `str::trim`. Assumed: the result is the named text.
#[verifier::external_body]
pub(crate) fn trim_text(text: &str) -> (trimmed: &str)
    ensures
        trimmed@ == trimmed_text(text@),
{
    text.trim()
}

} // verus!
