use vstd::prelude::*;

use crate::blob::{be_u32, parse_blob, HEADER_LEN};
use crate::error::ImportError;
use vstd::string::StringSliceAdditionalSpecFns;
use ring::aead::{Aad, LessSafeKey, Nonce, UnboundKey, AES_256_GCM};

verus! {

/// Length of the derived AES-256 key.
pub const KEY_LEN: usize = 32;

/// Length of the AES-GCM authentication tag at the end of the sealed payload.
pub const TAG_LEN: usize = 16;

/// Largest password, in bytes, that the key derivation takes.
pub const MAX_PASSWORD_LEN: u64 = 0x1000_0000_0000_0000;

/// The 32-byte PBKDF2-HMAC-SHA1 key for a round count, a salt and a password.
pub uninterp spec fn pbkdf2_hmac_sha1(iterations: u32, salt: Seq<u8>, password: Seq<u8>) -> Seq<u8>;

/// What AES-256-GCM opening of `sealed` (ciphertext and tag) under `key` and
/// `nonce`, with no associated data, yields: the plaintext, or nothing when the
/// tag does not verify or the key or nonce is malformed.
pub uninterp spec fn aes_256_gcm_open(key: Seq<u8>, nonce: Seq<u8>, sealed: Seq<u8>) -> Option<Seq<u8>>;

/// The text that lossy UTF-8 decoding of `b` gives.
pub uninterp spec fn utf8_lossy(b: Seq<u8>) -> Seq<char>;

/// Relies on ring::pbkdf2::derive with PBKDF2_HMAC_SHA1, filling a 32-byte
/// output; it panics only on inputs too large for SHA-1.
#[verifier::external_body]
fn pbkdf2_derive(iterations: u32, salt: &[u8], password: &[u8]) -> (r: Vec<u8>)
    requires
        iterations > 0,
        salt@.len() <= 64,
        password@.len() < MAX_PASSWORD_LEN,
    ensures
        r@ == pbkdf2_hmac_sha1(iterations, salt@, password@),
        r@.len() == KEY_LEN,
{
    let mut key = [0u8; KEY_LEN];
    let rounds = std::num::NonZeroU32::new(iterations).unwrap();
    ring::pbkdf2::derive(ring::pbkdf2::PBKDF2_HMAC_SHA1, rounds, salt, password, &mut key);
    key.to_vec()
}

/// Relies on ring's LessSafeKey::open_in_place with AES_256_GCM and no
/// associated data: on success the plaintext is the payload without its
/// trailing 16-byte tag; a payload shorter than the tag is refused.
#[verifier::external_body]
fn aes_gcm_open(key: &[u8], nonce: &[u8], sealed: Vec<u8>) -> (r: Result<Vec<u8>, ring::error::Unspecified>)
    ensures
        match r {
            Ok(p) => aes_256_gcm_open(key@, nonce@, sealed@) == Some(p@),
            Err(_) => aes_256_gcm_open(key@, nonce@, sealed@) is None,
        },
        r is Ok ==> r->Ok_0@.len() + TAG_LEN == sealed@.len(),
        sealed@.len() < TAG_LEN ==> r is Err,
{
    let mut sealed = sealed;
    let key = LessSafeKey::new(UnboundKey::new(&AES_256_GCM, key)?);
    let nonce = Nonce::try_assume_unique_for_key(nonce)?;
    let n = key.open_in_place(nonce, Aad::empty(), &mut sealed)?.len();
    sealed.truncate(n);
    Ok(sealed)
}

/// Relies on String::from_utf8_lossy: malformed sequences become U+FFFD.
#[verifier::external_body]
fn decode_lossy(b: &[u8]) -> (r: String)
    ensures
        r@ == utf8_lossy(b@),
{
    String::from_utf8_lossy(b).into_owned()
}

/// Derives the decryption key; a round count of zero is refused before any
/// derivation.
pub fn derive_key(iterations: u32, salt: &[u8], password: &str) -> (r: Result<Vec<u8>, ImportError>)
    requires
        salt@.len() <= 64,
        password.spec_bytes().len() < MAX_PASSWORD_LEN,
    ensures
        match r {
            Ok(key) => iterations != 0 && key@ == pbkdf2_hmac_sha1(iterations, salt@, password.spec_bytes()),
            Err(e) => iterations == 0 && e is ZeroIterations,
        },
{
    if iterations == 0 {
        return Err(ImportError::ZeroIterations);
    }
    Ok(pbkdf2_derive(iterations, salt, password.as_bytes()))
}

/// Opens the sealed payload and decodes the plaintext as lossy UTF-8; a tag
/// that does not verify is a cryptography error.
pub fn open_payload(key: &[u8], nonce: &[u8], sealed: Vec<u8>) -> (r: Result<String, ImportError>)
    ensures
        sealed@.len() < TAG_LEN ==> r matches Err(ImportError::Cryptography(_)),
        match r {
            Ok(text) => aes_256_gcm_open(key@, nonce@, sealed@) matches Some(p) && text@ == utf8_lossy(p),
            Err(e) => aes_256_gcm_open(key@, nonce@, sealed@) is None && e is Cryptography,
        },
{
    match aes_gcm_open(key, nonce, sealed) {
        Ok(plain) => Ok(decode_lossy(plain.as_slice())),
        Err(e) => Err(ImportError::Cryptography(e)),
    }
}

/// The round count that the header of `b` declares.
pub open spec fn blob_iterations(b: Seq<u8>) -> u32 {
    be_u32(b) as u32
}

/// What opening the payload of `b` with the key derived from `password` yields.
pub open spec fn blob_plaintext(b: Seq<u8>, password: Seq<u8>) -> Option<Seq<u8>> {
    let key = pbkdf2_hmac_sha1(blob_iterations(b), b.subrange(4, 16), password);
    aes_256_gcm_open(key, b.subrange(16, 28), b.subrange(28, b.len() as int))
}

/// Parses the header, derives the key and opens the payload, stopping at the
/// first failure: a short buffer is an I/O error, a zero round count the
/// zero-iterations error, a tag that does not verify the cryptography error.
pub fn decrypt_backup(bytes: &[u8], password: &str) -> (r: Result<String, ImportError>)
    requires
        password.spec_bytes().len() < MAX_PASSWORD_LEN,
    ensures
        bytes@.len() < HEADER_LEN ==> r matches Err(ImportError::Io(_)),
        bytes@.len() >= HEADER_LEN && blob_iterations(bytes@) == 0 ==> r matches Err(ImportError::ZeroIterations),
        bytes@.len() >= HEADER_LEN && blob_iterations(bytes@) != 0 && bytes@.len() < HEADER_LEN + TAG_LEN
            ==> r matches Err(ImportError::Cryptography(_)),
        match r {
            Ok(text) => {
                &&& bytes@.len() >= HEADER_LEN
                &&& blob_iterations(bytes@) != 0
                &&& blob_plaintext(bytes@, password.spec_bytes()) matches Some(p)
                &&& text@ == utf8_lossy(p)
            },
            Err(ImportError::Io(_)) => bytes@.len() < HEADER_LEN,
            Err(ImportError::ZeroIterations) => bytes@.len() >= HEADER_LEN && blob_iterations(bytes@) == 0,
            Err(ImportError::Cryptography(_)) => {
                &&& bytes@.len() >= HEADER_LEN
                &&& blob_iterations(bytes@) != 0
                &&& blob_plaintext(bytes@, password.spec_bytes()) is None
            },
            Err(_) => false,
        },
{
    let blob = parse_blob(bytes)?;
    let key = derive_key(blob.iterations, blob.salt.as_slice(), password)?;
    open_payload(key.as_slice(), blob.nonce.as_slice(), blob.sealed)
}

} // verus!
