use vstd::prelude::*;

use crate::error::{unexpected_eof, ImportError};
use byteorder::ByteOrder;

verus! {

/// Bytes before the ciphertext: a 4-byte round count, a 12-byte salt and a
/// 12-byte nonce.
pub const HEADER_LEN: usize = 28;

/// The unsigned big-endian integer held by the first four bytes of `b`.
pub open spec fn be_u32(b: Seq<u8>) -> int {
    (b[0] as int) * 0x1000000 + (b[1] as int) * 0x10000 + (b[2] as int) * 0x100 + (b[3] as int)
}

/// The parts of an encrypted backup.
pub struct EncryptedBlob {
    /// PBKDF2 round count.
    pub iterations: u32,
    /// PBKDF2 salt, 12 bytes.
    pub salt: Vec<u8>,
    /// AES-256-GCM nonce, 12 bytes.
    pub nonce: Vec<u8>,
    /// Ciphertext followed by the authentication tag.
    pub sealed: Vec<u8>,
}

impl EncryptedBlob {
    /// What parsing `b` yields, for `b` at least as long as the header.
    pub open spec fn parsed_from(&self, b: Seq<u8>) -> bool {
        &&& self.iterations as int == be_u32(b)
        &&& self.salt@ == b.subrange(4, 16)
        &&& self.nonce@ == b.subrange(16, 28)
        &&& self.sealed@ == b.subrange(28, b.len() as int)
    }
}

/// Relies on byteorder's BigEndian::read_u32: the first four bytes as a
/// big-endian integer.
#[verifier::external_body]
fn read_be_u32(b: &[u8]) -> (r: u32)
    requires
        b@.len() >= 4,
    ensures
        r as int == be_u32(b@),
{
    byteorder::BigEndian::read_u32(b)
}

/// Copies `b[from..to]` into a new vector.
fn copy_range(b: &[u8], from: usize, to: usize) -> (r: Vec<u8>)
    requires
        from <= to <= b@.len(),
    ensures
        r@ == b@.subrange(from as int, to as int),
{
    let mut r: Vec<u8> = Vec::with_capacity(to - from);
    let mut i: usize = from;
    while i < to
        invariant
            from <= i <= to <= b@.len(),
            r@ == b@.subrange(from as int, i as int),
        decreases to - i,
    {
        r.push(b[i]);
        i = i + 1;
    }
    r
}

/// Splits a backup into its header fields and the sealed payload; a buffer
/// shorter than the header is an I/O error.
pub fn parse_blob(bytes: &[u8]) -> (r: Result<EncryptedBlob, ImportError>)
    ensures
        match r {
            Ok(blob) => bytes@.len() >= HEADER_LEN && blob.parsed_from(bytes@),
            Err(e) => bytes@.len() < HEADER_LEN && e is Io,
        },
{
    if bytes.len() < HEADER_LEN {
        return Err(ImportError::Io(unexpected_eof()));
    }
    let iterations = read_be_u32(bytes);
    let salt = copy_range(bytes, 4, 16);
    let nonce = copy_range(bytes, 16, HEADER_LEN);
    let sealed = copy_range(bytes, HEADER_LEN, bytes.len());
    Ok(EncryptedBlob { iterations, salt, nonce, sealed })
}

} // verus!
