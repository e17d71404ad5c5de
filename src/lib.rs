//! Reader for encrypted andOTP backups: header parsing, key derivation,
//! authenticated decryption and the rules that turn account records into
//! TOTP generators.

pub mod blob;
pub mod crypto;
pub mod error;
pub mod records;

pub use blob::{parse_blob, EncryptedBlob, HEADER_LEN};
pub use crypto::{decrypt_backup, derive_key, open_payload, KEY_LEN, MAX_PASSWORD_LEN, TAG_LEN};
pub use error::ImportError;
pub use records::{build_generators, parse_algorithm, Account, HashAlgorithm};
