use vstd::prelude::*;

verus! {

#[verifier::external_type_specification]
#[verifier::external_body]
pub struct ExIoError(std::io::Error);

#[verifier::external_type_specification]
#[verifier::external_body]
pub struct ExJsonError(serde_json::Error);

#[verifier::external_type_specification]
#[verifier::external_body]
pub struct ExUnspecified(ring::error::Unspecified);

#[verifier::external_type_specification]
#[verifier::external_body]
pub struct ExSecretParseError(totp_rs::SecretParseError);

#[verifier::external_type_specification]
#[verifier::external_body]
pub struct ExTotpUrlError(totp_rs::TotpUrlError);

/// Everything that can go wrong while reading a backup.
#[derive(Debug)]
pub enum ImportError {
    /// Reading failed, or the buffer ends before the header does.
    Io(std::io::Error),
    /// The header asks for zero key-derivation rounds.
    ZeroIterations,
    /// A record's secret is not valid base32.
    SecretParseError(totp_rs::SecretParseError),
    /// The plaintext is not a JSON array of account records.
    JsonParseError(serde_json::Error),
    /// The authentication tag did not verify (wrong password or damaged data).
    Cryptography(ring::error::Unspecified),
    /// The generator refused a record's parameters.
    TotpError(totp_rs::TotpUrlError),
    /// A record names a hash function other than SHA1, SHA256 or SHA512.
    UnknownAlgorithm(String),
}

impl From<std::io::Error> for ImportError {
    fn from(e: std::io::Error) -> (r: ImportError) {
        ImportError::Io(e)
    }
}

impl vstd::std_specs::convert::FromSpecImpl<std::io::Error> for ImportError {
    open spec fn obeys_from_spec() -> bool {
        true
    }

    open spec fn from_spec(e: std::io::Error) -> ImportError {
        ImportError::Io(e)
    }
}

impl From<serde_json::Error> for ImportError {
    fn from(e: serde_json::Error) -> (r: ImportError) {
        ImportError::JsonParseError(e)
    }
}

impl vstd::std_specs::convert::FromSpecImpl<serde_json::Error> for ImportError {
    open spec fn obeys_from_spec() -> bool {
        true
    }

    open spec fn from_spec(e: serde_json::Error) -> ImportError {
        ImportError::JsonParseError(e)
    }
}

impl From<ring::error::Unspecified> for ImportError {
    fn from(e: ring::error::Unspecified) -> (r: ImportError) {
        ImportError::Cryptography(e)
    }
}

impl vstd::std_specs::convert::FromSpecImpl<ring::error::Unspecified> for ImportError {
    open spec fn obeys_from_spec() -> bool {
        true
    }

    open spec fn from_spec(e: ring::error::Unspecified) -> ImportError {
        ImportError::Cryptography(e)
    }
}

impl From<totp_rs::SecretParseError> for ImportError {
    fn from(e: totp_rs::SecretParseError) -> (r: ImportError) {
        ImportError::SecretParseError(e)
    }
}

impl vstd::std_specs::convert::FromSpecImpl<totp_rs::SecretParseError> for ImportError {
    open spec fn obeys_from_spec() -> bool {
        true
    }

    open spec fn from_spec(e: totp_rs::SecretParseError) -> ImportError {
        ImportError::SecretParseError(e)
    }
}

impl From<totp_rs::TotpUrlError> for ImportError {
    fn from(e: totp_rs::TotpUrlError) -> (r: ImportError) {
        ImportError::TotpError(e)
    }
}

impl vstd::std_specs::convert::FromSpecImpl<totp_rs::TotpUrlError> for ImportError {
    open spec fn obeys_from_spec() -> bool {
        true
    }

    open spec fn from_spec(e: totp_rs::TotpUrlError) -> ImportError {
        ImportError::TotpError(e)
    }
}

/// Relies on std::io::Error::from(ErrorKind::UnexpectedEof): an error for
/// input that ends too early.
#[verifier::external_body]
pub(crate) fn unexpected_eof() -> std::io::Error {
    std::io::Error::from(std::io::ErrorKind::UnexpectedEof)
}

} // verus!
