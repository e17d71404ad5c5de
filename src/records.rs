use vstd::prelude::*;

use crate::error::ImportError;

verus! {

#[verifier::external_type_specification]
#[verifier::external_body]
pub struct ExNumber(serde_json::Number);

#[verifier::external_type_specification]
#[verifier::external_body]
pub struct ExValue(serde_json::Value);

#[verifier::external_type_specification]
pub struct ExTotp(totp_rs::TOTP);

#[verifier::external_type_specification]
pub struct ExAlgorithm(totp_rs::Algorithm);

/// Steps of clock drift each generator tolerates on either side.
pub const TOTP_SKEW: u8 = 1;

/// One account record of the backup's plaintext.
#[derive(Debug)]
pub struct Account {
    /// The shared secret, base32 without padding.
    pub secret: String,
    pub issuer: String,
    /// Label for this entry, shown underneath the current code in the app.
    pub label: String,
    pub digits: usize,
    /// Type of account; only `TOTP` records are turned into generators.
    pub totp_type: String,
    pub algorithm: String,
    /// Thumbnail ID: either "Default" or a name.
    pub thumbnail: String,
    pub last_used: i64,
    /// Usage counter, kept as the JSON number it was read as.
    pub used_frequency: serde_json::Number,
    /// Code refresh interval in seconds.
    pub period: u64,
    /// Tags, passed through as read.
    pub tags: serde_json::Value,
}

/// Hash functions a TOTP record may name.
#[derive(Clone, Copy, Debug, PartialEq, Eq, Structural)]
pub enum HashAlgorithm {
    Sha1,
    Sha256,
    Sha512,
}

/// Why a record stops the whole import.
pub enum RecordFailure {
    UnknownAlgorithm(Seq<char>),
    SecretParse,
    TotpConstruction,
}

/// The bytes that unpadded RFC 4648 base32 decoding of `s` yields, if any.
pub uninterp spec fn base32_decoded(s: Seq<char>) -> Option<Seq<u8>>;

/// The hash function a record's `algorithm` field names.
pub open spec fn algorithm_named(s: Seq<char>) -> Option<HashAlgorithm> {
    if s == "SHA1"@ {
        Some(HashAlgorithm::Sha1)
    } else if s == "SHA256"@ {
        Some(HashAlgorithm::Sha256)
    } else if s == "SHA512"@ {
        Some(HashAlgorithm::Sha512)
    } else {
        None
    }
}

/// The generator's hash function for each of the library's.
pub open spec fn totp_algorithm(a: HashAlgorithm) -> totp_rs::Algorithm {
    match a {
        HashAlgorithm::Sha1 => totp_rs::Algorithm::SHA1,
        HashAlgorithm::Sha256 => totp_rs::Algorithm::SHA256,
        HashAlgorithm::Sha512 => totp_rs::Algorithm::SHA512,
    }
}

/// Whether `t` is the generator built from record `a`: the hash function the
/// record names, its digits, a skew of one step, its period, and its secret
/// decoded from base32.
pub open spec fn generator_built_from(a: Account, t: totp_rs::TOTP) -> bool {
    &&& algorithm_named(a.algorithm@) matches Some(h) && t.algorithm == totp_algorithm(h)
    &&& t.digits == a.digits
    &&& t.skew == TOTP_SKEW
    &&& t.step == a.period
    &&& base32_decoded(a.secret@) == Some(t.secret@)
}

/// Whether `out` pairs each TOTP record of `s`, in order, with the generator
/// built from it.
pub open spec fn generators_for(s: Seq<Account>, out: Seq<(Account, totp_rs::TOTP)>) -> bool {
    &&& out.len() == totp_accounts(s).len()
    &&& forall|i: int| 0 <= i < out.len() ==> #[trigger] out[i].0 == totp_accounts(s)[i]
    &&& forall|i: int| 0 <= i < out.len() ==> generator_built_from(#[trigger] out[i].0, out[i].1)
}

/// Whether a generator can be built: 6 to 8 digits and a secret of at least
/// 128 bits.
pub open spec fn generator_accepts(digits: usize, secret: Seq<u8>) -> bool {
    6 <= digits <= 8 && secret.len() >= 16
}

/// Whether a record is one of those that get a generator.
pub open spec fn is_totp(a: Account) -> bool {
    a.totp_type@ == "TOTP"@
}

/// Why the record `a` alone would stop the import, if it would.
pub open spec fn record_failure(a: Account) -> Option<RecordFailure> {
    if !is_totp(a) {
        None
    } else if algorithm_named(a.algorithm@) is None {
        Some(RecordFailure::UnknownAlgorithm(a.algorithm@))
    } else {
        match base32_decoded(a.secret@) {
            None => Some(RecordFailure::SecretParse),
            Some(key) => if generator_accepts(a.digits, key) {
                None
            } else {
                Some(RecordFailure::TotpConstruction)
            },
        }
    }
}

/// The failure of the first record of `s` that fails, if any.
pub open spec fn first_failure(s: Seq<Account>) -> Option<RecordFailure>
    decreases s.len(),
{
    if s.len() == 0 {
        None
    } else {
        match first_failure(s.drop_last()) {
            Some(f) => Some(f),
            None => record_failure(s.last()),
        }
    }
}

/// The TOTP records of `s`, in their order.
pub open spec fn totp_accounts(s: Seq<Account>) -> Seq<Account>
    decreases s.len(),
{
    if s.len() == 0 {
        Seq::empty()
    } else if is_totp(s.last()) {
        totp_accounts(s.drop_last()).push(s.last())
    } else {
        totp_accounts(s.drop_last())
    }
}

/// The record failure an import error reports, for the errors records cause.
pub open spec fn failure_of(e: ImportError) -> Option<RecordFailure> {
    match e {
        ImportError::UnknownAlgorithm(name) => Some(RecordFailure::UnknownAlgorithm(name@)),
        ImportError::SecretParseError(_) => Some(RecordFailure::SecretParse),
        ImportError::TotpError(_) => Some(RecordFailure::TotpConstruction),
        _ => None,
    }
}

/// Once a prefix of `s` has a failing record, the first failure of `s` is
/// that prefix's.
pub proof fn lemma_first_failure_prefix(s: Seq<Account>, k: int)
    requires
        0 <= k <= s.len(),
        first_failure(s.take(k)) is Some,
    ensures
        first_failure(s) == first_failure(s.take(k)),
    decreases s.len() - k,
{
    if k < s.len() {
        assert(s.take(k + 1).drop_last() =~= s.take(k));
        lemma_first_failure_prefix(s, k + 1);
    } else {
        assert(s.take(k) =~= s);
    }
}

/// A prefix in which no record fails has no first failure.
proof fn lemma_no_failure_in_prefix(s: Seq<Account>, k: int)
    requires
        0 <= k <= s.len(),
        forall|j: int| 0 <= j < k ==> record_failure(#[trigger] s[j]) is None,
    ensures
        first_failure(s.take(k)) is None,
    decreases k,
{
    if k > 0 {
        assert(s.take(k).drop_last() =~= s.take(k - 1));
        lemma_no_failure_in_prefix(s, k - 1);
    }
}

/// A TOTP record naming a hash function other than SHA1, SHA256 or SHA512
/// fails the whole batch, however well-formed the records after it are; when
/// no record before it fails, the failure is the unknown algorithm, with the
/// name the record gave.
pub proof fn lemma_unknown_algorithm_fails_batch(s: Seq<Account>, i: int)
    requires
        0 <= i < s.len(),
        is_totp(s[i]),
        algorithm_named(s[i].algorithm@) is None,
    ensures
        first_failure(s) is Some,
        (forall|j: int| 0 <= j < i ==> record_failure(#[trigger] s[j]) is None) ==> first_failure(s)
            == Some(RecordFailure::UnknownAlgorithm(s[i].algorithm@)),
{
    assert(s.take(i + 1).drop_last() =~= s.take(i));
    assert(s.take(i + 1).last() == s[i]);
    lemma_first_failure_prefix(s, i + 1);
    if forall|j: int| 0 <= j < i ==> record_failure(#[trigger] s[j]) is None {
        lemma_no_failure_in_prefix(s, i);
    }
}

/// Whether two generators were built from the same five values: hash
/// function, digits, skew, period and secret.
pub open spec fn same_generator(t1: totp_rs::TOTP, t2: totp_rs::TOTP) -> bool {
    &&& t1.algorithm == t2.algorithm
    &&& t1.digits == t2.digits
    &&& t1.skew == t2.skew
    &&& t1.step == t2.step
    &&& t1.secret@ == t2.secret@
}

/// The generators for a list of records are determined by the records: two
/// results for the same records pair the same accounts with generators built
/// from the same values, so at any fixed instant they give the same codes.
pub proof fn lemma_generators_determined(
    s: Seq<Account>,
    out1: Seq<(Account, totp_rs::TOTP)>,
    out2: Seq<(Account, totp_rs::TOTP)>,
)
    requires
        generators_for(s, out1),
        generators_for(s, out2),
    ensures
        out1.len() == out2.len(),
        forall|i: int| 0 <= i < out1.len() ==> #[trigger] out1[i].0 == out2[i].0 && same_generator(out1[i].1, out2[i].1),
{
    assert forall|i: int| 0 <= i < out1.len() implies #[trigger] out1[i].0 == out2[i].0 && same_generator(out1[i].1, out2[i].1) by {
        assert(out1[i].0 == totp_accounts(s)[i]);
        assert(out2[i].0 == totp_accounts(s)[i]);
        assert(generator_built_from(out1[i].0, out1[i].1));
        assert(generator_built_from(out2[i].0, out2[i].1));
    }
}

/// Relies on base32::decode with the unpadded RFC 4648 alphabet, which
/// totp_rs's Secret::Encoded(..).to_bytes() calls.
#[verifier::external_body]
fn decode_secret(s: &String) -> (r: Result<Vec<u8>, totp_rs::SecretParseError>)
    ensures
        match r {
            Ok(key) => base32_decoded(s@) == Some(key@),
            Err(_) => base32_decoded(s@) is None,
        },
{
    totp_rs::Secret::Encoded(s.clone()).to_bytes()
}

/// Relies on totp_rs::TOTP::new: it accepts 6 to 8 digits and a secret of at
/// least 16 bytes, refuses anything else, and sets the generator's fields to
/// the values given.
#[verifier::external_body]
fn new_totp(algorithm: HashAlgorithm, digits: usize, skew: u8, step: u64, secret: Vec<u8>) -> (r: Result<totp_rs::TOTP, totp_rs::TotpUrlError>)
    ensures
        r is Ok <==> generator_accepts(digits, secret@),
        r matches Ok(t) ==> {
            &&& t.algorithm == totp_algorithm(algorithm)
            &&& t.digits == digits
            &&& t.skew == skew
            &&& t.step == step
            &&& t.secret@ == secret@
        },
{
    let algorithm = match algorithm {
        HashAlgorithm::Sha1 => totp_rs::Algorithm::SHA1,
        HashAlgorithm::Sha256 => totp_rs::Algorithm::SHA256,
        HashAlgorithm::Sha512 => totp_rs::Algorithm::SHA512,
    };
    totp_rs::TOTP::new(algorithm, digits, skew, step, secret)
}

/// The hash function `name` stands for: `SHA1`, `SHA256` or `SHA512`.
pub fn parse_algorithm(name: &String) -> (r: Option<HashAlgorithm>)
    ensures
        r == algorithm_named(name@),
{
    if *name == String::from_str("SHA1") {
        Some(HashAlgorithm::Sha1)
    } else if *name == String::from_str("SHA256") {
        Some(HashAlgorithm::Sha256)
    } else if *name == String::from_str("SHA512") {
        Some(HashAlgorithm::Sha512)
    } else {
        None
    }
}

/// Turns each TOTP record into a generator, in order, skipping records of
/// other types. The first TOTP record with an unknown algorithm, a secret
/// that is not base32, or parameters the generator refuses fails the whole
/// call.
pub fn build_generators(accounts: Vec<Account>) -> (r: Result<Vec<(Account, totp_rs::TOTP)>, ImportError>)
    ensures
        match r {
            Ok(out) => first_failure(accounts@) is None && generators_for(accounts@, out@),
            Err(e) => failure_of(e) is Some && first_failure(accounts@) == failure_of(e),
        },
{
    let ghost all = accounts@;
    let mut rest = accounts;
    let mut out: Vec<(Account, totp_rs::TOTP)> = Vec::new();
    let ghost mut k: int = 0;
    while rest.len() > 0
        invariant
            all == accounts@,
            0 <= k <= all.len(),
            rest@ == all.subrange(k, all.len() as int),
            first_failure(all.take(k)) is None,
            generators_for(all.take(k), out@),
        decreases rest.len(),
    {
        let acct = rest.remove(0);
        proof {
            assert(all.take(k + 1).drop_last() =~= all.take(k));
            assert(all.take(k + 1).last() == acct);
        }
        if !(acct.totp_type == String::from_str("TOTP")) {
            proof {
                k = k + 1;
            }
            continue;
        }
        let algorithm = match parse_algorithm(&acct.algorithm) {
            Some(a) => a,
            None => {
                proof {
                    lemma_first_failure_prefix(all, k + 1);
                }
                return Err(ImportError::UnknownAlgorithm(acct.algorithm));
            },
        };
        let secret = match decode_secret(&acct.secret) {
            Ok(key) => key,
            Err(e) => {
                proof {
                    lemma_first_failure_prefix(all, k + 1);
                }
                return Err(ImportError::SecretParseError(e));
            },
        };
        let totp = match new_totp(algorithm, acct.digits, TOTP_SKEW, acct.period, secret) {
            Ok(t) => t,
            Err(e) => {
                proof {
                    lemma_first_failure_prefix(all, k + 1);
                }
                return Err(ImportError::TotpError(e));
            },
        };
        out.push((acct, totp));
        proof {
            k = k + 1;
        }
    }
    proof {
        assert(all.take(k) =~= all);
    }
    Ok(out)
}

} // verus!
