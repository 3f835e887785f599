use vstd::prelude::*;

use argon2::password_hash::PasswordHasher;
use argon2::password_hash::PasswordVerifier;

verus! {

/// The PHC record that the memory-hard hashing primitive, run with its
/// default parameters, produces for this password and this B64 salt string.
/// The record is a function of the two arguments alone; nothing here states
/// what it is on given values.
pub uninterp spec fn hash_record_of(password: Seq<char>, salt: Seq<char>) -> Seq<char>;

/// A character of the unpadded B64 alphabet the salt is encoded in.
pub open spec fn is_salt_char(c: char) -> bool {
    ||| 'a' <= c <= 'z'
    ||| 'A' <= c <= 'Z'
    ||| '0' <= c <= '9'
    ||| c == '+'
    ||| c == '/'
}

/// A freshly generated salt string: 16 random bytes, B64-encoded as exactly
/// 22 characters of the B64 alphabet. In particular it holds no newline.
/// The encoding is canonical: 21 characters carry 126 of the 128 bits, so the
/// last character holds only two payload bits and its low four bits are zero —
/// it is one of `A`, `Q`, `g`, `w`. A strict B64 decoder rejects any other
/// trailing character.
pub open spec fn salt_ok(s: Seq<char>) -> bool {
    &&& s.len() == 22
    &&& forall|i: int| 0 <= i < s.len() ==> is_salt_char(#[trigger] s[i])
    &&& (s[21] == 'A' || s[21] == 'Q' || s[21] == 'g' || s[21] == 'w')
}

/// A well-formed password-hash record: non-empty and newline-free, as the PHC
/// string format guarantees of every record the hashing primitive emits.
pub open spec fn record_ok(r: Seq<char>) -> bool {
    r.len() > 0 && forall|i: int| 0 <= i < r.len() ==> #[trigger] r[i] != '\n'
}

/// The record carries the salt verbatim, directly after the 31 characters
/// that the fixed algorithm identifier, version and default cost parameters
/// serialize to (`$argon2id$v=19$m=19456,t=2,p=1$`). The salt can therefore
/// be read back out of the record, so records of distinct salts differ.
pub open spec fn record_embeds_salt(record: Seq<char>, salt: Seq<char>) -> bool {
    record.len() >= 31 + salt.len() && record.subrange(31, 31 + salt.len() as int) == salt
}

/// Fresh salts give fresh records: two records that embed distinct salts of
/// equal length differ as well, even when both were hashed from the same
/// password. With this, two successful vault initializations — whose freshly
/// generated salts differ — write headers that differ not only in their salt
/// line but also in their password-hash record.
pub proof fn lemma_distinct_salts_distinct_records(
    r1: Seq<char>,
    s1: Seq<char>,
    r2: Seq<char>,
    s2: Seq<char>,
)
    requires
        record_embeds_salt(r1, s1),
        record_embeds_salt(r2, s2),
        s1.len() == s2.len(),
        s1 != s2,
    ensures
        r1 != r2,
{
    if r1 == r2 {
        assert(r1.subrange(31, 31 + s1.len() as int) == r2.subrange(31, 31 + s2.len() as int));
    }
}

/// Relies on `password_hash::SaltString::generate` over the operating
/// system's secure random source: the salt is 16 random bytes, canonically
/// B64-encoded as 22 characters drawn from `A`-`Z`, `a`-`z`, `0`-`9`, `+` and
/// `/`, the last one of `A`, `Q`, `g`, `w` (the encoder emits no stray
/// trailing bits). Nothing relates one generated salt to another: each call
/// may return anything that satisfies `salt_ok`.
#[verifier::external_body]
pub(crate) fn generate_salt() -> (r: String)
    ensures
        salt_ok(r@),
{
    let salt = argon2::password_hash::SaltString::generate(&mut argon2::password_hash::rand_core::OsRng);
    salt.as_str().to_string()
}

/// Relies on `password_hash::Salt::from_b64` (which accepts every `salt_ok`
/// string, and converts the argument for the call) and on
/// `Argon2::hash_password` with default parameters: hashing is deterministic
/// in the password and the salt, succeeds for every canonically encoded
/// `salt_ok` salt (the strict B64 decoder rejects stray trailing bits, hence
/// the last-character clause of `salt_ok`) and every password under the
/// algorithm's four-gigabyte limit, and serializes as a non-empty,
/// newline-free PHC record that embeds the salt verbatim after the fixed
/// textual prefix of the default parameters.
#[verifier::external_body]
pub(crate) fn hash_password(password: &str, salt: &str) -> (r: Result<String, String>)
    ensures
        r matches Ok(h) ==> h@ == hash_record_of(password@, salt@) && record_ok(h@)
            && record_embeds_salt(h@, salt@),
        salt_ok(salt@) && password@.len() < 0x4000_0000 ==> r is Ok,
{
    let salt_val = match argon2::password_hash::Salt::from_b64(salt) {
        Ok(s) => s,
        Err(e) => {
            return Err(e.to_string());
        },
    };
    match argon2::Argon2::default().hash_password(password.as_bytes(), salt_val) {
        Ok(h) => Ok(h.to_string()),
        Err(e) => Err(e.to_string()),
    }
}

/// What verifying a password against a stored record can report.
pub enum VerifyOutcome {
    /// The record was produced by hashing exactly this password.
    Match,
    /// The record is well formed but belongs to a different password.
    Mismatch,
    /// The record could not be parsed or verified at all; carries the reason.
    Failure(String),
}

/// Relies on `password_hash::PasswordHash::new` and
/// `Argon2::verify_password`: a record the hashing primitive produced for a
/// password parses back, and re-hashing with the salt and parameters embedded
/// in it matches the stored digest exactly when the password is the one it
/// was produced from. Both clauses are bounded because verification re-hashes
/// the supplied password, and a password over the algorithm's four-gigabyte
/// limit makes that re-hash fail rather than mismatch. Of a record that no
/// hashing call produced, nothing is promised: any outcome may come back.
#[verifier::external_body]
pub(crate) fn check_password(password: &str, record: &str) -> (r: VerifyOutcome)
    ensures
        forall|salt: Seq<char>|
            salt_ok(salt) && record@ == #[trigger] hash_record_of(password@, salt)
                && password@.len() < 0x4000_0000 ==> r is Match,
        forall|other: Seq<char>, salt: Seq<char>|
            salt_ok(salt) && record@ == #[trigger] hash_record_of(other, salt) && other != password@
                && password@.len() < 0x4000_0000 ==> r is Mismatch,
{
    let parsed = match argon2::password_hash::PasswordHash::new(record) {
        Ok(p) => p,
        Err(e) => {
            return VerifyOutcome::Failure(e.to_string());
        },
    };
    match argon2::Argon2::default().verify_password(password.as_bytes(), &parsed) {
        Ok(()) => VerifyOutcome::Match,
        Err(argon2::password_hash::Error::Password) => VerifyOutcome::Mismatch,
        Err(e) => VerifyOutcome::Failure(e.to_string()),
    }
}

} // verus!
