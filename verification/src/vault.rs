use vstd::prelude::*;
use vstd::string::StrSliceExecFns;
use vstd::string::StringExecFns;

use crate::codec::decode_header;
use crate::codec::decode_ok;
use crate::codec::decoded_record;
use crate::codec::encode_header;
use crate::codec::header_text;
use crate::codec::lemma_header_round_trip;
use crate::error::FileError;
use crate::hashing::check_password;
use crate::hashing::generate_salt;
use crate::hashing::hash_password;
use crate::hashing::hash_record_of;
use crate::hashing::record_embeds_salt;
use crate::hashing::record_ok;
use crate::hashing::salt_ok;
use crate::hashing::VerifyOutcome;

verus! {

/// An ASCII whitespace character, as stripped from around a confirmation
/// answer before it is examined. Only ASCII whitespace is stripped — the
/// blanks, tabs and line ends a line read from a terminal can carry; an
/// answer padded with exotic Unicode whitespace declines, by choice.
pub open spec fn is_space(c: char) -> bool {
    c == ' ' || c == '\t' || c == '\n' || c == '\r'
}

/// `s` without its leading whitespace.
pub open spec fn drop_leading_spaces(s: Seq<char>) -> Seq<char>
    decreases s.len(),
{
    if s.len() > 0 && is_space(s[0]) {
        drop_leading_spaces(s.skip(1))
    } else {
        s
    }
}

/// `s` without its trailing whitespace.
pub open spec fn drop_trailing_spaces(s: Seq<char>) -> Seq<char>
    decreases s.len(),
{
    if s.len() > 0 && is_space(s[s.len() - 1]) {
        drop_trailing_spaces(s.take(s.len() - 1))
    } else {
        s
    }
}

/// Whether a raw confirmation answer affirms the destructive overwrite: once
/// surrounding whitespace is stripped, a lone case-insensitive `y` and
/// nothing else — any other answer, the empty one included, declines.
pub open spec fn affirms(s: Seq<char>) -> bool {
    drop_trailing_spaces(drop_leading_spaces(s)) == seq!['y']
        || drop_trailing_spaces(drop_leading_spaces(s)) == seq!['Y']
}

proof fn lemma_drop_leading_spaces_at(s: Seq<char>, i: int)
    requires
        0 <= i <= s.len(),
        forall|k: int| 0 <= k < i ==> is_space(s[k]),
        i == s.len() || !is_space(s[i]),
    ensures
        drop_leading_spaces(s) == s.skip(i),
    decreases i,
{
    if i == 0 {
        assert(s.skip(0) =~= s);
    } else {
        assert(forall|k: int| 0 <= k < i - 1 ==> s.skip(1)[k] == s[k + 1] && is_space(s[k + 1]));
        if i < s.len() {
            assert(s.skip(1)[i - 1] == s[i]);
        }
        lemma_drop_leading_spaces_at(s.skip(1), i - 1);
        assert(s.skip(1).skip(i - 1) =~= s.skip(i));
    }
}

proof fn lemma_drop_trailing_spaces_at(s: Seq<char>, j: int)
    requires
        0 <= j <= s.len(),
        forall|k: int| j <= k < s.len() ==> is_space(s[k]),
        j == 0 || !is_space(s[j - 1]),
    ensures
        drop_trailing_spaces(s) == s.take(j),
    decreases s.len() - j,
{
    if j == s.len() {
        assert(s.take(j) =~= s);
    } else {
        assert(forall|k: int| j <= k < s.len() - 1 ==> s.take(s.len() - 1)[k] == s[k]);
        lemma_drop_trailing_spaces_at(s.take(s.len() - 1), j);
        assert(s.take(s.len() - 1).take(j) =~= s.take(j));
    }
}

fn space_at(input: &str, k: usize) -> (r: bool)
    requires
        k < input@.len(),
    ensures
        r == is_space(input@[k as int]),
{
    let c = input.get_char(k);
    c == ' ' || c == '\t' || c == '\n' || c == '\r'
}

/// Decides whether a raw confirmation answer, whitespace stripped, is a lone
/// case-insensitive `y`.
pub fn is_affirmative(input: &str) -> (r: bool)
    ensures
        r == affirms(input@),
{
    let ghost s = input@;
    let n = input.unicode_len();
    let mut i: usize = 0;
    while i < n && space_at(input, i)
        invariant
            i <= n,
            n == s.len(),
            s == input@,
            forall|k: int| 0 <= k < i ==> is_space(s[k]),
        decreases n - i,
    {
        i += 1;
    }
    proof {
        lemma_drop_leading_spaces_at(s, i as int);
    }
    if i == n {
        // all whitespace: the trimmed answer is empty
        proof {
            assert(s.skip(i as int) =~= Seq::<char>::empty());
            lemma_drop_trailing_spaces_at(Seq::<char>::empty(), 0);
            assert(drop_trailing_spaces(drop_leading_spaces(s)).len() == 0);
        }
        return false;
    }
    let mut j: usize = n - 1;
    while j > i && space_at(input, j)
        invariant
            i <= j < n,
            n == s.len(),
            s == input@,
            !is_space(s[i as int]),
            forall|k: int| j < k < n ==> is_space(s[k]),
        decreases j,
    {
        j -= 1;
    }
    // s[j] is the last character of the trimmed answer
    proof {
        let t = s.skip(i as int);
        assert(forall|k: int| 0 <= k < t.len() ==> t[k] == s[k + i]);
        lemma_drop_trailing_spaces_at(t, j - i + 1);
        assert(drop_trailing_spaces(drop_leading_spaces(s)) == t.take(j - i + 1));
    }
    let c = input.get_char(i);
    let r = j == i && (c == 'y' || c == 'Y');
    proof {
        let trimmed = drop_trailing_spaces(drop_leading_spaces(s));
        if j == i {
            assert(trimmed =~= seq![s[i as int]]);
        } else {
            assert(trimmed.len() > 1);
        }
        if trimmed == seq!['y'] || trimmed == seq!['Y'] {
            assert(trimmed.len() == 1);
            assert(trimmed[0] == s[i as int]);
        }
    }
    r
}

proof fn lemma_salt_has_no_newline(salt: Seq<char>)
    requires
        salt_ok(salt),
    ensures
        forall|i: int| 0 <= i < salt.len() ==> salt[i] != '\n',
{
}

/// Round trip: a vault freshly initialized with a master password unlocks
/// with that same password. The header `Vault::new` writes for the password
/// and its generated salt decodes, and its record is exactly that password's
/// hash record — so by `Vault::open`'s contract, unlocking it with the same
/// password reports the ready status.
pub proof fn lemma_unlock_after_initialize_ready(password: Seq<char>, salt: Seq<char>)
    requires
        salt_ok(salt),
        record_ok(hash_record_of(password, salt)),
    ensures
        decode_ok(header_text(hash_record_of(password, salt), salt)),
        decoded_record(header_text(hash_record_of(password, salt), salt)) == hash_record_of(
            password,
            salt,
        ),
{
    lemma_salt_has_no_newline(salt);
    lemma_header_round_trip(hash_record_of(password, salt), salt);
}

/// Wrong credential is informational, not an error: a vault freshly
/// initialized with one master password, unlocked with a different one,
/// reports the distinct mismatch status. The written header still decodes
/// (so `Vault::open` does not fail), its record is the first password's hash
/// record and not the second's — so by `Vault::open`'s contract the unlock
/// returns the mismatch status, which differs from the ready status.
pub proof fn lemma_unlock_with_other_password_mismatch(
    password: Seq<char>,
    other: Seq<char>,
    salt: Seq<char>,
)
    requires
        salt_ok(salt),
        record_ok(hash_record_of(password, salt)),
        other != password,
    ensures
        decode_ok(header_text(hash_record_of(password, salt), salt)),
        decoded_record(header_text(hash_record_of(password, salt), salt)) == hash_record_of(
            password,
            salt,
        ),
        ready_message() != mismatch_message(),
{
    lemma_salt_has_no_newline(salt);
    lemma_header_round_trip(hash_record_of(password, salt), salt);
    lemma_status_messages_distinct();
}

proof fn lemma_status_messages_distinct()
    ensures
        ready_message() != mismatch_message(),
{
    reveal_strlit(" -> Vault configured and ready!");
    reveal_strlit(
        " -> The vault seems to be configured, but was not created with the current password.",
    );
    assert(ready_message().len() != mismatch_message().len());
}

/// An in-memory vault handle: the master password held for the duration of
/// the operation. The caller keeps the file itself; the password is never
/// written anywhere, only its hash record is.
pub struct Vault {
    password: String,
}

/// Whether a collected confirmation answer affirms the overwrite: one must
/// have been collected at all, and it must affirm.
pub open spec fn confirmation_affirms(c: Option<&str>) -> bool {
    c matches Some(s) && affirms(s@)
}

/// The status reported when the stored record verifies against the supplied
/// master password.
pub open spec fn ready_message() -> Seq<char> {
    " -> Vault configured and ready!"@
}

/// The informational status reported when the vault is well formed but was
/// not created with the supplied master password. Deliberately not an error:
/// it tells a wrong credential apart from a broken file.
pub open spec fn mismatch_message() -> Seq<char> {
    " -> The vault seems to be configured, but was not created with the current password."@
}

/// Maps a verification outcome to `Vault::open`'s result, one variant to one
/// result: a match is the ready status, a mismatch the informational
/// wrong-password status, and only a record that could not be parsed or
/// verified at all is an error. This pins the corrupt-vault versus
/// wrong-credential distinction: a failed verification can never surface as
/// the mismatch status, nor a mismatch as an error.
pub fn verification_result(outcome: VerifyOutcome) -> (r: Result<String, FileError>)
    ensures
        outcome is Match ==> (r matches Ok(m) && m@ == ready_message()),
        outcome is Mismatch ==> (r matches Ok(m) && m@ == mismatch_message()),
        outcome matches VerifyOutcome::Failure(f) ==> (r matches Err(e) && e
            matches FileError::PasswordHashError(g) && g@ == f@),
{
    match outcome {
        VerifyOutcome::Match => Ok(String::from_str(" -> Vault configured and ready!")),
        VerifyOutcome::Mismatch => Ok(
            String::from_str(
                " -> The vault seems to be configured, but was not created with the current password.",
            ),
        ),
        VerifyOutcome::Failure(m) => Err(FileError::PasswordHashError(m)),
    }
}

/// Whether a non-empty target file needs the user's confirmation before
/// `Vault::new` may overwrite it.
pub fn needs_overwrite_confirmation(file: &str) -> (r: bool)
    ensures
        r == (file@.len() > 0),
{
    file.unicode_len() > 0
}

impl Vault {
    /// The master password this handle was created with.
    pub closed spec fn password_view(&self) -> Seq<char> {
        self.password@
    }

    /// Creates and configures a new vault in `file`, whose current contents
    /// the caller hands over. A non-empty file is only overwritten when the
    /// collected confirmation answer affirms it; otherwise the operation is
    /// canceled and the contents stay untouched, to the last byte. On success
    /// the file holds exactly the three-line header: the magic literal, the
    /// password-hash record for a freshly generated random salt, and that
    /// salt.
    pub fn new(password: String, file: &mut String, confirmation: Option<&str>) -> (r: Result<
        Vault,
        FileError,
    >)
        ensures
            (r matches Err(e) && e is CanceledError) <==> !(old(file)@.len() == 0
                || confirmation_affirms(confirmation)),
            r is Err ==> final(file)@ == old(file)@,
            r matches Err(e) ==> e is CanceledError || e is PasswordHashError,
            (old(file)@.len() == 0 || confirmation_affirms(confirmation)) && password@.len()
                < 0x4000_0000 ==> r is Ok,
            r matches Ok(v) ==> v.password_view() == password@ && (exists|salt: Seq<char>|
                #[trigger] salt_ok(salt) && record_ok(hash_record_of(password@, salt))
                    && record_embeds_salt(hash_record_of(password@, salt), salt)
                    && final(file)@ == header_text(hash_record_of(password@, salt), salt)),
    {
        if needs_overwrite_confirmation(file.as_str()) {
            let confirmed = match confirmation {
                Some(answer) => is_affirmative(answer),
                None => false,
            };
            if !confirmed {
                return Err(FileError::CanceledError);
            }
        }
        let salt = generate_salt();
        let record = match hash_password(password.as_str(), salt.as_str()) {
            Ok(h) => h,
            Err(m) => {
                return Err(FileError::PasswordHashError(m));
            },
        };
        let header = encode_header(record.as_str(), salt.as_str());
        *file = header;
        Ok(Vault { password })
    }

    /// Opens an already configured vault whose contents the caller read from
    /// the file. Decodes the header, then verifies the master password
    /// against the stored record: a match reports the ready status, a well
    /// formed record made from another password reports the informational
    /// mismatch status, and only a header or record that cannot be read at
    /// all is an error.
    pub fn open(password: String, file: &str) -> (r: Result<String, FileError>)
        ensures
            (r matches Err(e) && e is InvalidFileError) <==> !decode_ok(file@),
            r matches Err(e) ==> e is InvalidFileError || e is PasswordHashError,
            r matches Ok(m) ==> m@ == ready_message() || m@ == mismatch_message(),
            forall|salt: Seq<char>|
                salt_ok(salt) && decode_ok(file@) && decoded_record(file@)
                    == #[trigger] hash_record_of(password@, salt) && password@.len() < 0x4000_0000
                    ==> (r matches Ok(m) && m@ == ready_message()),
            forall|other: Seq<char>, salt: Seq<char>|
                salt_ok(salt) && decode_ok(file@) && decoded_record(file@)
                    == #[trigger] hash_record_of(other, salt) && other != password@
                    && password@.len() < 0x4000_0000 ==> (r matches Ok(m) && m@
                    == mismatch_message()),
    {
        let header = match decode_header(file) {
            Ok(h) => h,
            Err(e) => {
                return Err(e);
            },
        };
        let outcome = check_password(password.as_str(), header.password_hash.as_str());
        verification_result(outcome)
    }
}


} // verus!
