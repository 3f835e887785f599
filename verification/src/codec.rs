use vstd::prelude::*;
use vstd::string::StrSliceExecFns;
use vstd::string::StringExecFns;

use crate::error::FileError;

verus! {

/// The fixed literal that opens every vault file.
pub open spec fn magic() -> Seq<char> {
    "PAPM-Vault"@
}

/// The index of the first newline in `s`, or -1 if `s` holds none.
pub open spec fn first_newline(s: Seq<char>) -> int
    decreases s.len(),
{
    if s.len() == 0 {
        -1
    } else if s[0] == '\n' {
        0
    } else if first_newline(s.skip(1)) < 0 {
        -1
    } else {
        first_newline(s.skip(1)) + 1
    }
}

/// Splits `s` at its first newline into the line before it and the remainder
/// after it, or nothing if `s` holds no newline.
pub open spec fn split_line(s: Seq<char>) -> Option<(Seq<char>, Seq<char>)> {
    if first_newline(s) < 0 {
        None
    } else {
        Some((s.take(first_newline(s)), s.skip(first_newline(s) + 1)))
    }
}

/// The three-line header written at the start of a vault file: the magic
/// literal, the password-hash record, and the salt, each newline-terminated.
pub open spec fn header_text(record: Seq<char>, salt: Seq<char>) -> Seq<char> {
    magic() + seq!['\n'] + record + seq!['\n'] + salt + seq!['\n']
}

/// Whether `s` decodes as a vault header: a first line that is exactly the
/// magic literal, followed by at least one further newline-terminated line.
pub open spec fn decode_ok(s: Seq<char>) -> bool {
    &&& split_line(s) is Some
    &&& split_line(s)->Some_0.0 == magic()
    &&& split_line(split_line(s)->Some_0.1) is Some
}

/// The password-hash record of a decodable header: its second line.
pub open spec fn decoded_record(s: Seq<char>) -> Seq<char>
    recommends
        decode_ok(s),
{
    split_line(split_line(s)->Some_0.1)->Some_0.0
}

/// The salt of a decodable header: its third line, if one is present.
pub open spec fn decoded_salt(s: Seq<char>) -> Option<Seq<char>>
    recommends
        decode_ok(s),
{
    match split_line(split_line(split_line(s)->Some_0.1)->Some_0.1) {
        Some(p) => Some(p.0),
        None => None,
    }
}

proof fn lemma_first_newline_at(s: Seq<char>, i: int)
    requires
        0 <= i < s.len(),
        s[i] == '\n',
        forall|k: int| 0 <= k < i ==> s[k] != '\n',
    ensures
        first_newline(s) == i,
    decreases i,
{
    if i > 0 {
        assert(s.skip(1)[i - 1] == '\n');
        assert(forall|k: int| 0 <= k < i - 1 ==> s.skip(1)[k] == s[k + 1] && s[k + 1] != '\n');
        lemma_first_newline_at(s.skip(1), i - 1);
    }
}

proof fn lemma_first_newline_none(s: Seq<char>)
    requires
        forall|k: int| 0 <= k < s.len() ==> s[k] != '\n',
    ensures
        first_newline(s) == -1,
    decreases s.len(),
{
    if s.len() > 0 {
        assert(forall|k: int| 0 <= k < s.len() - 1 ==> s.skip(1)[k] == s[k + 1] && s[k + 1] != '\n');
        lemma_first_newline_none(s.skip(1));
    }
}

/// An encoded header decodes back to exactly the fields it was built from:
/// for every newline-free record and salt, `header_text(record, salt)` is
/// accepted by the decoder, its record is `record`, and its salt is `salt`.
pub proof fn lemma_header_round_trip(record: Seq<char>, salt: Seq<char>)
    requires
        forall|i: int| 0 <= i < record.len() ==> record[i] != '\n',
        forall|i: int| 0 <= i < salt.len() ==> salt[i] != '\n',
    ensures
        decode_ok(header_text(record, salt)),
        decoded_record(header_text(record, salt)) == record,
        decoded_salt(header_text(record, salt)) == Some(salt),
{
    let h = header_text(record, salt);
    reveal_strlit("PAPM-Vault");
    assert(magic().len() == 10);
    assert forall|k: int| 0 <= k < 10 implies h[k] != '\n' by {
        assert(h[k] == magic()[k]);
    }
    assert(h[10] == '\n');
    lemma_first_newline_at(h, 10);
    assert(h.take(10) =~= magic());
    let rest1 = h.skip(11);
    assert(rest1 =~= record + seq!['\n'] + salt + seq!['\n']);
    let rl = record.len() as int;
    assert forall|k: int| 0 <= k < rl implies rest1[k] != '\n' by {
        assert(rest1[k] == record[k]);
    }
    assert(rest1[rl] == '\n');
    lemma_first_newline_at(rest1, rl);
    assert(rest1.take(rl) =~= record);
    let rest2 = rest1.skip(rl + 1);
    assert(rest2 =~= salt + seq!['\n']);
    let sl = salt.len() as int;
    assert forall|k: int| 0 <= k < sl implies rest2[k] != '\n' by {
        assert(rest2[k] == salt[k]);
    }
    assert(rest2[sl] == '\n');
    lemma_first_newline_at(rest2, sl);
    assert(rest2.take(sl) =~= salt);
}

/// Splits `data` at its first newline, returning the line before it and the
/// remainder after it, or nothing if `data` holds no newline.
pub fn get_next_line(data: &str) -> (r: Option<(String, String)>)
    ensures
        r matches Some(p) ==> split_line(data@) == Some((p.0@, p.1@)),
        r is None ==> split_line(data@) is None,
{
    let n = data.unicode_len();
    let mut i: usize = 0;
    while i < n
        invariant
            i <= n,
            n == data@.len(),
            forall|k: int| 0 <= k < i ==> data@[k] != '\n',
        decreases n - i,
    {
        if data.get_char(i) == '\n' {
            proof {
                lemma_first_newline_at(data@, i as int);
            }
            let line = data.substring_char(0, i);
            let rest = data.substring_char(i + 1, n);
            return Some((String::from_str(line), String::from_str(rest)));
        }
        i += 1;
    }
    proof {
        lemma_first_newline_none(data@);
    }
    None
}

/// A decoded vault header. The magic line is implicit: decoding only succeeds
/// when it matches, so only the remaining fields are carried.
pub struct VaultHeader {
    /// The self-describing password-hash record stored on the second line.
    pub password_hash: String,
    /// The salt stored on the third line; a header without one still decodes,
    /// since verification needs only the magic and the record.
    pub salt: Option<String>,
}

/// Serializes a vault header: the magic literal, the password-hash record and
/// the salt, in that fixed order, each followed by a single newline. The
/// fields are written as given; they are expected not to hold newlines
/// themselves, which both the record format and the salt encoding guarantee.
pub fn encode_header(password_hash: &str, salt: &str) -> (r: String)
    ensures
        r@ == header_text(password_hash@, salt@),
{
    let mut out = String::from_str("PAPM-Vault\n");
    out.append(password_hash);
    out.append("\n");
    out.append(salt);
    out.append("\n");
    proof {
        reveal_strlit("PAPM-Vault\n");
        reveal_strlit("PAPM-Vault");
        reveal_strlit("\n");
        assert(out@ =~= header_text(password_hash@, salt@));
    }
    out
}

/// Parses the start of a vault file. Fails with `InvalidFileError` if no
/// newline-terminated first line is present, if that line is not exactly the
/// magic literal, or if no second line follows it; the salt line is optional.
pub fn decode_header(data: &str) -> (r: Result<VaultHeader, FileError>)
    ensures
        r is Ok <==> decode_ok(data@),
        r matches Ok(h) ==> {
            &&& h.password_hash@ == decoded_record(data@)
            &&& (h.salt matches Some(s) ==> decoded_salt(data@) == Some(s@))
            &&& (h.salt is Some <==> decoded_salt(data@) is Some)
        },
        r matches Err(e) ==> e is InvalidFileError,
{
    let (line0, rest) = match get_next_line(data) {
        Some(p) => p,
        None => {
            return Err(FileError::InvalidFileError);
        },
    };
    let expected = String::from_str("PAPM-Vault");
    if !(line0 == expected) {
        return Err(FileError::InvalidFileError);
    }
    let (record, rest2) = match get_next_line(rest.as_str()) {
        Some(p) => p,
        None => {
            return Err(FileError::InvalidFileError);
        },
    };
    let salt = match get_next_line(rest2.as_str()) {
        Some(p) => Some(p.0),
        None => None,
    };
    Ok(VaultHeader { password_hash: record, salt })
}

} // verus!
