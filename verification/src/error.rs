use vstd::prelude::*;
use vstd::string::StringExecFns;

verus! {

/// The failures a vault operation can report.
///
/// A wrong password during `Vault::open` is deliberately *not* an error: it is
/// reported as an informational status string, so that callers can tell a
/// broken vault file apart from a credential that merely does not match.
#[derive(Debug)]
pub enum FileError {
    /// The user declined the destructive overwrite of a non-empty file.
    CanceledError,
    /// The file's header is not a well-formed vault header.
    InvalidFileError,
    /// The file could not be probed at all; carries the underlying reason.
    BadFileDescriptorError(String),
    /// Reading or writing the file failed; carries the underlying reason.
    ReadError(String),
    /// The password-hashing primitive rejected a record or its parameters;
    /// carries the underlying reason.
    PasswordHashError(String),
}

impl FileError {
    /// A human-readable description of the failure.
    pub fn message(&self) -> (r: String)
        ensures
            self is CanceledError ==> r@ == "Operation canceled"@,
            self is InvalidFileError ==> r@ == "Invalid file."@,
            self matches FileError::BadFileDescriptorError(m) ==> r@ == "The file couldn't be read: "@ + m@,
            self matches FileError::ReadError(m) ==> r@ == "Error reading file: "@ + m@,
            self matches FileError::PasswordHashError(m) ==> r@ == "Error hashing password: "@ + m@,
    {
        match self {
            FileError::CanceledError => String::from_str("Operation canceled"),
            FileError::InvalidFileError => String::from_str("Invalid file."),
            FileError::BadFileDescriptorError(m) => String::from_str("The file couldn't be read: ").concat(m.as_str()),
            FileError::ReadError(m) => String::from_str("Error reading file: ").concat(m.as_str()),
            FileError::PasswordHashError(m) => String::from_str("Error hashing password: ").concat(m.as_str()),
        }
    }
}

} // verus!
