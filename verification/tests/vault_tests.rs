use papm::error::FileError;
use papm::hashing::VerifyOutcome;
use papm::utils::get_password;
use papm::vault::{is_affirmative, needs_overwrite_confirmation, verification_result, Vault};

const READY: &str = " -> Vault configured and ready!";
const MISMATCH: &str =
    " -> The vault seems to be configured, but was not created with the current password.";

fn lines(file: &str) -> Vec<&str> {
    file.split('\n').collect()
}

#[test]
fn initialize_empty_file_then_unlock_scenario() {
    let mut file = String::new();
    let v = Vault::new(String::from("abc123"), &mut file, None);
    assert!(v.is_ok());

    // a 3-line header, starting with the magic literal
    assert!(file.starts_with("PAPM-Vault\n"));
    let parts = lines(&file);
    assert_eq!(parts.len(), 4, "three newline-terminated lines");
    assert_eq!(parts[3], "");

    // unlocking with the same password reports the ready status
    let u = Vault::open(String::from("abc123"), &file);
    assert_eq!(u.unwrap(), READY);

    // unlocking with a wrong password is informational, not an error
    let w = Vault::open(String::from("wrong"), &file);
    assert_eq!(w.unwrap(), MISMATCH);
}

#[test]
fn initialize_writes_argon2id_record_and_b64_salt() {
    let mut file = String::new();
    Vault::new(String::from("pw"), &mut file, None).map(|_| ()).unwrap();
    let parts = lines(&file);
    let record = parts[1];
    let salt = parts[2];
    assert!(record.starts_with("$argon2id$v=19$m=19456,t=2,p=1$"));
    assert_eq!(salt.len(), 22);
    assert!(salt
        .chars()
        .all(|c| c.is_ascii_alphanumeric() || c == '+' || c == '/'));
    // canonical B64 of 16 bytes: the last character carries only two payload
    // bits, so only these four can close a decodable salt
    let last = salt.chars().last().unwrap();
    assert!(last == 'A' || last == 'Q' || last == 'g' || last == 'w');
    // the salt written on the third line is embedded verbatim in the record,
    // directly after the 31-character parameter prefix
    assert_eq!(&record[31..31 + salt.len()], salt);
    assert_eq!(record.as_bytes()[31 + salt.len()], b'$');
}

#[test]
fn initialize_nonempty_file_declined_leaves_it_unchanged() {
    let before = "precious data, no newline";
    for answer in [None, Some(""), Some("n"), Some("no\n"), Some("yes\n"), Some("Y E S")] {
        let mut file = String::from(before);
        let r = Vault::new(String::from("pw"), &mut file, answer);
        assert!(matches!(r, Err(FileError::CanceledError)));
        assert_eq!(file, before, "declined overwrite must not touch a byte");
    }
}

#[test]
fn initialize_nonempty_file_confirmed_overwrites() {
    for answer in ["y", "Y", "y\n", "  Y  \n"] {
        let mut file = String::from("old contents\nmore\n");
        let r = Vault::new(String::from("pw"), &mut file, Some(answer));
        assert!(r.is_ok());
        assert!(file.starts_with("PAPM-Vault\n"));
        let u = Vault::open(String::from("pw"), &file);
        assert_eq!(u.unwrap(), READY);
    }
}

#[test]
fn initialize_twice_gives_different_salts_and_records() {
    let mut file = String::new();
    Vault::new(String::from("same-password"), &mut file, None).map(|_| ()).unwrap();
    let first = file.clone();
    Vault::new(String::from("same-password"), &mut file, Some("y\n")).map(|_| ()).unwrap();
    let second = file.clone();

    let first_parts: Vec<String> = lines(&first).iter().map(|s| s.to_string()).collect();
    let second_parts: Vec<String> = lines(&second).iter().map(|s| s.to_string()).collect();
    assert_ne!(first_parts[1], second_parts[1], "records must differ");
    assert_ne!(first_parts[2], second_parts[2], "salts must differ");
}

#[test]
fn unlock_round_trip_with_another_password() {
    let mut file = String::new();
    Vault::new(String::from("s3cr3t!"), &mut file, None).map(|_| ()).unwrap();
    assert_eq!(Vault::open(String::from("s3cr3t!"), &file).unwrap(), READY);
    assert_eq!(Vault::open(String::from("s3cr3t"), &file).unwrap(), MISMATCH);
    assert_eq!(Vault::open(String::from(""), &file).unwrap(), MISMATCH);
}

#[test]
fn unlock_non_vault_file_fails_with_invalid_format() {
    let r = Vault::open(String::from("whatever"), "NOT-A-VAULT\n");
    assert!(matches!(r, Err(FileError::InvalidFileError)));
    let r = Vault::open(String::from("another"), "NOT-A-VAULT\n");
    assert!(matches!(r, Err(FileError::InvalidFileError)));
}

#[test]
fn unlock_garbage_record_fails_with_hashing_error() {
    let r = Vault::open(
        String::from("pw"),
        "PAPM-Vault\nnot-a-phc-record\nsalt\n",
    );
    assert!(matches!(r, Err(FileError::PasswordHashError(_))));
}

#[test]
fn unlock_empty_file_fails_with_invalid_format() {
    let r = Vault::open(String::from("pw"), "");
    assert!(matches!(r, Err(FileError::InvalidFileError)));
}

#[test]
fn affirmation_accepts_only_a_lone_case_insensitive_y() {
    for yes in ["y", "Y", "y\n", "Y\r\n", "  y", "y  ", "\ty\t"] {
        assert!(is_affirmative(yes), "{yes:?} should affirm");
    }
    for no in ["", "\n", "n", "no", "yes", "yy", "x y", "y n", "z"] {
        assert!(!is_affirmative(no), "{no:?} should decline");
    }
}

#[test]
fn confirmation_needed_exactly_for_nonempty_files() {
    assert!(!needs_overwrite_confirmation(""));
    assert!(needs_overwrite_confirmation("x"));
    assert!(needs_overwrite_confirmation("PAPM-Vault\n"));
}

#[test]
fn password_from_args_wins_over_environment() {
    assert_eq!(
        get_password(String::from("pw"), Some(String::from("envpw"))),
        Some(String::from("pw"))
    );
    assert_eq!(get_password(String::from("pw"), None), Some(String::from("pw")));
    assert_eq!(
        get_password(String::new(), Some(String::from("envpw"))),
        Some(String::from("envpw"))
    );
    assert_eq!(get_password(String::new(), None), None);
}

#[test]
fn verification_outcomes_map_one_to_one() {
    assert_eq!(verification_result(VerifyOutcome::Match).unwrap(), READY);
    assert_eq!(verification_result(VerifyOutcome::Mismatch).unwrap(), MISMATCH);
    let r = verification_result(VerifyOutcome::Failure(String::from("bad record")));
    match r {
        Err(FileError::PasswordHashError(m)) => assert_eq!(m, "bad record"),
        _ => panic!("a verification failure must surface as a hashing error"),
    }
}

#[test]
fn error_messages_name_the_failure() {
    assert_eq!(FileError::CanceledError.message(), "Operation canceled");
    assert_eq!(FileError::InvalidFileError.message(), "Invalid file.");
    assert_eq!(
        FileError::BadFileDescriptorError(String::from("bad fd")).message(),
        "The file couldn't be read: bad fd"
    );
    assert_eq!(
        FileError::ReadError(String::from("boom")).message(),
        "Error reading file: boom"
    );
    assert_eq!(
        FileError::PasswordHashError(String::from("bad record")).message(),
        "Error hashing password: bad record"
    );
}
