use vstd::prelude::*;

verus! {

/// Chooses the master password: an explicitly supplied non-empty password
/// wins; otherwise the password found in the caller's environment, if any,
/// is used.
pub fn get_password(args_password: String, env_password: Option<String>) -> (r: Option<String>)
    ensures
        args_password@.len() > 0 ==> (r matches Some(p) && p@ == args_password@),
        args_password@.len() == 0 ==> r == env_password,
{
    if args_password.as_str().unicode_len() == 0 {
        env_password
    } else {
        Some(args_password)
    }
}

} // verus!
