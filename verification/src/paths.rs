//! The deterministic paths a run uses: every file for an account lives
//! under `<output_dir>/<username>/`, and the checkpoint file is named
//! `checkpoint` in that directory.
use vstd::prelude::*;
use vstd::string::*;

verus! {

/// The directory an account's media and checkpoint live under:
/// `<output_dir>/<username>`. The caller creates it (idempotently) before
/// any read or write beneath it.
pub fn get_user_output_dir(output_dir: &str, username: &str) -> (r: String)
    ensures
        r@ == output_dir@ + "/"@ + username@,
{
    let mut s = String::from_str(output_dir);
    s.append("/");
    s.append(username);
    proof {
        assert(s@ =~= output_dir@ + "/"@ + username@);
    }
    s
}

/// The path of the checkpoint file inside an account's output directory.
pub fn get_user_checkpoint_file_path(user_output_dir: &str) -> (r: String)
    ensures
        r@ == user_output_dir@ + "/checkpoint"@,
{
    let mut s = String::from_str(user_output_dir);
    s.append("/checkpoint");
    s
}

} // verus!
