//! The per-run configuration, resolved once from process inputs and passed
//! explicitly to everything that needs it.
use vstd::prelude::*;

verus! {

/// One run's configuration: credentials, the account to mirror, the page
/// size, the mode flags, and where files go.
#[derive(Debug)]
pub struct Config {
    pub bearer_token: String,
    pub username: String,
    pub count: u8,
    pub reset_marker: bool,
    pub download_all: bool,
    pub output_dir: String,
}

} // verus!
