//! Settings that the bridge is started with.

use vstd::prelude::*;

verus! {

/// What the process is configured with at start. Read-only afterwards.
pub struct CliArgs {
    /// Be verbose.
    pub verbose: bool,
    /// Address the file-transfer server listens on.
    pub listen: String,
    /// The one user name that may log in.
    pub username: String,
    /// The password of that user.
    pub password: String,
    /// Base URL of the archive.
    pub paperless_url: String,
    /// API token for the archive.
    pub paperless_api_token: String,
}

/// The log filter that the verbosity flag selects.
pub open spec fn log_filter_of(verbose: bool) -> Seq<char> {
    if verbose {
        "debug"@
    } else {
        "info"@
    }
}

impl CliArgs {
    /// The log filter to install: `debug` when verbose, `info` otherwise.
    pub fn log_filter(&self) -> (filter: &'static str)
        ensures
            filter@ == log_filter_of(self.verbose),
    {
        if self.verbose {
            "debug"
        } else {
            "info"
        }
    }
}

} // verus!
