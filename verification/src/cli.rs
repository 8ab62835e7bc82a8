//! The command line's meaning: where the environment is created, and how
//! the verbosity count maps onto a logging filter.

use vstd::prelude::*;

verus! {

/// The parsed command line: the destination directory of the environment,
/// and how many times the verbose flag was given.
#[derive(Debug)]
pub struct Cli {
    pub dest_dir: String,
    pub verbose: u8,
}

/// The default destination directory.
pub fn default_dest_dir() -> (r: &'static str)
    ensures
        r@ == "~/.isoterm"@,
{
    "~/.isoterm"
}

/// The logging filter directive for a verbosity count: none at zero, then
/// ever finer filters, saturating at full tracing.
pub fn log_filter(verbose: u8) -> (r: Option<&'static str>)
    ensures
        match r {
            Some(f) => verbose >= 1 && f@ == (if verbose == 1 {
                "info"@
            } else if verbose == 2 {
                "info,isoterm=debug"@
            } else if verbose == 3 {
                "debug,isoterm=trace"@
            } else {
                "trace"@
            }),
            None => verbose == 0,
        },
{
    if verbose == 0 {
        None
    } else if verbose == 1 {
        Some("info")
    } else if verbose == 2 {
        Some("info,isoterm=debug")
    } else if verbose == 3 {
        Some("debug,isoterm=trace")
    } else {
        Some("trace")
    }
}

} // verus!
