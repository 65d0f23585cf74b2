//! How the command's verbosity maps to a log filter.

use vstd::prelude::*;

verus! {

/// The default log filter for `verbose` uses of `-v`, when `RUST_LOG` is
/// set or not: none at all (progress lines instead) for a quiet run without
/// `RUST_LOG`; `warn` whenever `RUST_LOG` is set (it then decides); else
/// `info`, `info` with debug output of this crate, or `debug` throughout.
pub open spec fn log_filter_spec(verbose: u8, env_set: bool) -> Option<Seq<char>> {
    if verbose == 0 && !env_set {
        None
    } else if env_set {
        Some("warn"@)
    } else if verbose == 1 {
        Some("info"@)
    } else if verbose == 2 {
        Some("info,pacman_bintrans=debug"@)
    } else {
        Some("debug"@)
    }
}

/// The default log filter, as `log_filter_spec` gives it.
pub fn log_filter(verbose: u8, env_set: bool) -> (r: Option<String>)
    ensures
        match log_filter_spec(verbose, env_set) {
            Some(f) => r matches Some(s) && s@ == f,
            None => r is None,
        },
{
    if verbose == 0 && !env_set {
        None
    } else if env_set {
        Some(String::from_str("warn"))
    } else if verbose == 1 {
        Some(String::from_str("info"))
    } else if verbose == 2 {
        Some(String::from_str("info,pacman_bintrans=debug"))
    } else {
        Some(String::from_str("debug"))
    }
}

} // verus!
