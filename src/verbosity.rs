use vstd::prelude::*;

verus! {

/// The log filter for the given counts of `--quiet` and `--verbose` flags.
/// Quiet flags win only when no verbose flag is given.
pub open spec fn filter_for(quiet: u8, verbose: u8) -> Seq<char> {
    if verbose == 0 {
        if quiet == 0 {
            "warn,ssh_keyonly=info"@
        } else if quiet == 1 {
            "warn"@
        } else {
            "error"@
        }
    } else if verbose == 1 {
        "info,ssh_keyonly=debug"@
    } else if verbose == 2 {
        "debug"@
    } else if verbose == 3 {
        "debug,ssh_keyonly=trace"@
    } else {
        "trace"@
    }
}

/// Maps the verbosity flags to a log filter directive.
pub fn log_filter(quiet: u8, verbose: u8) -> (r: &'static str)
    ensures
        r@ == filter_for(quiet, verbose),
{
    if verbose == 0 {
        if quiet == 0 {
            "warn,ssh_keyonly=info"
        } else if quiet == 1 {
            "warn"
        } else {
            "error"
        }
    } else if verbose == 1 {
        "info,ssh_keyonly=debug"
    } else if verbose == 2 {
        "debug"
    } else if verbose == 3 {
        "debug,ssh_keyonly=trace"
    } else {
        "trace"
    }
}

} // verus!
