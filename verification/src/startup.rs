//! Startup decisions of the daemon binary.
//!
//! The binary itself parses arguments, daemonises and talks to syslog;
//! the decisions those steps rest on — which configuration path to fall
//! back to, and the exact line a fatal error logs — are made here.

use vstd::prelude::*;

verus! {

/// The path the daemon falls back to when the command line names no
/// configuration file.
pub fn default_conf_path() -> (r: &'static str)
    ensures
        r@ == "/etc/snare/snare.conf"@,
{
    "/etc/snare/snare.conf"
}

/// Where to read the configuration when the command line named no path:
/// the default location, if it exists as a file. The caller, which can
/// look at the filesystem, passes whether it does.
pub fn search_snare_conf(default_present: bool) -> (r: Option<String>)
    ensures
        default_present ==> (r matches Some(p) && p@ == "/etc/snare/snare.conf"@),
        !default_present ==> r is None,
{
    if default_present {
        Some(String::from_str(default_conf_path()))
    } else {
        None
    }
}

/// The one line a fatal error logs before the process exits: the context
/// message with the error's own text appended.
pub fn fatal_err(msg: &str, err: &str) -> (r: String)
    ensures
        r@ == msg@ + ": "@ + err@,
{
    let mut s = String::from_str(msg);
    s.append(": ");
    s.append(err);
    proof {
        assert(s@ =~= msg@ + ": "@ + err@);
    }
    s
}

} // verus!
