//! Where the dashboard finds the snapshots of the coordinator.

use vstd::prelude::*;
use vstd::string::StringExecFns;

verus! {

/// The host that is asked where none is given.
pub open spec fn spec_default_hostname() -> Seq<char> {
    "192.168.71.1"@
}

/// The URL of the snapshot stream on `hostname`.
pub open spec fn spec_ws_url(hostname: Seq<char>) -> Seq<char> {
    "ws://"@ + hostname + "/state"@
}

/// The URL under which the coordinator streams its snapshots: on the given host,
/// or on the default host where none is given.
pub fn ws_url_from_hostname(hostname: Option<&str>) -> (url: String)
    ensures
        url@ == spec_ws_url(
            match hostname {
                Some(h) => h@,
                None => spec_default_hostname(),
            },
        ),
{
    let h = match hostname {
        Some(h) => h,
        None => "192.168.71.1",
    };
    let mut url = String::from_str("ws://");
    url.append(h);
    url.append("/state");
    url
}

} // verus!
