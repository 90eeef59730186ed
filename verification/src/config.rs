//! Where the service listens and what it logs at startup.

use vstd::prelude::*;

verus! {

/// The port the listener binds to.
pub const BIND_PORT: u16 = 8080;

/// The host address the listener binds to.
pub open spec fn bind_host_text() -> Seq<char> {
    "127.0.0.1"@
}

/// The single line logged when the service starts.
pub open spec fn startup_log_text() -> Seq<char> {
    "Starting the server at http://127.0.0.1:8080/"@
}

/// The address the listener binds to: host and port.
pub fn bind_addr() -> (r: (&'static str, u16))
    ensures
        r.0@ == bind_host_text(),
        r.1 == BIND_PORT,
{
    ("127.0.0.1", BIND_PORT)
}

/// The log line emitted once, before the listener starts.
pub fn startup_log_line() -> (r: &'static str)
    ensures
        r@ == startup_log_text(),
{
    "Starting the server at http://127.0.0.1:8080/"
}

} // verus!
