use vstd::prelude::*;
use vstd::string::StringExecFns;

verus! {

/// The path prefix of every route.
pub const ROOT: &'static str = "/api/v1";

/// Route that opens a session.
pub const START_SESSION: &'static str = "/start-session";

/// Route for authentication, sends and configuration.
pub const SEND: &'static str = "/send";

/// Route that drains the mailbox.
pub const FLUSH_MAILBOX: &'static str = "/flush-mailbox";

/// Route of the socket transport.
pub const WEBSOCKET: &'static str = "/socket";

/// The full address of `route` on `host`: the host, then the root prefix,
/// then the route.
pub fn build_route(host: &str, route: &str) -> (r: String)
    ensures
        r@ == host@ + ROOT@ + route@,
{
    let r = String::from_str(host);
    let r = r.concat(ROOT);
    r.concat(route)
}

} // verus!
