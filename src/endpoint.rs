//! The fixed network endpoint of the backend, and the statement that makes it
//! visible to the interface's own code.

use vstd::prelude::*;
use vstd::string::StringExecFns;

verus! {

/// Address at which the backend is expected to listen.
pub const BACKEND_ENDPOINT: &'static str = "http://127.0.0.1:8787";

/// Global of the interface's window that holds the endpoint.
pub const ENDPOINT_GLOBAL: &'static str = "window.__PI_API_BASE";

/// The statement run in the interface's window: it assigns the endpoint, as a
/// quoted string, to the global.
pub open spec fn publication_script() -> Seq<char> {
    ENDPOINT_GLOBAL@ + " = '"@ + BACKEND_ENDPOINT@ + "';"@
}

/// Builds the statement that publishes the endpoint to the interface.
pub fn endpoint_script() -> (r: String)
    ensures
        r@ == publication_script(),
{
    let mut s = ENDPOINT_GLOBAL.to_owned();
    s.append(" = '");
    s.append(BACKEND_ENDPOINT);
    s.append("';");
    s
}

} // verus!
