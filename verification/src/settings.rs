//! Where the program connects to.
use vstd::prelude::*;

verus! {

/// The websocket URI used when none is configured.
pub open spec fn default_ws_uri_spec() -> Seq<char> {
    "ws://localhost:3000/ws"@
}

/// The websocket URI used when none is configured: `ws://localhost:3000/ws`.
pub fn default_ws_uri() -> (uri: String)
    ensures
        uri@ == default_ws_uri_spec(),
{
    "ws://localhost:3000/ws".to_owned()
}

/// The websocket URI to connect to: the configured one if there is one,
/// else the default.
pub fn ws_uri(configured: Option<String>) -> (uri: String)
    ensures
        match configured {
            Some(configured) => uri == configured,
            None => uri@ == default_ws_uri_spec(),
        },
{
    match configured {
        Some(configured) => configured,
        None => default_ws_uri(),
    }
}

} // verus!
