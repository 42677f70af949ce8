//! What a session is opened with: the endpoint and the capabilities.
use vstd::prelude::*;
use crate::digits::{decimal, push_decimal};

verus! {

/// The capabilities document sent when a session is negotiated: one key that
/// selects the engine's options, and under it the browser's arguments when
/// any are requested.
#[derive(Debug, Clone)]
pub struct Capabilities {
    pub engine_key: String,
    pub args: Option<Vec<String>>,
}

/// The arguments that ask the browser to run without a window.
pub open spec fn headless_args() -> Seq<Seq<char>> {
    seq!["--headless"@]
}

/// Capabilities for the browser: the argument list is attached exactly when
/// the browser is to run headless.
pub fn capabilities(headless: bool) -> (r: Capabilities)
    ensures
        r.engine_key@ == "moz:firefoxOptions"@,
        headless <==> r.args is Some,
        headless ==> r.args->0@.map_values(|a: String| a@) == headless_args(),
{
    let args = if headless {
        let mut v: Vec<String> = Vec::new();
        v.push(String::from_str("--headless"));
        assert(v@.map_values(|a: String| a@) =~= headless_args());
        Some(v)
    } else {
        None
    };
    Capabilities { engine_key: String::from_str("moz:firefoxOptions"), args }
}

/// The address of the server listening on `port` on this machine.
pub open spec fn endpoint_of(port: u16) -> Seq<char> {
    "http://localhost:"@ + decimal(port as nat)
}

/// The address a session is opened against: `http://localhost:<port>`.
pub fn endpoint_url(port: u16) -> (r: String)
    ensures
        r@ == endpoint_of(port),
{
    let mut out = String::from_str("http://localhost:");
    push_decimal(&mut out, port);
    out
}

} // verus!
