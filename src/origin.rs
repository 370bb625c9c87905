use vstd::prelude::*;

use crate::text::{decimal, decimal_text};

verus! {

/// The HTTP origin at which the UI reaches the bridge.
pub open spec fn origin_for(port: u16) -> Seq<char> {
    "http://127.0.0.1:"@ + decimal(port as nat)
}

/// The bridge's loopback origin for `port`.
pub fn bridge_origin(port: u16) -> (r: String)
    ensures
        r@ == origin_for(port),
{
    String::from_str("http://127.0.0.1:").concat(decimal_text(port as u64).as_str())
}

/// The script that hands the bridge's origin to the UI.
pub fn origin_script(port: u16) -> (r: String)
    ensures
        r@ == "window.__BRIDGE_ORIGIN__ = '"@ + origin_for(port) + "';"@,
{
    String::from_str("window.__BRIDGE_ORIGIN__ = '").concat(bridge_origin(port).as_str()).concat("';")
}

} // verus!
