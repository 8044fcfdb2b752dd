//! Rendering of raw enumerated kernel codes as fixed, greppable names.
//!
//! The mapping is total: a code outside the documented range renders as an
//! explicit unknown marker, never as an error and never as the raw byte.

use vstd::prelude::*;

verus! {

/// The canonical name of a TCP connection state byte; codes outside the
/// documented range 0..=11 render as the unknown marker.
pub open spec fn spec_state_name(state: u8) -> Seq<char> {
    if state == 0 {
        "CLOSED"@
    } else if state == 1 {
        "LISTEN"@
    } else if state == 2 {
        "SYN_SENT"@
    } else if state == 3 {
        "SYN_RECEIVED"@
    } else if state == 4 {
        "ESTABLISHED"@
    } else if state == 5 {
        "_CLOSE_WAIT"@
    } else if state == 6 {
        "FIN_WAIT_1"@
    } else if state == 7 {
        "CLOSING"@
    } else if state == 8 {
        "LAST_ACK"@
    } else if state == 9 {
        "FIN_WAIT_2"@
    } else if state == 10 {
        "TIME_WAIT"@
    } else if state == 11 {
        "RESERVED"@
    } else {
        "<unknown>"@
    }
}

/// The canonical name of the IP-version flag; 1 is IPv4, 2 is IPv6, anything
/// else renders as the unknown marker.
pub open spec fn spec_vflag_name(vflag: u8) -> Seq<char> {
    if vflag == 1 {
        "IPV4"@
    } else if vflag == 2 {
        "IPV6"@
    } else {
        "<unknown>"@
    }
}

/// The name of a known TCP connection state, or `None` for a code outside
/// the documented range.
pub fn state_to_name(state: u8) -> (r: Option<&'static str>)
    ensures
        r is Some <==> state <= 11,
        r matches Some(n) ==> n@ == spec_state_name(state),
{
    match state {
        0 => Some("CLOSED"),
        1 => Some("LISTEN"),
        2 => Some("SYN_SENT"),
        3 => Some("SYN_RECEIVED"),
        4 => Some("ESTABLISHED"),
        5 => Some("_CLOSE_WAIT"),
        6 => Some("FIN_WAIT_1"),
        7 => Some("CLOSING"),
        8 => Some("LAST_ACK"),
        9 => Some("FIN_WAIT_2"),
        10 => Some("TIME_WAIT"),
        11 => Some("RESERVED"),
        _ => None,
    }
}

/// Total rendering of a state byte: the canonical name, or the unknown
/// marker for a code outside the documented range.
pub fn state_label(state: u8) -> (r: &'static str)
    ensures
        r@ == spec_state_name(state),
{
    match state_to_name(state) {
        Some(n) => n,
        None => "<unknown>",
    }
}

/// Total rendering of the IP-version flag.
pub fn vflag_label(vflag: u8) -> (r: &'static str)
    ensures
        r@ == spec_vflag_name(vflag),
{
    match vflag {
        1 => "IPV4",
        2 => "IPV6",
        _ => "<unknown>",
    }
}

/// The canonical name of a state code read as a full-width integer, as the
/// socket-info record stores it; anything outside 0..=255 is unknown
/// outright, the rest follow the byte mapping.
pub open spec fn spec_state_name_code(state: i32) -> Seq<char> {
    if 0 <= state <= 255 {
        spec_state_name(state as u8)
    } else {
        "<unknown>"@
    }
}

/// Total rendering of a full-width state code.
pub fn state_label_code(state: i32) -> (r: &'static str)
    ensures
        r@ == spec_state_name_code(state),
{
    if 0 <= state && state <= 255 {
        state_label(state as u8)
    } else {
        "<unknown>"
    }
}

/// The fixed set of documented state names.
pub open spec fn documented_state_names() -> Set<Seq<char>> {
    set![
        "CLOSED"@,
        "LISTEN"@,
        "SYN_SENT"@,
        "SYN_RECEIVED"@,
        "ESTABLISHED"@,
        "_CLOSE_WAIT"@,
        "FIN_WAIT_1"@,
        "CLOSING"@,
        "LAST_ACK"@,
        "FIN_WAIT_2"@,
        "TIME_WAIT"@,
        "RESERVED"@,
    ]
}

/// Every state byte renders either as one of the documented names or as the
/// unknown marker: no raw code is ever exposed unmapped.
pub proof fn lemma_state_name_allowlisted(state: u8)
    ensures
        documented_state_names().contains(spec_state_name(state)) || spec_state_name(state)
            == "<unknown>"@,
{
}

/// Every IP-version flag renders either as a documented name or as the
/// unknown marker.
pub proof fn lemma_vflag_name_allowlisted(vflag: u8)
    ensures
        spec_vflag_name(vflag) == "IPV4"@ || spec_vflag_name(vflag) == "IPV6"@ || spec_vflag_name(
            vflag,
        ) == "<unknown>"@,
{
}

} // verus!
