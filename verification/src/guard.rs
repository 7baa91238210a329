//! Access guard for the diagnostics endpoint.
//!
//! The guard has two states decided per request: when no static token is
//! configured the endpoint is open and every request is permitted (an
//! explicit fail-open choice); when a token is configured, a request is
//! permitted exactly when it presents a bearer credential equal to the
//! configured token. A missing or mismatched credential is rejected.

use crate::strutil::str_eq;
use vstd::prelude::*;

verus! {

/// What the guard decides, over the character sequences of the configured
/// token and of the presented credential.
pub open spec fn spec_guard(configured: Option<Seq<char>>, presented: Option<Seq<char>>) -> bool {
    match configured {
        None => true,
        Some(t) => presented == Some(t),
    }
}

/// View of an optional string as an optional character sequence.
pub open spec fn opt_str_view(o: Option<&String>) -> Option<Seq<char>> {
    match o {
        None => None,
        Some(s) => Some(s@),
    }
}

/// Decides whether a request may access the diagnostics endpoint.
pub fn guard_check(configured: Option<&String>, presented: Option<&String>) -> (r: bool)
    ensures
        r == spec_guard(opt_str_view(configured), opt_str_view(presented)),
{
    match configured {
        None => true,
        Some(t) => match presented {
            None => false,
            Some(p) => str_eq(t.as_str(), p.as_str()),
        },
    }
}

} // verus!
