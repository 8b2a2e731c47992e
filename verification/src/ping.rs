//! The latency probe's reply: the measured round-trip time, formatted for
//! the edited message. The measuring itself is wall-clock work and stays
//! with the caller.

use vstd::prelude::*;
use crate::text::{dec_str, u64_to_string};

verus! {

/// The edited reply's text for a measured round trip.
pub open spec fn ping_text(elapsed_ms: u64) -> Seq<char> {
    ":ping_pong: Pong! `"@ + dec_str(elapsed_ms as nat) + "ms`"@
}

/// Formats the measured round-trip time for the edited reply.
pub fn ping_message(elapsed_ms: u64) -> (r: String)
    ensures
        r@ == ping_text(elapsed_ms),
{
    let mut s = String::new();
    s.append(":ping_pong: Pong! `");
    let digits = u64_to_string(elapsed_ms);
    s.append(digits.as_str());
    s.append("ms`");
    proof {
        assert(s@ =~= ping_text(elapsed_ms));
    }
    s
}

} // verus!
