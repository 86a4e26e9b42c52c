//! The liveness reply.

use vstd::prelude::*;

verus! {

/// The reply to the liveness command.
pub fn run() -> (r: String)
    ensures
        r@ == "\u{1f916} boop! \u{1f916}"@,
{
    "\u{1f916} boop! \u{1f916}".to_owned()
}

} // verus!
