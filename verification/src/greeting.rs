//! The `greet` command endpoint: a pure formatting function.

use vstd::prelude::*;
use vstd::string::StringExecFns;

verus! {

/// The greeting returned for a caller-supplied name.
pub open spec fn greeting_of(name: Seq<char>) -> Seq<char> {
    "Hello, "@ + name + "! You've been greeted from Rust!"@
}

/// Wraps the supplied name in the fixed greeting. Pure and deterministic:
/// the result is exactly `greeting_of(name@)`.
pub fn greet(name: &str) -> (r: String)
    ensures
        r@ == greeting_of(name@),
{
    let mut r = String::from_str("Hello, ");
    r.append(name);
    r.append("! You've been greeted from Rust!");
    r
}

} // verus!
