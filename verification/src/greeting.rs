//! Construction of a greeting string for a given name.

use vstd::prelude::*;
use vstd::string::StringExecFns;

verus! {

/// The greeting text for `name`: the word `Hello`, a space, the name, and an
/// exclamation mark.
pub open spec fn greeting_of(name: Seq<char>) -> Seq<char> {
    "Hello "@ + name + "!"@
}

/// Returns a newly allocated greeting string of the form `Hello <name>!`.
pub fn greet(name: &str) -> (r: String)
    ensures
        r@ == greeting_of(name@),
{
    let mut r = String::from_str("Hello ");
    r.append(name);
    r.append("!");
    r
}

} // verus!
