//! A trivial greeting, kept as a connectivity smoke-test for the host
//! program: it exercises the call path into the library and nothing else.

use vstd::prelude::*;
use vstd::string::StringExecFns;

verus! {

/// The greeting shown to confirm the backend answers.
pub fn greet(name: &str) -> (r: String)
    ensures
        r@ == "Hello, "@ + name@ + "! You've been greeted from Rust!"@,
{
    let mut s = "Hello, ".to_owned();
    s.append(name);
    s.append("! You've been greeted from Rust!");
    s
}

} // verus!
