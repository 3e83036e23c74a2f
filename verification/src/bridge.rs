//! Functions offered to the mobile front end.
use vstd::prelude::*;
use vstd::string::StringExecFns;

verus! {

/// The greeting the front end shows to check that the bridge works.
pub fn greet(name: String) -> (r: String)
    ensures
        r@ == "Hello from Rust, "@ + name@ + "!"@,
{
    let mut r = String::from_str("Hello from Rust, ");
    r.append(name.as_str());
    r.append("!");
    r
}

} // verus!
