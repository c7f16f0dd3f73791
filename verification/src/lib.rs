use vstd::prelude::*;

pub mod directory;
pub mod launcher;
mod messages;

verus! {

/// The greeting the backend returns for a caller-supplied name.
pub fn greet(name: &str) -> (r: String)
    ensures
        r@ == "Hello, "@ + name@ + "! You've been greeted from Rust!"@,
{
    let hello = String::from_str("Hello, ").concat(name);
    hello.concat("! You've been greeted from Rust!")
}

} // verus!
