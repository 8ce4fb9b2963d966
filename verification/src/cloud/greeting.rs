//! The greeting the cloud service's window offers its front end.

use vstd::prelude::*;

verus! {

/// Greets `name` from the Rust side.
pub fn greet(name: &str) -> (g: String)
    ensures
        g@ == "你好, "@ + name@ + "! 来自 Rust 的问候!"@,
{
    let mut g = "你好, ".to_owned();
    g.append(name);
    g.append("! 来自 Rust 的问候!");
    g
}

} // verus!
