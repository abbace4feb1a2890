//! Turns the body of Rust functions into a Problem Analysis Diagram (PAD)
//! tree and encodes that tree as JSON for a diagram renderer.
//!
//! The syntax tree comes from an outside parser, converted into the plain
//! model of [`syntax`]; [`mapper`] maps it onto the node algebra of [`pad`],
//! and [`encoder`] writes the wire format.

pub mod encoder;
pub mod laws;
pub mod mapper;
pub mod pad;
pub mod program;
pub mod syntax;

use vstd::prelude::*;

verus! {

/// Sum of two unsigned integers.
pub fn add(left: u64, right: u64) -> (r: u64)
    requires
        left + right <= u64::MAX,
    ensures
        r == left + right,
{
    left + right
}

} // verus!
