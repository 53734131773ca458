//! A bridge that renders email templates by running a script bundle in an
//! embedded engine. The library holds the decisions of that bridge: the
//! one-time engine start-up, the order of the fallible steps of one render,
//! the error each step yields, and the marshalling of text across the
//! foreign-function boundary.
use vstd::prelude::*;

pub mod engine;
pub mod error;
pub mod marshal;
pub mod render;

verus! {

} // verus!
