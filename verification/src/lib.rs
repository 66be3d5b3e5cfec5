//! An interactive, terminal-based selector for picking one item from a short,
//! recency-ordered list of branch names.
//!
//! The crate holds the pure selection engine: the byte-stream key decoder, the
//! scrollable list model with its selection and scrolling invariants, the
//! renderer (a pure function from model state to display instructions), the
//! confirm/cancel state machine, and the parser for the raw branch listing.
//! Terminal I/O, raw-mode toggling and the external branch commands live in a
//! thin shell around this library.

use vstd::prelude::*;

pub mod controller;
pub mod keys;
pub mod model;
pub mod parse;
pub mod render;

verus! {

/// Most candidates ever kept in a list.
pub const MAX_BRANCHES: usize = 200;

/// Number of rows of the visible window in the default configuration.
pub const NO_OF_VISIBLE_BRANCHES: usize = 5;

} // verus!
