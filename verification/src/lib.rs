//! Capture-and-run engine: context providers, their registry, the phased
//! pipeline that drives them, and the identity, layout and bookkeeping of one
//! run of a user command.
//!
//! The library performs no I/O. Whatever must be read from or done to the
//! machine is handed out as a request and handed back as an observation, so
//! every decision in here is a function of plain values.
use vstd::prelude::*;

pub mod builtin;
pub mod captured;
pub mod config;
pub mod context;
pub mod cwd;
pub mod error;
pub mod file;
pub mod git;
pub mod json;
pub mod path;
pub mod pipeline;
pub mod registry;
pub mod run;
pub mod shell;
pub mod stamp;
pub mod text;

verus! {

/// The views of the items of a sequence, in the same order.
pub open spec fn views<T: View>(items: Seq<T>) -> Seq<T::V> {
    Seq::new(items.len(), |i: int| items[i]@)
}

} // verus!
