//! A document model for two-dimensional vector diagrams.
//!
//! A [`DataModel`](datamodel::DataModel) owns pages and the lines and arcs
//! drawn on them, hands out identifiers, and is changed through reversible
//! commands that a history can take back one step at a time.
use vstd::prelude::*;

pub mod scalar;
pub mod text;
pub mod words;
pub mod table;
pub mod registry;
pub mod ident;
pub mod node;
pub mod page;
pub mod line;
pub mod arc;
pub mod drawable;
pub mod datamodel;
pub mod snapshot;
pub mod command;
pub mod pagecommand;
pub mod linecommand;
pub mod arccommand;
pub mod exportcommand;
pub mod commandhandler;
pub mod arguments;
pub mod commandline;
pub mod shell;
pub mod session;
pub mod laws;

verus! {

/// The sum of two counts.
pub fn add(left: u64, right: u64) -> (sum: u64)
    requires
        left + right <= u64::MAX,
    ensures
        sum == left + right,
{
    left + right
}

} // verus!
