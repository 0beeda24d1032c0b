//! The contract code types.

use vstd::prelude::*;

verus! {

/// The phase of a contract that the code being emitted belongs to.
#[derive(Debug, Clone, Copy, PartialEq, Eq, Structural, Hash)]
pub enum CodeType {
    /// The deploy code, which the constructor runs.
    Deploy,
    /// The runtime code, which the selector runs.
    Runtime,
}

} // verus!
