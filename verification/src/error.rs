//! The failures that the core reports to its callers.
use vstd::prelude::*;

verus! {

/// Why an operation of the core was refused.
#[derive(Clone, Copy, Debug, PartialEq, Eq, Structural)]
pub enum Error {
    /// A kind name was registered again with another payload size, or a
    /// payload of the wrong size was offered for an entity.
    TypeMismatch,
    /// An entity of that name already exists in the kind's namespace.
    DuplicateName,
    /// No live entity answers to that name and kind, or to that handle.
    NotFound,
    /// A configuration value was malformed and has not been staged.
    InvalidConfig,
}

} // verus!
