//! The ways in which resolution fails. Every one of them is fatal for the
//! entity that is being resolved.

use vstd::prelude::*;

verus! {

/// Why an entity could not be resolved.
#[derive(Clone, Copy, Debug, PartialEq, Eq, Structural)]
pub enum ResolveError {
    /// An object reference is absent, names a container that is not loaded,
    /// or points outside its container.
    ReferenceError,
    /// An object lacks the attribute bag that the algorithm reads.
    SchemaGapError,
    /// A reference string is not of the form `<container-path>.<index>`.
    IndexParseError,
}

impl ResolveError {
    /// A one-line description for diagnostics.
    pub fn message(&self) -> (r: &'static str)
        ensures
            r@ == match *self {
                ResolveError::ReferenceError => "unresolvable object reference"@,
                ResolveError::SchemaGapError => "object without attribute bag"@,
                ResolveError::IndexParseError => "malformed object reference"@,
            },
    {
        match self {
            ResolveError::ReferenceError => "unresolvable object reference",
            ResolveError::SchemaGapError => "object without attribute bag",
            ResolveError::IndexParseError => "malformed object reference",
        }
    }
}

} // verus!
