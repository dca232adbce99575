//! What can go wrong when serving a request.

use vstd::prelude::*;

verus! {

/// The ways in which a single request fails. None of them touches the state
/// of other documents.
#[derive(Clone, Copy, Debug, PartialEq, Eq, Structural)]
pub enum ServerError {
    /// The document is not in the store: never opened, or already closed.
    NotFound,
    /// An offset taken from a tree does not lie within the current text.
    PositionOutOfRange,
    /// A change event came without the full text of the document.
    MalformedEvent,
}

} // verus!
