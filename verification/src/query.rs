//! The capability contract for request values.

use vstd::prelude::*;

use crate::error::Error;

verus! {

/// A value that can be freshly, fallibly constructed and then handed to a
/// protocol to initiate a request.
///
/// Construction is the only lifecycle operation defined at this layer;
/// protocol-specific population of query parameters belongs to the concrete
/// implementation.
pub trait Query: Sized {
    /// The implementation's query-construction error data.
    type E;

    /// Creates a new query.
    ///
    /// Fails with [`Error::QueryError`], wrapping `Self::E`, when the query
    /// cannot be constructed in a valid state; the concrete implementation
    /// defines the specific conditions.
    fn new() -> Result<Self, Error<Self::E>>;
}

} // verus!
