//! The capability contract for parsed server data.

use vstd::prelude::*;

use crate::error::Error;

verus! {

/// A value that represents parsed, received server data.
///
/// Concrete implementations extend this type with read-only accessors for
/// parsed fields. A response must be safe to pass between concurrent
/// contexts, hence the `Send + Sync` bounds.
pub trait Response: Send + Sync + Sized {
    /// The implementation's response-construction error data.
    type E;

    /// Creates a new, default response.
    ///
    /// Fails with [`Error::ResponseError`], wrapping `Self::E`, when a
    /// response cannot be constructed; the concrete implementation defines
    /// the specific conditions.
    fn new() -> Result<Self, Error<Self::E>>;
}

} // verus!
