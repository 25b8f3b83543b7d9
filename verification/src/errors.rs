//! The error taxonomy of the library.

use vstd::prelude::*;

verus! {

/// Everything that can go wrong while building or driving a transition.
#[derive(Debug)]
pub enum RPiError {
    /// Malformed construction arguments, detected eagerly and never silently
    /// coerced.  The first field names the input, the second says what was
    /// expected of it.
    InvalidInput(String, String),
    /// The display surface failed to draw a frame.
    DisplayOutputError,
    /// The display interface reported an error, carried through verbatim.
    DisplayInterfaceError(String),
    /// An external cancellation signal won the race against a suspension
    /// point.
    Cancelled,
    /// Waiting for the named operation ran out of time; the second field
    /// gives the timeout in milliseconds.
    Timeout(String, u64),
}

/// Result type with the error fixed to [`RPiError`].
pub type RPiResult<T> = Result<T, RPiError>;

} // verus!
