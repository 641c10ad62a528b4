//! The kinds of failure that the client reports.

use vstd::prelude::*;

verus! {

/// Why an operation of the client failed.
#[derive(Clone, Copy, Debug, PartialEq, Eq, Structural)]
pub enum ClientError {
    /// The node could not be reached, or answered with an error status
    /// other than "not found".
    TransportError,
    /// The node answered that what was asked for does not exist.
    NotFound,
    /// The node answered, but not in the shape that was expected.
    DecodeError,
    /// A value could not be put into its wire form.
    EncodingError,
}

} // verus!
