//! Errors reported by the socket layer.

use vstd::prelude::*;

verus! {

/// An error of a socket operation.
#[derive(Clone, Copy, Debug, PartialEq, Eq, Structural)]
pub enum Error {
    /// The operating system reported this error code for the call.
    Os(i32),
    /// An argument was refused before any call was made: a timeout of zero
    /// length cannot be set.
    InvalidInput,
}

} // verus!
