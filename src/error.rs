//! What can go wrong while redoing a page.
use vstd::prelude::*;

verus! {

#[derive(Clone, Copy, Debug, PartialEq, Eq, Structural)]
pub enum RedoError {
    /// The external process could not be started.
    LaunchFailure,
    /// One I/O operation with the process exceeded its deadline.
    Timeout,
    /// A pipe to the process failed or was closed.
    StreamFailure,
    /// A base image was not exactly one page long, or a record too long to
    /// be framed.
    ProtocolPrecondition,
}

} // verus!
