//! The ways in which an event can fail.

use vstd::prelude::*;

verus! {

/// Why an event had no effect. Every failure concerns one room and one
/// participant.
#[derive(Debug, Clone, Copy, PartialEq, Eq, Structural)]
pub enum ErrorKind {
    /// The credential is missing, invalid or expired.
    AuthenticationFailure,
    /// The payload cannot be read as an event of its type.
    MalformedEvent,
    /// The event names a room that is not known.
    UnknownRoom,
    /// The event names a story that is not the one being estimated.
    UnknownStory,
    /// The acting participant has no account.
    UnknownUser,
    /// The durable write did not complete.
    PersistenceFailure,
    /// The write to a participant's channel failed.
    TransportFailure,
}

} // verus!
