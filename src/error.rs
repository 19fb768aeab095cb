use vstd::prelude::*;

verus! {

/// What can go wrong when talking to the service.
#[derive(Debug, Clone, PartialEq, Eq)]
pub enum Error {
    /// The operation acts on a room, and no room code was given.
    MissingRoomCode,
    /// The request produced no response.
    Transport(String),
    /// A response came back but could not be read as the expected record.
    MalformedResponse(String),
}

} // verus!
