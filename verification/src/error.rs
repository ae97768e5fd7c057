//! The ways in which an operation of this library can fail.

use vstd::prelude::*;
use vstd::string::StringExecFns;

verus! {

/// A failure that is handed back to the caller. None of them leaves a tenant's state
/// changed.
#[derive(Clone, Copy, Debug, PartialEq, Eq, Structural)]
pub enum Error {
    /// An event was emitted in a state that it presupposes otherwise: the end of a
    /// track while no track is playing.
    UsageViolation,
    /// A position past the end of the queue.
    IndexOutOfRange,
    /// The user who asked for playback is in no voice channel.
    NoVoiceChannel,
    /// The playback engine could not join the voice channel.
    ConnectError,
    /// The catalogue found nothing to play for a query.
    ResolutionError,
}

impl Error {
    /// The sentence that describes the failure.
    pub open spec fn spec_message(self) -> Seq<char> {
        match self {
            Error::UsageViolation => "No track is playing"@,
            Error::IndexOutOfRange => "No track at that position in the queue"@,
            Error::NoVoiceChannel => "Could not retrieve voice channel"@,
            Error::ConnectError => "Failed to connect to voice channel"@,
            Error::ResolutionError => "No tracks found!"@,
        }
    }

    /// The sentence that describes the failure.
    pub fn message(&self) -> (text: String)
        ensures
            text@ == self.spec_message(),
    {
        match self {
            Error::UsageViolation => String::from_str("No track is playing"),
            Error::IndexOutOfRange => String::from_str("No track at that position in the queue"),
            Error::NoVoiceChannel => String::from_str("Could not retrieve voice channel"),
            Error::ConnectError => String::from_str("Failed to connect to voice channel"),
            Error::ResolutionError => String::from_str("No tracks found!"),
        }
    }
}

} // verus!
