//! The bridge between a tenant's playback and the engine that plays into a voice
//! channel.
//!
//! The engine is spoken to elsewhere. Here stand the decisions: when a voice
//! channel is to be joined, what is set up once it has been joined, what the
//! engine is asked to play or to stop, and what the engine's reports do to the
//! tenant's playback.

use vstd::prelude::*;
use crate::error::Error;
use crate::manager::MusicManager;
use crate::state::{slot_view, ManagerState};
use crate::track::{Track, TrackView};

verus! {

/// A tenant's voice connection. A channel is named by its identifier.
#[derive(Clone, Copy, Debug, PartialEq, Eq, Structural)]
pub enum Connection {
    /// The engine is in no voice channel of the tenant.
    Disconnected,
    /// The engine is to join this channel; its answer is awaited.
    Connecting(u64),
    /// The engine is in this channel.
    Connected(u64),
}

/// What is set up on a voice connection once the channel has been joined.
#[derive(Clone, Copy, Debug, PartialEq, Eq, Structural)]
pub enum Setup {
    /// Have the engine report the end of every track.
    ObserveTrackEnd,
    /// Have the engine report every track that fails.
    ObserveTrackError,
    /// Stop listening to the channel.
    Deafen,
}

/// What the engine reports of the track that it plays.
#[derive(Clone, Copy, Debug, PartialEq, Eq, Structural)]
pub enum EngineEvent {
    /// The track has ended.
    TrackEnd,
    /// The track has failed. That does not say that it has ended.
    TrackError,
}

/// Whether the engine is in a voice channel of the tenant.
pub fn is_connected(connection: Connection) -> (connected: bool)
    ensures
        connected == (connection is Connected),
{
    match connection {
        Connection::Connected(_) => true,
        _ => false,
    }
}

/// The connection once playback has been asked for by a user who is in
/// `voice_channel`. A tenant that is connected stays as it is, whatever the
/// channel. Any other tenant is to join the user's channel, and fails where the
/// user is in none.
pub open spec fn ensured(connection: Connection, voice_channel: Option<u64>) -> Result<
    Connection,
    Error,
> {
    match connection {
        Connection::Connected(_) => Ok(connection),
        _ => match voice_channel {
            Some(channel) => Ok(Connection::Connecting(channel)),
            None => Err(Error::NoVoiceChannel),
        },
    }
}

/// Decides whether a voice channel is to be joined before playback. The answer
/// `Connecting(channel)` asks for the join of that channel; `Connected` asks for
/// nothing.
pub fn ensure_connected(connection: Connection, voice_channel: Option<u64>) -> (outcome: Result<
    Connection,
    Error,
>)
    ensures
        outcome == ensured(connection, voice_channel),
        connection is Connected ==> outcome == Ok::<Connection, Error>(connection),
{
    if is_connected(connection) {
        Ok(connection)
    } else {
        match voice_channel {
            Some(channel) => Ok(Connection::Connecting(channel)),
            None => Err(Error::NoVoiceChannel),
        }
    }
}

/// What is set up on a connection that was just made: both reports of the engine
/// are observed, and the connection is deafened unless it is deaf already.
pub open spec fn setup_for(deaf: bool) -> Seq<Setup> {
    if deaf {
        seq![Setup::ObserveTrackEnd, Setup::ObserveTrackError]
    } else {
        seq![Setup::ObserveTrackEnd, Setup::ObserveTrackError, Setup::Deafen]
    }
}

/// Takes the engine's answer to the join of `channel`. Where the engine has
/// joined, the tenant is connected to the channel and the connection is set up;
/// `deaf` says whether the new connection is deaf already. Where it has not, the
/// failure is reported.
pub fn connect_to(channel: u64, joined: bool, deaf: bool) -> (outcome: Result<
    (Connection, Vec<Setup>),
    Error,
>)
    ensures
        joined ==> outcome is Ok && outcome->Ok_0.0 == Connection::Connected(channel)
            && outcome->Ok_0.1@ == setup_for(deaf),
        !joined ==> outcome == Err::<(Connection, Vec<Setup>), Error>(Error::ConnectError),
{
    if !joined {
        return Err(Error::ConnectError);
    }
    let mut setup: Vec<Setup> = Vec::new();
    setup.push(Setup::ObserveTrackEnd);
    setup.push(Setup::ObserveTrackError);
    if !deaf {
        setup.push(Setup::Deafen);
    }
    Ok((Connection::Connected(channel), setup))
}

/// Whether the engine is to be told to stop: it is where the tenant is connected.
/// The tenant's queue plays no part and is not touched.
pub fn stop_playing(connection: Connection) -> (stop: bool)
    ensures
        stop == (connection is Connected),
{
    is_connected(connection)
}

/// The address that the engine is to play for a track that starts: that of the
/// track's source where the tenant is connected, and none where it is not.
pub fn play_track(connection: Connection, track: &Track) -> (url: Option<String>)
    ensures
        match url {
            Some(address) => connection is Connected && address@ == track@.source.url(),
            None => !(connection is Connected),
        },
{
    if is_connected(connection) {
        Some(track.source.get_url())
    } else {
        None
    }
}

/// The tenant's playback once the engine has made a report: the end of a track
/// moves playback on, a failure changes nothing.
pub open spec fn reported(state: ManagerState, event: EngineEvent) -> ManagerState {
    match event {
        EngineEvent::TrackEnd => state.track_ended(),
        EngineEvent::TrackError => state,
    }
}

/// The track that starts when the engine has made a report.
pub open spec fn started_by(state: ManagerState, event: EngineEvent) -> Option<TrackView> {
    match event {
        EngineEvent::TrackEnd => state.upcoming(),
        EngineEvent::TrackError => None,
    }
}

/// Takes a report of the engine for a tenant. The end of a track moves the
/// tenant's playback on, as [`MusicManager::track_ended`] does, and returns the
/// track that starts. A failed track is not taken to have ended: nothing changes.
/// The first part of the answer says whether the report was in order; the end of
/// a track is not while no track is playing.
pub fn act<H>(manager: &mut MusicManager<H>, event: EngineEvent) -> (outcome: (
    Result<(), Error>,
    Option<Track>,
))
    ensures
        final(manager)@ == reported(old(manager)@, event),
        final(manager).handler() == old(manager).handler(),
        old(manager)@.well_formed() ==> final(manager)@.well_formed(),
        slot_view(outcome.1) == started_by(old(manager)@, event),
        outcome.0 is Err <==> event == EngineEvent::TrackEnd && old(manager)@.idle(),
        outcome.0 is Err ==> outcome.0 == Err::<(), Error>(Error::UsageViolation),
{
    match event {
        EngineEvent::TrackEnd => manager.track_ended(),
        EngineEvent::TrackError => (Ok(()), None),
    }
}

} // verus!
