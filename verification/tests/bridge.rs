use guild_music::bridge::{
    act, connect_to, ensure_connected, is_connected, play_track, stop_playing, Connection,
    EngineEvent, Setup,
};
use guild_music::error::Error;
use guild_music::manager::MusicManager;
use guild_music::track::{Source, Track};

fn track(id: &str) -> Track {
    Track { title: id.to_string(), source: Source::Youtube(id.to_string()), thumbnail: None }
}

fn id_of(track: &Track) -> String {
    match &track.source {
        Source::Youtube(id) => id.clone(),
    }
}

#[test]
fn only_a_joined_channel_counts_as_connected() {
    assert!(!is_connected(Connection::Disconnected));
    assert!(!is_connected(Connection::Connecting(5)));
    assert!(is_connected(Connection::Connected(5)));
}

#[test]
fn ensure_connected_joins_the_users_channel() {
    assert_eq!(ensure_connected(Connection::Disconnected, Some(42)), Ok(Connection::Connecting(42)));
    assert_eq!(ensure_connected(Connection::Connecting(1), Some(42)), Ok(Connection::Connecting(42)));
}

#[test]
fn ensure_connected_is_idempotent_when_connected() {
    assert_eq!(ensure_connected(Connection::Connected(9), Some(42)), Ok(Connection::Connected(9)));
    assert_eq!(ensure_connected(Connection::Connected(9), None), Ok(Connection::Connected(9)));
}

#[test]
fn ensure_connected_fails_without_a_voice_channel() {
    assert_eq!(ensure_connected(Connection::Disconnected, None), Err(Error::NoVoiceChannel));
    assert_eq!(ensure_connected(Connection::Connecting(3), None), Err(Error::NoVoiceChannel));
}

#[test]
fn a_join_sets_the_connection_up() {
    assert_eq!(
        connect_to(42, true, false),
        Ok((
            Connection::Connected(42),
            vec![Setup::ObserveTrackEnd, Setup::ObserveTrackError, Setup::Deafen]
        ))
    );
    assert_eq!(
        connect_to(42, true, true),
        Ok((Connection::Connected(42), vec![Setup::ObserveTrackEnd, Setup::ObserveTrackError]))
    );
}

#[test]
fn a_failed_join_is_reported() {
    assert_eq!(connect_to(42, false, false), Err(Error::ConnectError));
    assert_eq!(connect_to(42, false, true), Err(Error::ConnectError));
}

#[test]
fn the_engine_is_stopped_only_where_connected() {
    assert!(stop_playing(Connection::Connected(1)));
    assert!(!stop_playing(Connection::Disconnected));
    assert!(!stop_playing(Connection::Connecting(1)));
}

#[test]
fn a_track_is_played_only_where_connected() {
    let t = track("abc");
    assert_eq!(
        play_track(Connection::Connected(1), &t),
        Some("https://www.youtube.com/watch?v=abc".to_string())
    );
    assert_eq!(play_track(Connection::Disconnected, &t), None);
    assert_eq!(play_track(Connection::Connecting(1), &t), None);
}

#[test]
fn the_end_of_a_track_moves_playback_on() {
    let mut manager: MusicManager<()> = MusicManager::new();
    manager.event_handler(());
    manager.add(&track("a"));
    manager.add(&track("b"));
    manager.take_pending();
    let (reported, started) = act(&mut manager, EngineEvent::TrackEnd);
    assert_eq!(reported, Ok(()));
    assert_eq!(started.as_ref().map(id_of), Some("b".to_string()));
    assert_eq!(manager.now_playing().map(id_of), Some("b".to_string()));
    assert_eq!(manager.take_pending().len(), 2);
    let (reported, started) = act(&mut manager, EngineEvent::TrackEnd);
    assert_eq!(reported, Ok(()));
    assert!(started.is_none());
    assert!(manager.now_playing().is_none());
    let (reported, started) = act(&mut manager, EngineEvent::TrackEnd);
    assert_eq!(reported, Err(Error::UsageViolation));
    assert!(started.is_none());
}

#[test]
fn a_failed_track_changes_nothing() {
    let mut manager: MusicManager<()> = MusicManager::new();
    manager.event_handler(());
    manager.add(&track("a"));
    manager.add(&track("b"));
    manager.take_pending();
    let (reported, started) = act(&mut manager, EngineEvent::TrackError);
    assert_eq!(reported, Ok(()));
    assert!(started.is_none());
    assert_eq!(manager.now_playing().map(id_of), Some("a".to_string()));
    assert_eq!(manager.len(), 1);
    assert!(manager.history().is_empty());
    assert!(manager.take_pending().is_empty());
}
