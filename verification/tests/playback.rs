use guild_music::error::Error;
use guild_music::manager::{apply_loop, MusicManager};
use guild_music::state::{Event, HookCall, Loop, HISTORY_LIMIT};
use guild_music::track::{Source, Track};

fn track(id: &str) -> Track {
    Track {
        title: format!("title of {}", id),
        source: Source::Youtube(id.to_string()),
        thumbnail: None,
    }
}

fn id_of(track: &Track) -> String {
    match &track.source {
        Source::Youtube(id) => id.clone(),
    }
}

fn ids(tracks: &[Track]) -> Vec<String> {
    tracks.iter().map(id_of).collect()
}

fn queue_ids(manager: &MusicManager<()>) -> Vec<String> {
    let mut found = Vec::new();
    let mut index = 0;
    while let Some(entry) = manager.get(index) {
        found.push(id_of(entry));
        index += 1;
    }
    assert_eq!(found.len(), manager.len());
    found
}

fn describe(call: &HookCall) -> String {
    match call {
        HookCall::TrackStart(t) => format!("start {}", id_of(t)),
        HookCall::TrackEnd(t) => format!("end {}", id_of(t)),
        HookCall::TrackSkipped => "skipped".to_string(),
        HookCall::QueueAdded(t) => format!("added {}", id_of(t)),
        HookCall::QueueEmptied => "emptied".to_string(),
    }
}

fn pending(manager: &mut MusicManager<()>) -> Vec<String> {
    manager.take_pending().iter().map(describe).collect()
}

/// A manager that plays `first` and has an empty queue.
fn playing(first: &str) -> MusicManager<()> {
    let mut manager = MusicManager::new();
    manager.event_handler(());
    manager.add(&track(first));
    manager.take_pending();
    manager
}

#[test]
fn fresh_manager_is_idle_and_empty() {
    let manager: MusicManager<()> = MusicManager::default();
    assert!(manager.is_empty());
    assert_eq!(manager.len(), 0);
    assert!(manager.now_playing().is_none());
    assert!(manager.history().is_empty());
    assert_eq!(*manager.get_loop(), Loop::Off);
    assert!(!manager.has_handler());
    assert!(manager.get(0).is_none());
}

#[test]
fn add_on_idle_tenant_starts_playback() {
    let mut manager: MusicManager<()> = MusicManager::default();
    manager.event_handler(());
    manager.add(&track("a"));
    assert_eq!(manager.now_playing().map(id_of), Some("a".to_string()));
    assert!(manager.is_empty());
    assert_eq!(pending(&mut manager), vec!["added a", "start a"]);
    assert!(manager.take_pending().is_empty());
}

#[test]
fn add_keeps_title_and_thumbnail() {
    let mut manager: MusicManager<()> = MusicManager::new();
    let t = Track {
        title: "Song".to_string(),
        source: Source::Youtube("xyz".to_string()),
        thumbnail: Some("https://img/1.jpg".to_string()),
    };
    manager.add(&t);
    let now = manager.now_playing().unwrap();
    assert_eq!(now.title, "Song");
    assert_eq!(now.thumbnail, Some("https://img/1.jpg".to_string()));
    assert_eq!(id_of(now), "xyz");
}

#[test]
fn add_while_playing_only_queues() {
    let mut manager = playing("p");
    manager.add(&track("a"));
    manager.add(&track("b"));
    assert_eq!(manager.now_playing().map(id_of), Some("p".to_string()));
    assert_eq!(queue_ids(&manager), vec!["a", "b"]);
    assert_eq!(pending(&mut manager), vec!["added a", "added b"]);
}

#[test]
fn next_returns_tracks_first_in_first_out() {
    let mut manager = playing("p");
    let names = ["t1", "t2", "t3", "t4", "t5"];
    for name in names {
        manager.add(&track(name));
    }
    for name in names {
        assert_eq!(manager.next().as_ref().map(id_of), Some(name.to_string()));
        assert_eq!(manager.now_playing().map(id_of), Some(name.to_string()));
    }
    assert!(manager.next().is_none());
    assert!(manager.now_playing().is_none());
}

#[test]
fn first_add_on_idle_tenant_is_started_by_add_itself() {
    let mut manager: MusicManager<()> = MusicManager::new();
    for name in ["t1", "t2", "t3"] {
        manager.add(&track(name));
    }
    assert_eq!(manager.now_playing().map(id_of), Some("t1".to_string()));
    assert_eq!(manager.next().as_ref().map(id_of), Some("t2".to_string()));
    assert_eq!(manager.next().as_ref().map(id_of), Some("t3".to_string()));
    assert!(manager.next().is_none());
}

#[test]
fn track_loop_replays_a_track_that_waits_behind_itself() {
    let mut manager = playing("t");
    manager.set_loop(Loop::Track);
    manager.add(&track("t"));
    for _ in 0..5 {
        let started = manager.next();
        assert_eq!(started.as_ref().map(id_of), Some("t".to_string()));
        assert!(started.unwrap() == track("t"));
        assert_eq!(manager.len(), 1);
    }
}

#[test]
fn track_loop_does_not_replay_a_single_track_on_an_empty_queue() {
    let mut manager: MusicManager<()> = MusicManager::new();
    manager.set_loop(Loop::Track);
    manager.add(&track("t"));
    assert_eq!(manager.now_playing().map(id_of), Some("t".to_string()));
    assert!(manager.is_empty());
    assert!(manager.next().is_none());
    assert!(manager.now_playing().is_none());
    assert!(manager.is_empty());
    assert_eq!(ids(manager.history()), vec!["t"]);
}

#[test]
fn track_loop_puts_the_finished_track_in_front() {
    let mut manager = playing("p");
    manager.set_loop(Loop::Track);
    manager.add(&track("t"));
    manager.add(&track("u"));
    assert_eq!(manager.next().as_ref().map(id_of), Some("t".to_string()));
    assert_eq!(queue_ids(&manager), vec!["p", "u"]);
    assert_eq!(manager.next().as_ref().map(id_of), Some("p".to_string()));
    assert_eq!(queue_ids(&manager), vec!["t", "u"]);
    assert_eq!(manager.next().as_ref().map(id_of), Some("t".to_string()));
    assert_eq!(queue_ids(&manager), vec!["p", "u"]);
    assert_eq!(ids(manager.history()), vec!["p", "t", "p"]);
}

#[test]
fn queue_loop_cycles_through_the_queue() {
    let mut manager: MusicManager<()> = MusicManager::new();
    for name in ["a", "b"] {
        manager.add(&track(name));
    }
    assert!(manager.next().is_some());
    assert!(manager.next().is_none());
    assert_eq!(manager.previous().as_ref().map(id_of), Some("b".to_string()));
    assert_eq!(manager.previous().as_ref().map(id_of), Some("a".to_string()));
    assert!(manager.now_playing().is_none());
    assert_eq!(queue_ids(&manager), vec!["a", "b"]);

    manager.set_loop(Loop::Queue);
    let mut started = Vec::new();
    for _ in 0..4 {
        started.push(id_of(&manager.next().unwrap()));
    }
    assert_eq!(started, vec!["a", "b", "a", "b"]);
    assert_eq!(queue_ids(&manager), vec!["a"]);
}

#[test]
fn queue_loop_puts_the_finished_track_at_the_back() {
    let mut manager = playing("p");
    manager.set_loop(Loop::Queue);
    manager.add(&track("t"));
    assert_eq!(manager.next().as_ref().map(id_of), Some("t".to_string()));
    assert_eq!(queue_ids(&manager), vec!["p"]);
    manager.add(&track("u"));
    assert_eq!(manager.next().as_ref().map(id_of), Some("p".to_string()));
    assert_eq!(queue_ids(&manager), vec!["u", "t"]);
}

#[test]
fn queue_loop_starts_with_the_first_added_track() {
    let mut manager: MusicManager<()> = MusicManager::new();
    manager.set_loop(Loop::Queue);
    manager.add(&track("a"));
    manager.add(&track("b"));
    assert_eq!(manager.now_playing().map(id_of), Some("a".to_string()));
    let mut started = Vec::new();
    for _ in 0..3 {
        started.push(id_of(&manager.next().unwrap()));
    }
    assert_eq!(started, vec!["b", "a", "b"]);
}

#[test]
fn without_a_loop_the_finished_track_is_not_queued() {
    let mut manager = playing("p");
    manager.add(&track("t"));
    assert_eq!(manager.next().as_ref().map(id_of), Some("t".to_string()));
    assert!(manager.is_empty());
}

#[test]
fn history_keeps_the_ten_most_recent() {
    let mut manager: MusicManager<()> = MusicManager::new();
    let names: Vec<String> = (1..=16).map(|n| format!("t{}", n)).collect();
    for name in &names {
        manager.add(&track(name));
    }
    for _ in 0..15 {
        assert!(manager.next().is_some());
    }
    assert_eq!(manager.now_playing().map(id_of), Some("t16".to_string()));
    assert_eq!(manager.history().len(), HISTORY_LIMIT);
    assert_eq!(ids(manager.history()), names[5..15].to_vec());
    for n in (6..=15).rev() {
        assert_eq!(manager.previous().as_ref().map(id_of), Some(format!("t{}", n)));
    }
    assert!(manager.previous().is_none());
    assert!(manager.history().is_empty());
    assert_eq!(queue_ids(&manager), names[5..15].to_vec());
}

#[test]
fn a_run_that_played_out_is_remembered_newest_first() {
    let mut manager: MusicManager<()> = MusicManager::default();
    let names: Vec<String> = (1..=15).map(|n| format!("t{}", n)).collect();
    for name in &names {
        manager.add(&track(name));
    }
    for _ in 0..14 {
        assert!(manager.next().is_some());
    }
    assert_eq!(manager.now_playing().map(id_of), Some("t15".to_string()));
    assert_eq!(ids(manager.history()), names[4..14].to_vec());
    assert!(manager.next().is_none());
    assert!(manager.now_playing().is_none());
    assert_eq!(manager.history().len(), HISTORY_LIMIT);
    assert_eq!(ids(manager.history()), names[5..].to_vec());
    for n in (6..=15).rev() {
        assert_eq!(manager.previous().as_ref().map(id_of), Some(format!("t{}", n)));
    }
    assert!(manager.previous().is_none());
    assert!(manager.history().is_empty());
}

#[test]
fn the_only_track_of_a_run_can_be_asked_back() {
    let mut manager: MusicManager<()> = MusicManager::new();
    manager.add(&track("t"));
    assert!(manager.next().is_none());
    assert_eq!(manager.previous().as_ref().map(id_of), Some("t".to_string()));
    assert!(manager.previous().is_none());
    assert_eq!(queue_ids(&manager), vec!["t"]);
}

#[test]
fn previous_right_after_next_returns_the_finished_track() {
    let mut manager = playing("p");
    manager.add(&track("t"));
    assert_eq!(manager.next().as_ref().map(id_of), Some("t".to_string()));
    assert_eq!(ids(manager.history()), vec!["p"]);
    assert_eq!(manager.previous().as_ref().map(id_of), Some("p".to_string()));
}

#[test]
fn history_below_the_limit_keeps_everything() {
    let mut manager: MusicManager<()> = MusicManager::new();
    for name in ["a", "b", "c"] {
        manager.add(&track(name));
    }
    assert!(manager.history().is_empty());
    manager.next();
    assert_eq!(ids(manager.history()), vec!["a"]);
    manager.next();
    assert_eq!(ids(manager.history()), vec!["a", "b"]);
    assert_eq!(manager.now_playing().map(id_of), Some("c".to_string()));
}

#[test]
fn history_at_the_limit_evicts_the_oldest() {
    let mut manager: MusicManager<()> = MusicManager::new();
    for n in 1..=12 {
        manager.add(&track(&format!("t{}", n)));
    }
    for _ in 0..10 {
        manager.next();
    }
    assert_eq!(manager.history().len(), 10);
    assert_eq!(id_of(&manager.history()[0]), "t1");
    assert_eq!(id_of(&manager.history()[9]), "t10");
    manager.next();
    assert_eq!(manager.history().len(), 10);
    assert_eq!(id_of(&manager.history()[0]), "t2");
    assert_eq!(id_of(&manager.history()[9]), "t11");
}

#[test]
fn previous_restores_without_playing() {
    let mut manager = playing("p");
    manager.add(&track("q"));
    manager.add(&track("r"));
    manager.next();
    manager.take_pending();
    let restored = manager.previous();
    assert_eq!(restored.as_ref().map(id_of), Some("p".to_string()));
    assert_eq!(queue_ids(&manager), vec!["p", "r"]);
    assert_eq!(manager.now_playing().map(id_of), Some("q".to_string()));
    assert!(manager.history().is_empty());
    assert!(manager.take_pending().is_empty());
}

#[test]
fn previous_on_empty_history_changes_nothing() {
    let mut manager: MusicManager<()> = MusicManager::new();
    assert!(manager.previous().is_none());
    assert!(manager.is_empty());
    assert!(manager.now_playing().is_none());
}

#[test]
fn skip_reports_before_the_next_start() {
    let mut manager = playing("p");
    manager.add(&track("a"));
    manager.add(&track("b"));
    manager.take_pending();
    manager.skip();
    assert_eq!(pending(&mut manager), vec!["skipped", "start a"]);
    assert_eq!(manager.now_playing().map(id_of), Some("a".to_string()));
    assert_eq!(queue_ids(&manager), vec!["b"]);
}

#[test]
fn skip_starts_what_next_would_start() {
    let mut skipped = playing("p");
    let mut advanced = playing("p");
    for name in ["a", "b", "c"] {
        skipped.add(&track(name));
        advanced.add(&track(name));
    }
    skipped.skip();
    let started = advanced.next();
    assert_eq!(skipped.now_playing().map(id_of), started.as_ref().map(id_of));
    assert_eq!(queue_ids(&skipped), queue_ids(&advanced));
    assert_eq!(ids(skipped.history()), ids(advanced.history()));
}

#[test]
fn skip_on_the_last_track_falls_idle() {
    let mut manager = playing("p");
    manager.skip();
    assert!(manager.now_playing().is_none());
    assert_eq!(pending(&mut manager), vec!["skipped"]);
}

#[test]
fn next_on_empty_queue_is_idempotent() {
    let mut manager: MusicManager<()> = MusicManager::new();
    manager.event_handler(());
    for _ in 0..4 {
        assert!(manager.next().is_none());
        assert!(manager.now_playing().is_none());
        assert!(manager.is_empty());
        assert!(manager.take_pending().is_empty());
    }
}

#[test]
fn next_on_empty_queue_ends_playback_without_a_report() {
    let mut manager = playing("p");
    assert!(manager.next().is_none());
    assert!(manager.now_playing().is_none());
    assert!(manager.take_pending().is_empty());
    assert_eq!(ids(manager.history()), vec!["p"]);
    assert!(manager.is_empty());
    assert!(manager.next().is_none());
    assert_eq!(ids(manager.history()), vec!["p"]);
}

#[test]
fn remove_takes_the_entry_out() {
    let mut manager = playing("p");
    for name in ["a", "b", "c"] {
        manager.add(&track(name));
    }
    assert_eq!(manager.remove(1), Ok(()));
    assert_eq!(queue_ids(&manager), vec!["a", "c"]);
    assert_eq!(manager.remove(0), Ok(()));
    assert_eq!(queue_ids(&manager), vec!["c"]);
}

#[test]
fn remove_past_the_end_is_reported() {
    let mut manager = playing("p");
    manager.add(&track("a"));
    assert_eq!(manager.remove(1), Err(Error::IndexOutOfRange));
    assert_eq!(manager.remove(usize::MAX), Err(Error::IndexOutOfRange));
    assert_eq!(queue_ids(&manager), vec!["a"]);
    assert_eq!(manager.now_playing().map(id_of), Some("p".to_string()));
    let mut empty: MusicManager<()> = MusicManager::new();
    assert_eq!(empty.remove(0), Err(Error::IndexOutOfRange));
}

#[test]
fn get_reads_by_position() {
    let mut manager = playing("p");
    manager.add(&track("a"));
    manager.add(&track("b"));
    assert_eq!(manager.get(0).map(id_of), Some("a".to_string()));
    assert_eq!(manager.get(1).map(id_of), Some("b".to_string()));
    assert!(manager.get(2).is_none());
}

#[test]
fn clear_empties_the_queue_only() {
    let mut manager = playing("p");
    manager.add(&track("a"));
    manager.next();
    manager.add(&track("b"));
    manager.add(&track("c"));
    manager.clear();
    assert!(manager.is_empty());
    assert_eq!(manager.now_playing().map(id_of), Some("a".to_string()));
    assert_eq!(ids(manager.history()), vec!["p"]);
}

#[test]
fn loop_mode_is_set_and_read() {
    let mut manager: MusicManager<()> = MusicManager::new();
    manager.set_loop(Loop::Queue);
    assert_eq!(*manager.get_loop(), Loop::Queue);
    manager.set_loop(Loop::Track);
    assert_eq!(*manager.get_loop(), Loop::Track);
    manager.set_loop(Loop::Off);
    assert_eq!(*manager.get_loop(), Loop::Off);
    assert!(manager.is_empty());
}

#[test]
fn apply_loop_off_leaves_the_queue() {
    let mut queue = vec![track("a")];
    apply_loop(Loop::Off, &track("t"), &mut queue);
    assert_eq!(ids(&queue), vec!["a"]);
}

#[test]
fn apply_loop_queue_appends() {
    let mut queue = vec![track("a"), track("b")];
    apply_loop(Loop::Queue, &track("t"), &mut queue);
    assert_eq!(ids(&queue), vec!["a", "b", "t"]);
}

#[test]
fn apply_loop_track_puts_in_front() {
    let mut queue = vec![track("a"), track("b")];
    apply_loop(Loop::Track, &track("t"), &mut queue);
    assert_eq!(ids(&queue), vec!["t", "a", "b"]);
}

#[test]
fn without_a_handler_nothing_is_owed() {
    let mut manager: MusicManager<()> = MusicManager::new();
    manager.add(&track("a"));
    manager.add(&track("b"));
    manager.skip();
    assert_eq!(manager.emit(Event::QueueEmptied), Ok(()));
    assert!(manager.take_pending().is_empty());
    assert_eq!(manager.now_playing().map(id_of), Some("b".to_string()));
}

#[test]
fn attaching_a_handler_replaces_the_one_before() {
    let mut manager: MusicManager<u32> = MusicManager::new();
    assert!(!manager.has_handler());
    assert!(manager.handler_mut().is_none());
    manager.event_handler(1);
    assert!(manager.has_handler());
    assert_eq!(manager.handler_mut(), Some(&mut 1));
    manager.event_handler(2);
    assert!(manager.has_handler());
    assert_eq!(manager.handler_mut(), Some(&mut 2));
    *manager.handler_mut().unwrap() = 7;
    assert_eq!(manager.handler_mut(), Some(&mut 7));
}

#[test]
fn emit_owes_one_hook_per_event() {
    let mut manager = playing("p");
    assert_eq!(manager.emit(Event::TrackStarted(track("x"))), Ok(()));
    assert_eq!(manager.emit(Event::TrackEnded), Ok(()));
    assert_eq!(manager.emit(Event::QueueAdded(track("y"))), Ok(()));
    assert_eq!(manager.emit(Event::QueueEmptied), Ok(()));
    assert_eq!(manager.emit(Event::TrackSkipped), Ok(()));
    assert_eq!(
        pending(&mut manager),
        vec!["start x", "end p", "added y", "emptied", "skipped"]
    );
    assert_eq!(manager.now_playing().map(id_of), Some("p".to_string()));
    assert!(manager.is_empty());
}

#[test]
fn emit_track_ended_while_idle_is_a_usage_violation() {
    let mut manager: MusicManager<()> = MusicManager::new();
    manager.event_handler(());
    assert_eq!(manager.emit(Event::TrackEnded), Err(Error::UsageViolation));
    assert!(manager.take_pending().is_empty());
    let mut bare: MusicManager<()> = MusicManager::new();
    assert_eq!(bare.emit(Event::TrackEnded), Err(Error::UsageViolation));
}

#[test]
fn track_ended_reports_and_moves_on() {
    let mut manager = playing("p");
    manager.add(&track("a"));
    manager.take_pending();
    let (reported, started) = manager.track_ended();
    assert_eq!(reported, Ok(()));
    assert_eq!(started.as_ref().map(id_of), Some("a".to_string()));
    assert_eq!(pending(&mut manager), vec!["end p", "start a"]);
}

#[test]
fn track_ended_while_idle_still_moves_on() {
    let mut manager: MusicManager<()> = MusicManager::new();
    manager.event_handler(());
    let (reported, started) = manager.track_ended();
    assert_eq!(reported, Err(Error::UsageViolation));
    assert!(started.is_none());
    assert!(manager.take_pending().is_empty());
}

#[test]
fn same_track_may_wait_twice() {
    let mut manager = playing("p");
    manager.add(&track("a"));
    manager.add(&track("a"));
    assert_eq!(queue_ids(&manager), vec!["a", "a"]);
}
