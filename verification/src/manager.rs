//! The playback state machine of one tenant.

use vstd::prelude::*;
use crate::error::Error;
use crate::state::{
    call_views, loop_applied, newest, remember, slot_view, track_views, Event, HookCall, Loop,
    ManagerState, HISTORY_LIMIT,
};
use crate::track::Track;

verus! {

/// Applies a loop mode to a track that has finished: the track goes to the back of
/// `queue`, to its front, or nowhere.
pub fn apply_loop(mode: Loop, finished: &Track, queue: &mut Vec<Track>)
    ensures
        track_views(final(queue)@) == loop_applied(mode, finished@, track_views(old(queue)@)),
{
    match mode {
        Loop::Off => {},
        Loop::Queue => {
            queue.push(finished.clone());
        },
        Loop::Track => {
            queue.insert(0, finished.clone());
        },
    }
}

/// Puts a track that has finished into the history, as its newest entry. The
/// oldest entries leave until no more than [`HISTORY_LIMIT`] stay.
fn keep(history: &mut Vec<Track>, finished: Track)
    ensures
        track_views(final(history)@) == remember(track_views(old(history)@), finished@),
{
    history.push(finished);
    while history.len() > HISTORY_LIMIT
        invariant
            newest(track_views(history@), HISTORY_LIMIT as int) == remember(
                track_views(old(history)@),
                finished@,
            ),
        decreases history@.len(),
    {
        history.remove(0);
    }
}

/// One tenant's queue, history, playing track, loop mode and handler.
///
/// The manager decides; it performs no hook itself. Every hook call that an
/// operation owes to the attached handler is appended to a list of pending calls,
/// in the order in which the calls are to be made. Whoever holds the manager takes
/// that list after each operation and makes the calls, one after the other, before
/// anyone else may use the manager.
pub struct MusicManager<H> {
    queue: Vec<Track>,
    previous: Vec<Track>,
    playing: Option<Track>,
    handler: Option<H>,
    music_loop: Loop,
    pending: Vec<HookCall>,
}

impl<H> View for MusicManager<H> {
    type V = ManagerState;

    closed spec fn view(&self) -> ManagerState {
        ManagerState {
            queue: track_views(self.queue@),
            history: track_views(self.previous@),
            playing: slot_view(self.playing),
            mode: self.music_loop,
            attached: self.handler is Some,
            pending: call_views(self.pending@),
        }
    }
}

impl<H> MusicManager<H> {
    /// The handler that is attached, if any.
    pub closed spec fn handler(&self) -> Option<H> {
        self.handler
    }

    /// A manager with nothing queued, nothing playing, an empty history, no loop
    /// and no handler.
    pub fn new() -> (manager: Self)
        ensures
            manager@ == ManagerState::fresh(),
            manager.handler() is None,
    {
        MusicManager {
            queue: Vec::new(),
            previous: Vec::new(),
            playing: None,
            handler: None,
            music_loop: Loop::Off,
            pending: Vec::new(),
        }
    }

    /// Hands a hook call to the handler, if one is attached.
    fn dispatch(&mut self, call: HookCall)
        ensures
            final(self)@ == old(self)@.dispatch(call@),
            final(self).handler() == old(self).handler(),
    {
        if self.handler.is_some() {
            self.pending.push(call);
        }
    }

    /// Adds a track to the end of the queue and reports the addition. Where nothing
    /// is playing, playback starts at once with the front of the queue.
    pub fn add(&mut self, track: &Track)
        ensures
            final(self)@ == old(self)@.add(track@),
            old(self)@.well_formed() ==> final(self)@.well_formed(),
            final(self).handler() == old(self).handler(),
    {
        self.queue.push(track.clone());
        let _ = self.emit(Event::QueueAdded(track.clone()));
        if self.playing.is_none() {
            self.next();
        }
    }

    /// Takes the entry at `index` out of the queue. A position past the end of the
    /// queue is reported and changes nothing.
    pub fn remove(&mut self, index: usize) -> (outcome: Result<(), Error>)
        ensures
            final(self)@ == old(self)@.remove(index as int),
            old(self)@.well_formed() ==> final(self)@.well_formed(),
            final(self).handler() == old(self).handler(),
            outcome is Ok <==> index < old(self)@.queue.len(),
            outcome is Err ==> outcome == Err::<(), Error>(Error::IndexOutOfRange),
    {
        if index < self.queue.len() {
            self.queue.remove(index);
            Ok(())
        } else {
            Err(Error::IndexOutOfRange)
        }
    }

    /// Empties the queue. The playing track and the history stay.
    pub fn clear(&mut self)
        ensures
            final(self)@ == old(self)@.clear(),
            old(self)@.well_formed() ==> final(self)@.well_formed(),
            final(self).handler() == old(self).handler(),
    {
        self.queue.clear();
    }

    /// The entry at `index` of the queue, if there is one.
    pub fn get(&self, index: usize) -> (entry: Option<&Track>)
        ensures
            match entry {
                Some(track) => index < self@.queue.len() && track@ == self@.queue[index as int],
                None => index >= self@.queue.len(),
            },
    {
        if index < self.queue.len() {
            Some(&self.queue[index])
        } else {
            None
        }
    }

    /// How many tracks wait in the queue.
    pub fn len(&self) -> (count: usize)
        ensures
            count == self@.queue.len(),
    {
        self.queue.len()
    }

    /// Whether no track waits in the queue.
    pub fn is_empty(&self) -> (empty: bool)
        ensures
            empty == (self@.queue.len() == 0),
    {
        self.queue.is_empty()
    }

    /// The track that is playing, if any.
    pub fn now_playing(&self) -> (playing: Option<&Track>)
        ensures
            match playing {
                Some(track) => self@.playing == Some(track@),
                None => self@.playing is None,
            },
    {
        self.playing.as_ref()
    }

    /// Sets the loop mode.
    pub fn set_loop(&mut self, loop_type: Loop)
        ensures
            final(self)@ == (ManagerState { mode: loop_type, ..old(self)@ }),
            old(self)@.well_formed() ==> final(self)@.well_formed(),
            final(self).handler() == old(self).handler(),
    {
        self.music_loop = loop_type;
    }

    /// The loop mode.
    pub fn get_loop(&self) -> (mode: &Loop)
        ensures
            *mode == self@.mode,
    {
        &self.music_loop
    }

    /// Skips the track that is playing: the skip is reported, then playback moves
    /// on as [`MusicManager::next`] does.
    pub fn skip(&mut self)
        ensures
            final(self)@ == old(self)@.skip(),
            old(self)@.well_formed() ==> final(self)@.well_formed(),
            final(self).handler() == old(self).handler(),
    {
        let _ = self.emit(Event::TrackSkipped);
        self.next();
    }

    /// Moves playback on.
    ///
    /// The track that was playing, if any, has finished, and enters the history
    /// as the newest entry. With an empty queue nothing plays any more and nothing
    /// is returned; the queue, the loop mode and what is owed to the handler stay
    /// as they are. Otherwise the front of the queue starts playing and is
    /// returned, its start is reported, and the loop mode decides whether the
    /// finished track is queued again.
    pub fn next(&mut self) -> (started: Option<Track>)
        ensures
            final(self)@ == old(self)@.next(),
            old(self)@.well_formed() ==> final(self)@.well_formed(),
            final(self).handler() == old(self).handler(),
            slot_view(started) == old(self)@.upcoming(),
            old(self)@.queue.len() == 0 ==> final(self)@ == (ManagerState {
                playing: None,
                history: match old(self)@.playing {
                    Some(finished) => remember(old(self)@.history, finished),
                    None => old(self)@.history,
                },
                ..old(self)@
            }),
    {
        let finished = self.playing.take();
        if self.queue.is_empty() {
            match finished {
                Some(done) => {
                    keep(&mut self.previous, done);
                },
                None => {},
            }
            return None;
        }
        let track = self.queue.remove(0);
        self.playing = Some(track.clone());
        let _ = self.emit(Event::TrackStarted(track.clone()));
        match finished {
            Some(done) => {
                apply_loop(self.music_loop, &done, &mut self.queue);
                keep(&mut self.previous, done);
            },
            None => {},
        }
        Some(track)
    }

    /// Takes the newest entry out of the history, puts it at the front of the queue
    /// and returns it. Playback does not move. With an empty history nothing
    /// changes and nothing is returned.
    pub fn previous(&mut self) -> (restored: Option<Track>)
        ensures
            final(self)@ == old(self)@.previous(),
            old(self)@.well_formed() ==> final(self)@.well_formed(),
            final(self).handler() == old(self).handler(),
            slot_view(restored) == old(self)@.latest(),
    {
        match self.previous.pop() {
            Some(track) => {
                self.queue.insert(0, track.clone());
                Some(track)
            },
            None => None,
        }
    }

    /// Attaches a handler. A handler that was attached before is dropped.
    pub fn event_handler(&mut self, handler: H)
        ensures
            final(self)@ == (ManagerState { attached: true, ..old(self)@ }),
            old(self)@.well_formed() ==> final(self)@.well_formed(),
            final(self).handler() == Some(handler),
    {
        self.handler = Some(handler);
    }

    /// Whether a handler is attached.
    pub fn has_handler(&self) -> (attached: bool)
        ensures
            attached == self@.attached,
            attached == self.handler() is Some,
    {
        self.handler.is_some()
    }

    /// The attached handler, to make the pending calls on.
    pub fn handler_mut(&mut self) -> (handler: Option<&mut H>)
        ensures
            match handler {
                Some(h) => old(self).handler() == Some(*h) && final(self).handler() == Some(
                    *final(h),
                ),
                None => old(self).handler() is None && final(self).handler() is None,
            },
            final(self)@ == old(self)@,
    {
        self.handler.as_mut()
    }

    /// Emits an event: the hook that answers it is owed to the handler, if one is
    /// attached. The end of a track can only be emitted while a track is playing;
    /// otherwise the call is refused and nothing changes.
    pub fn emit(&mut self, event: Event) -> (outcome: Result<(), Error>)
        ensures
            final(self)@ == old(self)@.emit(event@),
            old(self)@.well_formed() ==> final(self)@.well_formed(),
            final(self).handler() == old(self).handler(),
            outcome is Ok <==> old(self)@.accepts(event@),
            outcome is Err ==> outcome == Err::<(), Error>(Error::UsageViolation),
    {
        match event {
            Event::TrackStarted(track) => {
                self.dispatch(HookCall::TrackStart(track));
                Ok(())
            },
            Event::TrackEnded => {
                match &self.playing {
                    Some(track) => {
                        let call = HookCall::TrackEnd(track.clone());
                        self.dispatch(call);
                        Ok(())
                    },
                    None => Err(Error::UsageViolation),
                }
            },
            Event::QueueAdded(track) => {
                self.dispatch(HookCall::QueueAdded(track));
                Ok(())
            },
            Event::TrackSkipped => {
                self.dispatch(HookCall::TrackSkipped);
                Ok(())
            },
            Event::QueueEmptied => {
                self.dispatch(HookCall::QueueEmptied);
                Ok(())
            },
        }
    }

    /// Hands out the pending hook calls, in the order in which they are to be made,
    /// and owes none afterwards.
    pub fn take_pending(&mut self) -> (calls: Vec<HookCall>)
        ensures
            call_views(calls@) == old(self)@.pending,
            final(self)@ == (ManagerState { pending: Seq::empty(), ..old(self)@ }),
            old(self)@.well_formed() ==> final(self)@.well_formed(),
            final(self).handler() == old(self).handler(),
    {
        let mut calls: Vec<HookCall> = Vec::new();
        std::mem::swap(&mut self.pending, &mut calls);
        calls
    }

    /// The tracks that have finished, the latest one last.
    pub fn history(&self) -> (tracks: &Vec<Track>)
        ensures
            track_views(tracks@) == self@.history,
    {
        &self.previous
    }

    /// The reaction to the engine's report that the playing track has ended: the end
    /// is reported to the handler, then playback moves on. Where no track was
    /// playing the report is refused, and playback moves on all the same.
    pub fn track_ended(&mut self) -> (outcome: (Result<(), Error>, Option<Track>))
        ensures
            final(self)@ == old(self)@.track_ended(),
            old(self)@.well_formed() ==> final(self)@.well_formed(),
            final(self).handler() == old(self).handler(),
            outcome.0 is Ok <==> !old(self)@.idle(),
            outcome.0 is Err ==> outcome.0 == Err::<(), Error>(Error::UsageViolation),
            slot_view(outcome.1) == old(self)@.upcoming(),
    {
        let reported = self.emit(Event::TrackEnded);
        let started = self.next();
        (reported, started)
    }
}

impl<H> Default for MusicManager<H> {
    fn default() -> (manager: Self)
        ensures
            manager@ == ManagerState::fresh(),
            manager.handler() is None,
    {
        MusicManager::new()
    }
}

} // verus!
