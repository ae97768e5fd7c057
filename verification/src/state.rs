//! The mathematical model of one tenant's playback state, and its transitions.
//!
//! Everything here is ghost code: the executable manager states its contracts by
//! these functions, and the laws of the library are proved of them.

use vstd::prelude::*;
use crate::track::{Track, TrackView};

verus! {

/// How many tracks the history keeps.
pub const HISTORY_LIMIT: usize = 10;

/// What becomes of a track that has finished, when the next track starts.
#[derive(Clone, Copy, Debug, PartialEq, Eq, Structural)]
pub enum Loop {
    /// The finished track is not queued again.
    Off,
    /// The finished track goes to the back of the queue, so that the whole queue
    /// repeats.
    Queue,
    /// The finished track goes back to the front of the queue.
    Track,
}

/// Something that happened to a tenant's playback.
#[derive(Debug)]
pub enum Event {
    /// A track starts playing.
    TrackStarted(Track),
    /// The track that is playing ends.
    TrackEnded,
    /// A track is added to the queue.
    QueueAdded(Track),
    /// The queue has no more tracks to play.
    QueueEmptied,
    /// The track that is playing is skipped.
    TrackSkipped,
}

/// The model of an [`Event`].
pub enum EventView {
    TrackStarted(TrackView),
    TrackEnded,
    QueueAdded(TrackView),
    QueueEmptied,
    TrackSkipped,
}

impl View for Event {
    type V = EventView;

    open spec fn view(&self) -> EventView {
        match self {
            Event::TrackStarted(track) => EventView::TrackStarted(track@),
            Event::TrackEnded => EventView::TrackEnded,
            Event::QueueAdded(track) => EventView::QueueAdded(track@),
            Event::QueueEmptied => EventView::QueueEmptied,
            Event::TrackSkipped => EventView::TrackSkipped,
        }
    }
}

/// One call of a hook of the attached handler, with what is handed to it.
#[derive(Debug)]
pub enum HookCall {
    TrackStart(Track),
    TrackEnd(Track),
    TrackSkipped,
    QueueAdded(Track),
    QueueEmptied,
}

/// The model of a [`HookCall`].
pub enum HookCallView {
    TrackStart(TrackView),
    TrackEnd(TrackView),
    TrackSkipped,
    QueueAdded(TrackView),
    QueueEmptied,
}

impl View for HookCall {
    type V = HookCallView;

    open spec fn view(&self) -> HookCallView {
        match self {
            HookCall::TrackStart(track) => HookCallView::TrackStart(track@),
            HookCall::TrackEnd(track) => HookCallView::TrackEnd(track@),
            HookCall::TrackSkipped => HookCallView::TrackSkipped,
            HookCall::QueueAdded(track) => HookCallView::QueueAdded(track@),
            HookCall::QueueEmptied => HookCallView::QueueEmptied,
        }
    }
}

/// The models of the tracks of a sequence, in its order.
pub open spec fn track_views(tracks: Seq<Track>) -> Seq<TrackView> {
    Seq::new(tracks.len(), |i: int| tracks[i]@)
}

/// The models of the hook calls of a sequence, in its order.
pub open spec fn call_views(calls: Seq<HookCall>) -> Seq<HookCallView> {
    Seq::new(calls.len(), |i: int| calls[i]@)
}

/// The model of a track that may be absent.
pub open spec fn slot_view(slot: Option<Track>) -> Option<TrackView> {
    match slot {
        Some(track) => Some(track@),
        None => None,
    }
}

/// The last `limit` items of a sequence, or all of it where it holds no more.
pub open spec fn newest<A>(items: Seq<A>, limit: int) -> Seq<A> {
    if items.len() <= limit {
        items
    } else {
        items.subrange(items.len() - limit, items.len() as int)
    }
}

/// The history once `track` has finished: it is the newest entry, and the oldest
/// entries leave so that no more than [`HISTORY_LIMIT`] stay.
pub open spec fn remember(history: Seq<TrackView>, track: TrackView) -> Seq<TrackView> {
    newest(history.push(track), HISTORY_LIMIT as int)
}

/// The queue once the loop mode has been applied to a track that has finished: the
/// track is put at the back, put at the front, or left out.
pub open spec fn loop_applied(mode: Loop, finished: TrackView, queue: Seq<TrackView>) -> Seq<
    TrackView,
> {
    match mode {
        Loop::Off => queue,
        Loop::Queue => queue.push(finished),
        Loop::Track => seq![finished] + queue,
    }
}

/// The hook that answers an event, with its argument. The end of a track is answered
/// with the track that is playing; where none is, no hook answers it.
pub open spec fn hook_for(event: EventView, playing: Option<TrackView>) -> Option<HookCallView> {
    match event {
        EventView::TrackStarted(track) => Some(HookCallView::TrackStart(track)),
        EventView::TrackEnded => match playing {
            Some(track) => Some(HookCallView::TrackEnd(track)),
            None => None,
        },
        EventView::QueueAdded(track) => Some(HookCallView::QueueAdded(track)),
        EventView::QueueEmptied => Some(HookCallView::QueueEmptied),
        EventView::TrackSkipped => Some(HookCallView::TrackSkipped),
    }
}

/// One tenant's playback state.
#[verifier::ext_equal]
pub struct ManagerState {
    /// The tracks that wait to be played, the next one first.
    pub queue: Seq<TrackView>,
    /// The tracks that have finished, the latest one last.
    pub history: Seq<TrackView>,
    /// The track that is playing, if any.
    pub playing: Option<TrackView>,
    pub mode: Loop,
    /// Whether a handler is attached.
    pub attached: bool,
    /// The hook calls that are owed to the handler, in the order in which they are
    /// to be made.
    pub pending: Seq<HookCallView>,
}

impl ManagerState {
    /// The state of a tenant that was never used.
    pub open spec fn fresh() -> ManagerState {
        ManagerState {
            queue: Seq::empty(),
            history: Seq::empty(),
            playing: None,
            mode: Loop::Off,
            attached: false,
            pending: Seq::empty(),
        }
    }

    /// What holds of every state that the operations reach.
    pub open spec fn well_formed(self) -> bool {
        self.history.len() <= HISTORY_LIMIT
    }

    /// Whether nothing is playing.
    pub open spec fn idle(self) -> bool {
        self.playing is None
    }

    /// The state once a hook call has been handed to the handler. Without a handler
    /// nothing is owed.
    pub open spec fn dispatch(self, call: HookCallView) -> ManagerState {
        if self.attached {
            ManagerState { pending: self.pending.push(call), ..self }
        } else {
            self
        }
    }

    /// Whether an event may be emitted in this state.
    pub open spec fn accepts(self, event: EventView) -> bool {
        hook_for(event, self.playing) is Some
    }

    /// The state once an event has been emitted.
    pub open spec fn emit(self, event: EventView) -> ManagerState {
        match hook_for(event, self.playing) {
            Some(call) => self.dispatch(call),
            None => self,
        }
    }

    /// The track that `next` starts.
    pub open spec fn upcoming(self) -> Option<TrackView> {
        if self.queue.len() > 0 {
            Some(self.queue[0])
        } else {
            None
        }
    }

    /// The history once playback has moved on: the track that was playing, if any,
    /// has finished and is the newest entry.
    pub open spec fn history_after_next(self) -> Seq<TrackView> {
        match self.playing {
            Some(finished) => remember(self.history, finished),
            None => self.history,
        }
    }

    /// The state once playback has moved on.
    ///
    /// The track that was playing, if any, has finished, and enters the history
    /// as the newest entry, whether another track follows or not. Where the queue
    /// is empty the tenant falls idle: nothing starts, nothing is reported, and
    /// the finished track is not queued again, whatever the loop mode. Otherwise
    /// the front of the queue starts playing, its start is reported, and the loop
    /// mode decides whether the finished track is queued again.
    pub open spec fn next(self) -> ManagerState {
        if self.queue.len() > 0 {
            let track = self.queue[0];
            let rest = self.queue.drop_first();
            ManagerState {
                queue: match self.playing {
                    Some(finished) => loop_applied(self.mode, finished, rest),
                    None => rest,
                },
                history: self.history_after_next(),
                playing: Some(track),
                ..self
            }.emit(EventView::TrackStarted(track))
        } else {
            ManagerState { playing: None, history: self.history_after_next(), ..self }
        }
    }

    /// The state once a track has been added: it is the last of the queue, the
    /// addition is reported, and an idle tenant moves on at once.
    pub open spec fn add(self, track: TrackView) -> ManagerState {
        let queued = ManagerState { queue: self.queue.push(track), ..self }.emit(
            EventView::QueueAdded(track),
        );
        if queued.idle() {
            queued.next()
        } else {
            queued
        }
    }

    /// The state once the track that is playing has been skipped: the skip is
    /// reported, then playback moves on.
    pub open spec fn skip(self) -> ManagerState {
        self.emit(EventView::TrackSkipped).next()
    }

    /// The track that `previous` hands back.
    pub open spec fn latest(self) -> Option<TrackView> {
        if self.history.len() > 0 {
            Some(self.history.last())
        } else {
            None
        }
    }

    /// The state once the latest entry of the history has gone back to the front of
    /// the queue. With an empty history nothing changes.
    pub open spec fn previous(self) -> ManagerState {
        if self.history.len() > 0 {
            ManagerState {
                queue: seq![self.history.last()] + self.queue,
                history: self.history.drop_last(),
                ..self
            }
        } else {
            self
        }
    }

    /// The state once the entry at `index` has left the queue. A position past the
    /// end changes nothing.
    pub open spec fn remove(self, index: int) -> ManagerState {
        if 0 <= index < self.queue.len() {
            ManagerState { queue: self.queue.remove(index), ..self }
        } else {
            self
        }
    }

    /// The state once the queue has been emptied.
    pub open spec fn clear(self) -> ManagerState {
        ManagerState { queue: Seq::empty(), ..self }
    }

    /// The state once the engine has reported the end of the track that is playing:
    /// the end is reported where a track is playing, then playback moves on.
    pub open spec fn track_ended(self) -> ManagerState {
        self.emit(EventView::TrackEnded).next()
    }
}

} // verus!
