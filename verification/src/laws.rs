//! What holds of the playback model whatever the tracks and however long the run.
//!
//! Each law is a proof about the transitions of [`ManagerState`]. The operations of
//! the manager are stated by the same transitions, so each law holds of every
//! manager.

use vstd::prelude::*;
use vstd::arithmetic::div_mod::{lemma_fundamental_div_mod, lemma_mod_pos_bound, lemma_small_mod};
use crate::state::{
    hook_for, newest, remember, EventView, HookCallView, Loop, ManagerState, HISTORY_LIMIT,
};
use crate::track::TrackView;

verus! {

impl ManagerState {
    /// The state once every track of `tracks` has been added, in order.
    pub open spec fn add_all(self, tracks: Seq<TrackView>) -> ManagerState
        decreases tracks.len(),
    {
        if tracks.len() == 0 {
            self
        } else {
            self.add_all(tracks.drop_last()).add(tracks.last())
        }
    }

    /// The state once playback has moved on `count` times.
    pub open spec fn advance(self, count: nat) -> ManagerState
        decreases count,
    {
        if count == 0 {
            self
        } else {
            self.advance((count - 1) as nat).next()
        }
    }

    /// The state once `count` entries of the history have been asked back.
    pub open spec fn rewind(self, count: nat) -> ManagerState
        decreases count,
    {
        if count == 0 {
            self
        } else {
            self.rewind((count - 1) as nat).previous()
        }
    }
}

/// No operation lets the history grow past its limit, and a fresh tenant starts
/// within it.
pub proof fn lemma_history_stays_bounded(state: ManagerState, track: TrackView, index: int)
    requires
        state.well_formed(),
    ensures
        ManagerState::fresh().well_formed(),
        state.add(track).well_formed(),
        state.next().well_formed(),
        state.skip().well_formed(),
        state.previous().well_formed(),
        state.remove(index).well_formed(),
        state.clear().well_formed(),
        state.track_ended().well_formed(),
{
}

/// One event, one hook call. To emit an event never touches the queue, the
/// history, the playing track or the loop mode. With a handler attached, an event
/// that the state accepts adds exactly one call to those that are owed, the call
/// of the hook that answers the event; in every other case nothing is owed anew.
pub proof fn lemma_emit_owes_one_call(state: ManagerState, event: EventView)
    ensures
        state.emit(event).queue == state.queue,
        state.emit(event).history == state.history,
        state.emit(event).playing == state.playing,
        state.emit(event).mode == state.mode,
        state.emit(event).attached == state.attached,
        state.attached && state.accepts(event) ==> state.emit(event).pending
            == state.pending.push(hook_for(event, state.playing)->0),
        !(state.attached && state.accepts(event)) ==> state.emit(event) == state,
        state.accepts(event) <==> !(event is TrackEnded && state.idle()),
{
}

/// What becomes of a finished track. When `next` starts the front of the queue,
/// the track that was playing, if any, has finished: it is the newest entry of the
/// history, and the loop mode puts it at the front of what still waits, at the
/// back of it, or nowhere. The tracks that still wait keep their order. Where
/// nothing was playing, the history stays and the queue only loses its front.
pub proof fn lemma_finished_track_is_kept(state: ManagerState)
    requires
        state.queue.len() > 0,
    ensures
        state.next().playing == Some(state.queue[0]),
        match state.playing {
            Some(finished) => {
                &&& state.next().history == remember(state.history, finished)
                &&& state.next().history.last() == finished
                &&& state.mode == Loop::Off ==> state.next().queue == state.queue.drop_first()
                &&& state.mode == Loop::Track ==> state.next().queue == seq![finished]
                    + state.queue.drop_first()
                &&& state.mode == Loop::Queue ==> state.next().queue
                    == state.queue.drop_first().push(finished)
            },
            None => {
                &&& state.next().history == state.history
                &&& state.next().queue == state.queue.drop_first()
            },
        },
{
}

/// The last track of a run enters the history. Where a track finishes on an empty
/// queue, `next` leaves nothing playing and the track is the newest entry of the
/// history. Whatever the loop mode, the queue stays empty, and nothing is owed
/// to the handler anew.
pub proof fn lemma_last_track_enters_history(state: ManagerState)
    requires
        state.queue.len() == 0,
    ensures
        state.next() == (ManagerState {
            playing: None,
            history: state.history_after_next(),
            ..state
        }),
        state.playing matches Some(finished) ==> state.next().history == remember(
            state.history,
            finished,
        ) && state.next().history.last() == finished,
        state.idle() ==> state.next() == state,
{
}

/// Adding tracks while a track is playing only lengthens the queue: the tracks
/// wait behind those that waited before, in the order in which they were added.
pub proof fn lemma_adds_queue_in_order(state: ManagerState, tracks: Seq<TrackView>)
    requires
        !state.idle(),
    ensures
        state.add_all(tracks).queue == state.queue + tracks,
        state.add_all(tracks).playing == state.playing,
        state.add_all(tracks).history == state.history,
        state.add_all(tracks).mode == state.mode,
        state.add_all(tracks).attached == state.attached,
    decreases tracks.len(),
{
    if tracks.len() > 0 {
        lemma_adds_queue_in_order(state, tracks.drop_last());
    }
}

/// Without a loop, moving on `count` times takes the first `count` tracks off the
/// queue and leaves the rest as it was.
pub proof fn lemma_advance_consumes_queue(state: ManagerState, count: nat)
    requires
        state.mode == Loop::Off,
        count <= state.queue.len(),
    ensures
        state.advance(count).queue == state.queue.skip(count as int),
        state.advance(count).mode == Loop::Off,
        state.advance(count).attached == state.attached,
    decreases count,
{
    if count > 0 {
        lemma_advance_consumes_queue(state, (count - 1) as nat);
    }
}

/// First in, first out. On a tenant that is playing, with an empty queue and no
/// loop: once the tracks of `tracks` have been added in order, the calls of `next`
/// start them in that order, one each, and the call after the last starts nothing.
pub proof fn lemma_fifo_order(state: ManagerState, tracks: Seq<TrackView>, calls: nat)
    requires
        !state.idle(),
        state.queue.len() == 0,
        state.mode == Loop::Off,
        calls <= tracks.len(),
    ensures
        state.add_all(tracks).advance(calls).upcoming() == if calls < tracks.len() {
            Some(tracks[calls as int])
        } else {
            None
        },
{
    lemma_adds_queue_in_order(state, tracks);
    lemma_advance_consumes_queue(state.add_all(tracks), calls);
}

/// First in, first out, on an idle tenant with an empty queue and no loop: the
/// first track that is added starts at once, and the calls of `next` start the
/// others in the order in which they were added, then nothing.
pub proof fn lemma_fifo_order_from_idle(state: ManagerState, tracks: Seq<TrackView>, calls: nat)
    requires
        state.idle(),
        state.queue.len() == 0,
        state.mode == Loop::Off,
        tracks.len() > 0,
        calls < tracks.len(),
    ensures
        state.add(tracks[0]).playing == Some(tracks[0]),
        state.add_all(tracks).advance(calls).upcoming() == if calls + 1 < tracks.len() {
            Some(tracks[calls as int + 1])
        } else {
            None
        },
{
    let started = state.add(tracks[0]);
    let rest = tracks.skip(1);
    lemma_add_all_splits(state, tracks);
    lemma_adds_queue_in_order(started, rest);
    lemma_advance_consumes_queue(started.add_all(rest), calls);
}

/// Adding a sequence of tracks is adding its first track, then the others.
pub proof fn lemma_add_all_splits(state: ManagerState, tracks: Seq<TrackView>)
    requires
        tracks.len() > 0,
    ensures
        state.add_all(tracks) == state.add(tracks[0]).add_all(tracks.skip(1)),
    decreases tracks.len(),
{
    if tracks.len() == 1 {
        assert(state.add_all(tracks.drop_last()) == state);
    } else {
        lemma_add_all_splits(state, tracks.drop_last());
        assert(tracks.drop_last().skip(1) =~= tracks.skip(1).drop_last());
    }
}

/// Auto-start. A track that is added to an idle tenant with an empty queue plays
/// when `add` returns; the queue is empty again and the history is as it was. An
/// attached handler is owed the addition and then one start of that track, and
/// nothing else; without a handler nothing is owed.
pub proof fn lemma_auto_start(state: ManagerState, track: TrackView)
    requires
        state.idle(),
        state.queue.len() == 0,
    ensures
        state.add(track).playing == Some(track),
        state.attached ==> state.add(track).pending == state.pending + seq![
            HookCallView::QueueAdded(track),
            HookCallView::TrackStart(track),
        ],
        !state.attached ==> state.add(track).pending == state.pending,
        state.add(track).queue.len() == 0,
        state.add(track).history == state.history,
{
}

/// Track loop. While the loop mode puts the finished track at the front, the
/// track that plays and the front of the queue change places with every call of
/// `next`: the calls start the front of the queue and the track that was playing
/// in turn, and the rest of the queue never moves.
pub proof fn lemma_track_loop_alternates(state: ManagerState, calls: nat)
    requires
        state.mode == Loop::Track,
        state.playing is Some,
        state.queue.len() > 0,
    ensures
        state.advance(calls).mode == Loop::Track,
        calls % 2 == 0 ==> state.advance(calls).queue == state.queue,
        calls % 2 == 0 ==> state.advance(calls).playing == state.playing,
        calls % 2 == 1 ==> state.advance(calls).queue == seq![state.playing->0]
            + state.queue.drop_first(),
        calls % 2 == 1 ==> state.advance(calls).playing == Some(state.queue[0]),
        state.advance(calls).upcoming() == if calls % 2 == 0 {
            Some(state.queue[0])
        } else {
            state.playing
        },
    decreases calls,
{
    if calls > 0 {
        lemma_track_loop_alternates(state, (calls - 1) as nat);
    }
}

/// Track loop, replay. Where the track that plays and the front of the queue come
/// from one source, every call of `next` starts a track of that source, and the
/// queue never runs empty.
pub proof fn lemma_track_loop_replays(state: ManagerState, calls: nat)
    requires
        state.mode == Loop::Track,
        state.queue.len() > 0,
        state.playing matches Some(playing) && playing.same_source(state.queue[0]),
    ensures
        state.advance(calls).upcoming() matches Some(track) && track.same_source(state.queue[0]),
        state.advance(calls).queue.len() == state.queue.len(),
{
    lemma_track_loop_alternates(state, calls);
}

/// The queue turned by `shift` places: the track at `shift` comes first, and the
/// tracks before it follow the last.
pub open spec fn rotated(queue: Seq<TrackView>, shift: int) -> Seq<TrackView> {
    queue.skip(shift) + queue.take(shift)
}

/// Moving on `calls` times is moving on once, then `calls - 1` times.
pub proof fn lemma_advance_starts_with_next(state: ManagerState, calls: nat)
    requires
        calls > 0,
    ensures
        state.advance(calls) == state.next().advance((calls - 1) as nat),
    decreases calls,
{
    if calls == 1 {
        assert(state.advance(0) == state);
        assert(state.next().advance(0) == state.next());
    } else {
        lemma_advance_starts_with_next(state, (calls - 1) as nat);
    }
}

/// Queue loop, on a tenant that is playing. While the loop mode puts the finished
/// track at the back, the track that plays and the tracks of the queue make a
/// round, the playing track first: after `calls` calls of `next` the track at
/// `calls` modulo the length of the round plays, the tracks after it on the round
/// wait in their order, and those before it wait behind them.
pub proof fn lemma_queue_loop_goes_round(state: ManagerState, calls: nat)
    requires
        state.mode == Loop::Queue,
        state.playing is Some,
        state.queue.len() > 0,
    ensures
        ({
            let round = seq![state.playing->0] + state.queue;
            let place = (calls as int) % (round.len() as int);
            &&& state.advance(calls).mode == Loop::Queue
            &&& state.advance(calls).playing == Some(round[place])
            &&& state.advance(calls).queue == round.skip(place + 1) + round.take(place)
            &&& state.advance(calls).upcoming() == Some(
                round[(calls as int + 1) % (round.len() as int)],
            )
        }),
    decreases calls,
{
    let round = seq![state.playing->0] + state.queue;
    let length = round.len() as int;
    lemma_mod_pos_bound(calls as int, length);
    lemma_next_place(calls as int, length);
    if calls == 0 {
        lemma_small_mod(0, length as nat);
    } else {
        lemma_queue_loop_goes_round(state, (calls - 1) as nat);
        lemma_mod_pos_bound(calls - 1, length);
        lemma_next_place(calls - 1, length);
    }
}

/// Queue loop, from rest. On an idle tenant whose queue holds two tracks or more,
/// the calls of `next` go round the queue: the call after `calls` others starts
/// the track at `calls` modulo the length of the queue.
pub proof fn lemma_queue_loop_cycles(state: ManagerState, calls: nat)
    requires
        state.mode == Loop::Queue,
        state.idle(),
        state.queue.len() >= 2,
    ensures
        state.advance(calls).upcoming() == Some(
            state.queue[(calls as int) % (state.queue.len() as int)],
        ),
{
    let length = state.queue.len() as int;
    if calls == 0 {
        lemma_small_mod(0, length as nat);
    } else {
        lemma_advance_starts_with_next(state, calls);
        lemma_queue_loop_goes_round(state.next(), (calls - 1) as nat);
    }
}

/// The place after `x` on a round of `length` places.
proof fn lemma_next_place(x: int, length: int)
    requires
        0 <= x,
        0 < length,
    ensures
        (x + 1) % length == if x % length + 1 == length {
            0
        } else {
            x % length + 1
        },
{
    lemma_fundamental_div_mod(x, length);
    lemma_fundamental_div_mod(x + 1, length);
    lemma_mod_pos_bound(x, length);
    lemma_mod_pos_bound(x + 1, length);
    let q = x / length;
    let q1 = (x + 1) / length;
    assert(length * (q1 - q) == length * q1 - length * q) by (nonlinear_arith);
    if q1 - q >= 2 {
        assert(length * (q1 - q) >= 2 * length) by (nonlinear_arith)
            requires
                q1 - q >= 2,
                length > 0,
        ;
    } else if q1 - q <= -1 {
        assert(length * (q1 - q) <= -length) by (nonlinear_arith)
            requires
                q1 - q <= -1,
                length > 0,
        ;
    } else if q1 - q == 1 {
        assert(length * (q1 - q) == length) by (nonlinear_arith)
            requires
                q1 - q == 1,
        ;
    } else {
        assert(length * (q1 - q) == 0) by (nonlinear_arith)
            requires
                q1 - q == 0,
        ;
    }
}

/// The track of a slot as a sequence: the track alone, or nothing.
pub open spec fn slot_tracks(slot: Option<TrackView>) -> Seq<TrackView> {
    match slot {
        Some(track) => seq![track],
        None => Seq::empty(),
    }
}

/// History bound. Without a loop, after `count` calls of `next` the tracks that
/// have finished are the one that was playing at first, if any, and the first
/// `count - 1` of the queue; the call after the last track of the queue finishes
/// that track too and leaves the tenant idle. The history then holds the newest
/// of what it held before followed by the finished tracks in the order in which
/// they finished: all of them where they are no more than the limit, else
/// exactly the last ones up to the limit.
pub proof fn lemma_history_keeps_newest(state: ManagerState, count: nat)
    requires
        state.well_formed(),
        state.mode == Loop::Off,
        0 < count <= state.queue.len() + 1,
    ensures
        state.advance(count).history == newest(
            state.history + slot_tracks(state.playing) + state.queue.take(count - 1),
            HISTORY_LIMIT as int,
        ),
        state.advance(count).history.len() <= HISTORY_LIMIT,
        state.advance(count).playing == if count <= state.queue.len() {
            Some(state.queue[count - 1])
        } else {
            None
        },
    decreases count,
{
    if count == 1 {
        assert(state.advance(1) == state.next());
        assert(state.history + slot_tracks(state.playing) + state.queue.take(0) =~= match state.playing {
            Some(finished) => state.history.push(finished),
            None => state.history,
        });
    } else {
        lemma_history_keeps_newest(state, (count - 1) as nat);
        lemma_advance_consumes_queue(state, (count - 1) as nat);
        lemma_newest_absorbs(
            state.history + slot_tracks(state.playing) + state.queue.take(count - 2),
            state.queue[count - 2],
        );
        assert((state.history + slot_tracks(state.playing) + state.queue.take(count - 2)).push(
            state.queue[count - 2],
        ) =~= state.history + slot_tracks(state.playing) + state.queue.take(count - 1));
    }
}

/// A run that plays out. On a fresh tenant without a loop, once the tracks of
/// `tracks` have been added and `next` has been called as often as there are
/// tracks, every track has played and the tenant is idle. The history holds the
/// newest of the tracks up to the limit, and asking them back hands them out
/// newest first: the call after `back` others returns the track that is `back`
/// places before the last, and the call after the last of them returns nothing.
pub proof fn lemma_run_is_remembered(tracks: Seq<TrackView>, back: nat)
    requires
        tracks.len() > 0,
    ensures
        ({
            let done = ManagerState::fresh().add_all(tracks).advance(tracks.len());
            let kept = newest(tracks, HISTORY_LIMIT as int);
            &&& done.idle()
            &&& done.queue.len() == 0
            &&& done.history == kept
            &&& back < kept.len() ==> done.rewind(back).latest() == Some(
                tracks[tracks.len() - 1 - back],
            )
            &&& back >= kept.len() ==> done.rewind(back).latest() is None
        }),
{
    let fresh = ManagerState::fresh();
    let started = fresh.add(tracks[0]);
    let rest = tracks.skip(1);
    let loaded = fresh.add_all(tracks);
    lemma_auto_start(fresh, tracks[0]);
    lemma_add_all_splits(fresh, tracks);
    lemma_adds_queue_in_order(started, rest);
    assert(loaded.queue =~= rest);
    lemma_history_keeps_newest(loaded, tracks.len());
    assert(loaded.history + slot_tracks(loaded.playing) + loaded.queue.take(tracks.len() - 1)
        =~= tracks);
    if tracks.len() > 1 {
        lemma_advance_consumes_queue(loaded, (tracks.len() - 1) as nat);
    }
    lemma_previous_returns_newest_first(loaded.advance(tracks.len()), back);
}

/// Keeping the newest entries, then adding one and keeping the newest again, keeps
/// what adding the one and keeping the newest once would keep.
proof fn lemma_newest_absorbs(played: Seq<TrackView>, track: TrackView)
    ensures
        newest(newest(played, HISTORY_LIMIT as int).push(track), HISTORY_LIMIT as int) == newest(
            played.push(track),
            HISTORY_LIMIT as int,
        ),
{
}

/// Going back. Asking entries of the history back hands them out newest first: the
/// call after `count` others returns the entry that is `count` places before the
/// last, and the entries that were asked back stand at the front of the queue, the
/// oldest of them first. Once the history is empty a call returns nothing and
/// changes nothing.
pub proof fn lemma_previous_returns_newest_first(state: ManagerState, count: nat)
    ensures
        count < state.history.len() ==> state.rewind(count).latest() == Some(
            state.history[state.history.len() - 1 - count],
        ),
        count >= state.history.len() ==> state.rewind(count).latest() is None,
        count >= state.history.len() ==> state.rewind(count).previous() == state.rewind(count),
        count <= state.history.len() ==> state.rewind(count).history == state.history.take(
            state.history.len() - count,
        ),
        count <= state.history.len() ==> state.rewind(count).queue == state.history.skip(
            state.history.len() - count,
        ) + state.queue,
        state.rewind(count).playing == state.playing,
        state.rewind(count).pending == state.pending,
    decreases count,
{
    if count > 0 {
        lemma_previous_returns_newest_first(state, (count - 1) as nat);
    }
}

/// Skip ordering. A skip moves playback exactly as `next` does, from the same
/// queue: it starts the same track and leaves the same queue, history and playing
/// track. An attached handler is owed the skip first and the start of the next
/// track, if there is one, after it.
pub proof fn lemma_skip_reports_before_start(state: ManagerState)
    ensures
        state.emit(EventView::TrackSkipped).upcoming() == state.upcoming(),
        state.skip().queue == state.next().queue,
        state.skip().history == state.next().history,
        state.skip().playing == state.next().playing,
        state.skip().playing == state.upcoming(),
        state.attached ==> state.skip().pending == state.pending + seq![
            HookCallView::TrackSkipped,
        ] + match state.upcoming() {
            Some(track) => seq![HookCallView::TrackStart(track)],
            None => Seq::<HookCallView>::empty(),
        },
        !state.attached ==> state.skip().pending == state.pending,
{
}

/// Idle next. On an empty queue every call of `next` starts nothing, leaves
/// nothing playing and owes the handler nothing. The first call puts a track that
/// was playing into the history; after it a further call changes nothing at all,
/// and on an idle tenant no call changes anything.
pub proof fn lemma_next_on_empty_queue(state: ManagerState, calls: nat)
    requires
        state.queue.len() == 0,
    ensures
        state.advance(calls).upcoming() is None,
        state.advance(calls).pending == state.pending,
        state.advance(calls).queue == state.queue,
        state.advance(calls).history == if calls > 0 {
            state.history_after_next()
        } else {
            state.history
        },
        calls > 0 ==> state.advance(calls).playing is None,
        calls > 0 ==> state.advance(calls) == state.next(),
        state.idle() ==> state.advance(calls) == state,
    decreases calls,
{
    if calls > 0 {
        lemma_next_on_empty_queue(state, (calls - 1) as nat);
    }
}

} // verus!
