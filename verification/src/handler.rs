//! What a handler does when one of its hooks is called.
//!
//! The hooks themselves reach out to the playback engine and to the chat. What
//! they reach out for is decided here, as a list of actions for each hook call.

use vstd::prelude::*;
use vstd::string::StringExecFns;
use crate::state::{HookCall, HookCallView};
use crate::track::{Track, TrackView};

verus! {

/// How a tenant's handler behaves.
#[derive(Clone, Copy, Debug, PartialEq, Eq, Structural)]
pub struct MusicConfig {
    /// Whether the start of a track is announced in the chat.
    pub announce_songs: bool,
}

impl MusicConfig {
    /// The settings of a handler that announces every track.
    pub fn new() -> (config: Self)
        ensures
            config.announce_songs,
    {
        MusicConfig { announce_songs: true }
    }
}

/// One thing that a handler does in answer to a hook call.
#[derive(Debug)]
pub enum HandlerAction {
    /// Play this track on the tenant's voice connection.
    Play(Track),
    /// Stop what the engine is playing for the tenant.
    Stop,
    /// Tell the chat that the track of this title is playing now, with its
    /// preview image if it has one.
    AnnounceNowPlaying { title: String, image: Option<String> },
    /// Tell the chat that the track of this title was added to the queue.
    AnnounceQueued { title: String },
}

/// The model of a [`HandlerAction`].
pub enum HandlerActionView {
    Play(TrackView),
    Stop,
    AnnounceNowPlaying { title: Seq<char>, image: Option<Seq<char>> },
    AnnounceQueued { title: Seq<char> },
}

impl View for HandlerAction {
    type V = HandlerActionView;

    open spec fn view(&self) -> HandlerActionView {
        match self {
            HandlerAction::Play(track) => HandlerActionView::Play(track@),
            HandlerAction::Stop => HandlerActionView::Stop,
            HandlerAction::AnnounceNowPlaying { title, image } => {
                HandlerActionView::AnnounceNowPlaying {
                    title: title@,
                    image: match image {
                        Some(url) => Some(url@),
                        None => None,
                    },
                }
            },
            HandlerAction::AnnounceQueued { title } => HandlerActionView::AnnounceQueued {
                title: title@,
            },
        }
    }
}

/// The models of the actions of a sequence, in its order.
pub open spec fn action_views(actions: Seq<HandlerAction>) -> Seq<HandlerActionView> {
    Seq::new(actions.len(), |i: int| actions[i]@)
}

/// What a handler with these settings does in answer to a hook call, in order. A
/// track that starts is played, and announced where the settings say so; a track
/// that is queued is announced; a skip stops the engine; the other hooks do
/// nothing.
pub open spec fn planned(config: MusicConfig, call: HookCallView) -> Seq<HandlerActionView> {
    match call {
        HookCallView::TrackStart(track) => {
            let play = seq![HandlerActionView::Play(track)];
            if config.announce_songs {
                play.push(
                    HandlerActionView::AnnounceNowPlaying {
                        title: track.title,
                        image: track.thumbnail,
                    },
                )
            } else {
                play
            }
        },
        HookCallView::QueueAdded(track) => seq![
            HandlerActionView::AnnounceQueued { title: track.title },
        ],
        HookCallView::TrackSkipped => seq![HandlerActionView::Stop],
        HookCallView::TrackEnd(_) => Seq::empty(),
        HookCallView::QueueEmptied => Seq::empty(),
    }
}

/// A copy of a preview image's address, where there is one.
fn image_of(track: &Track) -> (image: Option<String>)
    ensures
        image == track.thumbnail,
{
    match &track.thumbnail {
        Some(url) => Some(url.clone()),
        None => None,
    }
}

/// The actions with which a handler answers a hook call, in the order in which it
/// takes them.
pub fn plan(config: &MusicConfig, call: &HookCall) -> (actions: Vec<HandlerAction>)
    ensures
        action_views(actions@) == planned(*config, call@),
{
    let mut actions: Vec<HandlerAction> = Vec::new();
    match call {
        HookCall::TrackStart(track) => {
            actions.push(HandlerAction::Play(track.clone()));
            if config.announce_songs {
                actions.push(
                    HandlerAction::AnnounceNowPlaying {
                        title: track.title.clone(),
                        image: image_of(track),
                    },
                );
            }
        },
        HookCall::QueueAdded(track) => {
            actions.push(HandlerAction::AnnounceQueued { title: track.title.clone() });
        },
        HookCall::TrackSkipped => {
            actions.push(HandlerAction::Stop);
        },
        HookCall::TrackEnd(_) => {},
        HookCall::QueueEmptied => {},
    }
    actions
}

/// The sentence that announces a track that starts: the emote, then the title in
/// bold.
pub open spec fn now_playing_line(emote: Seq<char>, title: Seq<char>) -> Seq<char> {
    emote + " Now playing **"@ + title + "**"@
}

/// The sentence that announces a track that starts.
pub fn now_playing_text(emote: &str, title: &str) -> (text: String)
    ensures
        text@ == now_playing_line(emote@, title@),
{
    let mut text = String::from_str(emote);
    text.append(" Now playing **");
    text.append(title);
    text.append("**");
    text
}

/// The sentence that announces a track that was queued, with the title in bold.
pub open spec fn queue_added_line(title: Seq<char>) -> Seq<char> {
    "Added **"@ + title + "** to the queue"@
}

/// The sentence that announces a track that was queued.
pub fn queue_added_text(title: &str) -> (text: String)
    ensures
        text@ == queue_added_line(title@),
{
    let mut text = String::from_str("Added **");
    text.append(title);
    text.append("** to the queue");
    text
}

} // verus!
