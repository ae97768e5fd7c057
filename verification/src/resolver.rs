//! What is looked up in the catalogue for a query, and which of the answers is
//! played.

use vstd::prelude::*;
use vstd::string::{StrSliceExecFns, StringExecFns};
use crate::error::Error;
use crate::track::{Track, TrackView, VideoMetadata, VideoMetadataView};

verus! {

/// How a query that is a link begins.
pub open spec fn link_prefix() -> Seq<char> {
    seq!['h', 't', 't', 'p']
}

/// What stands before the video's identifier in a link.
pub open spec fn id_marker() -> Seq<char> {
    seq!['?', 'v', '=']
}

/// How the parameter of a search begins.
pub open spec fn search_prefix() -> Seq<char> {
    seq!['q', '=']
}

/// Whether `text` begins with `prefix`.
pub open spec fn starts_with(text: Seq<char>, prefix: Seq<char>) -> bool {
    prefix.len() <= text.len() && text.take(prefix.len() as int) == prefix
}

/// Whether `pattern` stands in `text` at the position `at`.
pub open spec fn occurs_at(text: Seq<char>, pattern: Seq<char>, at: int) -> bool {
    0 <= at && at + pattern.len() <= text.len() && text.subrange(at, at + pattern.len())
        == pattern
}

/// Whether `at` is the last position at which `pattern` stands in `text`.
pub open spec fn last_occurrence(text: Seq<char>, pattern: Seq<char>, at: int) -> bool {
    occurs_at(text, pattern, at) && forall|later: int|
        occurs_at(text, pattern, later) ==> later <= at
}

/// Whether `id` is the identifier that a link names: what follows the last
/// [`id_marker`] of the link, or the whole link where it holds no marker.
pub open spec fn is_video_id(link: Seq<char>, id: Seq<char>) -> bool {
    if exists|at: int| occurs_at(link, id_marker(), at) {
        exists|at: int| #[trigger]
            last_occurrence(link, id_marker(), at) && id == link.skip(at + id_marker().len())
    } else {
        id == link
    }
}

/// What is asked of the catalogue.
#[derive(Debug)]
pub enum Lookup {
    /// A search, with its parameter.
    Search(String),
    /// The video of this identifier.
    Video(String),
}

/// The model of a [`Lookup`].
pub enum LookupView {
    Search(Seq<char>),
    Video(Seq<char>),
}

impl View for Lookup {
    type V = LookupView;

    open spec fn view(&self) -> LookupView {
        match self {
            Lookup::Search(parameter) => LookupView::Search(parameter@),
            Lookup::Video(id) => LookupView::Video(id@),
        }
    }
}

/// Whether `lookup` is what is asked of the catalogue for `query`: a query that
/// begins like a link asks for the video that the link names, any other query
/// is searched for as it stands.
pub open spec fn answers(query: Seq<char>, lookup: LookupView) -> bool {
    if starts_with(query, link_prefix()) {
        lookup matches LookupView::Video(id) && is_video_id(query, id)
    } else {
        lookup == LookupView::Search(search_prefix() + query)
    }
}

/// The characters of a text, one by one.
pub fn characters(text: &str) -> (chars: Vec<char>)
    ensures
        chars@ == text@,
{
    let mut chars: Vec<char> = Vec::new();
    for c in iter: text.chars()
        invariant
            chars@ == iter.seq().take(iter.index() as int),
            iter.seq() == text@,
    {
        chars.push(c);
    }
    chars
}

/// Whether a query is a link rather than words to search for.
pub fn is_link(query: &str) -> (link: bool)
    ensures
        link == starts_with(query@, link_prefix()),
{
    let chars = characters(query);
    let link = chars.len() >= 4 && chars[0] == 'h' && chars[1] == 't' && chars[2] == 't'
        && chars[3] == 'p';
    proof {
        if link {
            assert(query@.take(4) =~= link_prefix());
        }
    }
    link
}

/// The identifier of the video that a link names.
pub fn video_id(link: &str) -> (id: String)
    ensures
        is_video_id(link@, id@),
{
    let chars = characters(link);
    let length = chars.len();
    let mut at = length;
    while at > 0
        invariant
            at <= length,
            length == chars@.len(),
            chars@ == link@,
            forall|later: int| at <= later ==> !occurs_at(link@, id_marker(), later),
        decreases at,
    {
        at -= 1;
        if length - at >= 3 && chars[at] == '?' && chars[at + 1] == 'v' && chars[at + 2] == '=' {
            proof {
                assert(link@.subrange(at as int, at + 3) =~= id_marker());
                assert(last_occurrence(link@, id_marker(), at as int));
            }
            return String::from_str(link.substring_char(at + 3, length));
        }
    }
    String::from_str(link)
}

/// Decides what is asked of the catalogue for a query.
pub fn lookup_for(query: &str) -> (lookup: Lookup)
    ensures
        answers(query@, lookup@),
{
    if is_link(query) {
        Lookup::Video(video_id(query))
    } else {
        let mut parameter = String::from_str("q=");
        proof {
            reveal_strlit("q=");
            assert("q="@ =~= search_prefix());
        }
        parameter.append(query);
        Lookup::Search(parameter)
    }
}

/// One item of what a search has found.
#[derive(Debug)]
pub enum Found {
    /// A video.
    Video(VideoMetadata),
    /// Anything that cannot be played as it is: a playlist, a channel.
    Other,
}

/// The model of a [`Found`].
pub enum FoundView {
    Video(VideoMetadataView),
    Other,
}

impl View for Found {
    type V = FoundView;

    open spec fn view(&self) -> FoundView {
        match self {
            Found::Video(video) => FoundView::Video(video@),
            Found::Other => FoundView::Other,
        }
    }
}

/// The models of the items of a sequence, in its order.
pub open spec fn found_views(items: Seq<Found>) -> Seq<FoundView> {
    Seq::new(items.len(), |i: int| items[i]@)
}

/// The models of the videos of a sequence, in its order.
pub open spec fn video_views(videos: Seq<VideoMetadata>) -> Seq<VideoMetadataView> {
    Seq::new(videos.len(), |i: int| videos[i]@)
}

/// The videos among what was found, in the order in which they were found. Every
/// other item is left out; nothing is added.
pub open spec fn videos_among(items: Seq<FoundView>) -> Seq<VideoMetadataView>
    decreases items.len(),
{
    if items.len() == 0 {
        Seq::empty()
    } else {
        match items.last() {
            FoundView::Video(video) => videos_among(items.drop_last()).push(video),
            FoundView::Other => videos_among(items.drop_last()),
        }
    }
}

/// Keeps the videos of what a search has found, in the order in which they were
/// found.
pub fn videos_of(items: Vec<Found>) -> (videos: Vec<VideoMetadata>)
    ensures
        video_views(videos@) == videos_among(found_views(items@)),
{
    let mut videos: Vec<VideoMetadata> = Vec::new();
    for item in iter: items
        invariant
            iter.seq() == items@,
            video_views(videos@) == videos_among(
                found_views(iter.seq().take(iter.index() as int)),
            ),
    {
        assert(found_views(iter.seq().take(iter.index() + 1)).drop_last() =~= found_views(
            iter.seq().take(iter.index() as int),
        ));
        match item {
            Found::Video(video) => {
                videos.push(video);
            },
            Found::Other => {},
        }
    }
    assert(items@.take(items@.len() as int) =~= items@);
    videos
}

/// Picks the track to play among what the catalogue has found: the first, where
/// there is one.
pub fn select_track(candidates: Vec<VideoMetadata>) -> (outcome: Result<Track, Error>)
    ensures
        match outcome {
            Ok(track) => candidates@.len() > 0 && track@ == TrackView::of_video(candidates@[0]@),
            Err(error) => candidates@.len() == 0 && error == Error::ResolutionError,
        },
{
    let mut candidates = candidates;
    if candidates.len() == 0 {
        Err(Error::ResolutionError)
    } else {
        Ok(Track::from_youtube(candidates.swap_remove(0)))
    }
}

} // verus!
