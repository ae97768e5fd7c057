//! Tracks and the sources they are played from.

use vstd::prelude::*;
use vstd::std_specs::cmp::PartialEqSpecImpl;
use vstd::string::StringExecFns;

verus! {

/// What a catalogue lookup reports of one video, as plain values.
#[derive(Debug)]
pub struct VideoMetadata {
    /// The catalogue's identifier of the video.
    pub id: String,
    pub title: String,
    /// The addresses of the preview images, in the catalogue's order.
    pub thumbnails: Vec<String>,
}

/// The model of a [`VideoMetadata`].
pub struct VideoMetadataView {
    pub id: Seq<char>,
    pub title: Seq<char>,
    pub thumbnails: Seq<Seq<char>>,
}

impl View for VideoMetadata {
    type V = VideoMetadataView;

    open spec fn view(&self) -> VideoMetadataView {
        VideoMetadataView {
            id: self.id@,
            title: self.title@,
            thumbnails: Seq::new(self.thumbnails@.len(), |i: int| self.thumbnails@[i]@),
        }
    }
}

impl VideoMetadataView {
    /// The first preview image, if there is one.
    pub open spec fn first_thumbnail(self) -> Option<Seq<char>> {
        if self.thumbnails.len() > 0 {
            Some(self.thumbnails[0])
        } else {
            None
        }
    }
}

/// Where a track's media comes from: the provider, and the provider's identifier.
#[derive(Debug)]
pub enum Source {
    Youtube(String),
}

/// The model of a [`Source`].
pub enum SourceView {
    Youtube(Seq<char>),
}

impl View for Source {
    type V = SourceView;

    open spec fn view(&self) -> SourceView {
        match self {
            Source::Youtube(id) => SourceView::Youtube(id@),
        }
    }
}

impl SourceView {
    /// The provider's identifier.
    pub open spec fn id(self) -> Seq<char> {
        match self {
            SourceView::Youtube(id) => id,
        }
    }

    /// The address under which the provider plays the source.
    pub open spec fn url(self) -> Seq<char> {
        match self {
            SourceView::Youtube(id) => "https://www.youtube.com/watch?v="@ + id,
        }
    }
}

impl Source {
    /// The address under which the provider plays this source.
    pub fn get_url(&self) -> (url: String)
        ensures
            url@ == self@.url(),
    {
        match self {
            Source::Youtube(id) => {
                String::from_str("https://www.youtube.com/watch?v=").concat(id.as_str())
            },
        }
    }
}

impl Clone for Source {
    fn clone(&self) -> (source: Self)
        ensures
            source == *self,
    {
        match self {
            Source::Youtube(id) => Source::Youtube(id.clone()),
        }
    }
}

impl PartialEq for Source {
    /// Two sources are equal when they name the same item of the same provider.
    fn eq(&self, other: &Source) -> (same: bool) {
        match (self, other) {
            (Source::Youtube(a), Source::Youtube(b)) => *a == *b,
        }
    }
}

impl PartialEqSpecImpl for Source {
    open spec fn obeys_eq_spec() -> bool {
        true
    }

    open spec fn eq_spec(&self, other: &Source) -> bool {
        self@ == other@
    }
}

/// A playable item. A track never changes once it is made.
#[derive(Debug)]
pub struct Track {
    pub title: String,
    pub source: Source,
    pub thumbnail: Option<String>,
}

/// The model of a [`Track`].
pub struct TrackView {
    pub title: Seq<char>,
    pub source: SourceView,
    pub thumbnail: Option<Seq<char>>,
}

impl View for Track {
    type V = TrackView;

    open spec fn view(&self) -> TrackView {
        TrackView {
            title: self.title@,
            source: self.source@,
            thumbnail: match self.thumbnail {
                Some(url) => Some(url@),
                None => None,
            },
        }
    }
}

impl TrackView {
    /// The track that stands for a catalogue video: its title, its identifier as the
    /// source, and its first preview image.
    pub open spec fn of_video(video: VideoMetadataView) -> TrackView {
        TrackView {
            title: video.title,
            source: SourceView::Youtube(video.id),
            thumbnail: video.first_thumbnail(),
        }
    }

    /// Whether two tracks are played from the same source. This is what `==` on
    /// tracks decides: title and preview image play no part.
    pub open spec fn same_source(self, other: TrackView) -> bool {
        self.source == other.source
    }
}

impl Track {
    /// The track that stands for a catalogue video.
    pub fn from_youtube(video: VideoMetadata) -> (track: Track)
        ensures
            track@ == TrackView::of_video(video@),
    {
        let thumbnail = if video.thumbnails.len() > 0 {
            Some(video.thumbnails[0].clone())
        } else {
            None
        };
        Track { title: video.title, source: Source::Youtube(video.id), thumbnail }
    }
}

impl Clone for Track {
    fn clone(&self) -> (track: Self)
        ensures
            track == *self,
    {
        Track {
            title: self.title.clone(),
            source: self.source.clone(),
            thumbnail: match &self.thumbnail {
                Some(url) => Some(url.clone()),
                None => None,
            },
        }
    }
}

impl PartialEq for Track {
    /// Tracks are compared by their source alone.
    fn eq(&self, other: &Track) -> (same: bool) {
        self.source == other.source
    }
}

impl PartialEqSpecImpl for Track {
    open spec fn obeys_eq_spec() -> bool {
        true
    }

    open spec fn eq_spec(&self, other: &Track) -> bool {
        self@.same_source(other@)
    }
}

} // verus!
