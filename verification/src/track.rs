//! Tracks: what the library index hands to the playback session.

use crate::text::ends_with;
use crate::text::rank_of;
use crate::text::str_ends_with;
use crate::text::str_lt;
use crate::text::Rank;
use vstd::prelude::*;

verus! {

/// A piece of music: its title and where its audio lies.
///
/// A track is never changed once the index has produced it. Two tracks are
/// the same track when they lie at the same location.
#[derive(Debug, PartialEq, Eq)]
pub struct Track {
    pub title: String,
    pub location: String,
}

/// A track as contracts speak of it.
pub struct TrackView {
    pub title: Seq<char>,
    pub location: Seq<char>,
}

impl View for Track {
    type V = TrackView;

    open spec fn view(&self) -> TrackView {
        TrackView { title: self.title@, location: self.location@ }
    }
}

/// A location is playable when it names an MP3 file.
pub open spec fn playable(location: Seq<char>) -> bool {
    ends_with(location, ".mp3"@)
}

/// `a` and `b` are the same track: they lie at the same location.
pub open spec fn same_track(a: TrackView, b: TrackView) -> bool {
    a.location == b.location
}

/// `a` comes before `b` where tracks are listed, or is listed like it:
/// tracks are listed by title, and those of one title by location.
pub open spec fn track_le(a: TrackView, b: TrackView) -> bool {
    str_lt(a.title, b.title) || (a.title == b.title && (a.location == b.location || str_lt(
        a.location,
        b.location,
    )))
}

impl Clone for Track {
    fn clone(&self) -> (copy: Track)
        ensures
            copy@ == self@,
    {
        Track { title: self.title.clone(), location: self.location.clone() }
    }
}

impl Track {
    pub fn new(title: String, location: String) -> (track: Track)
        ensures
            track.title == title,
            track.location == location,
    {
        Track { title, location }
    }

    /// Whether the player can be asked to play this track.
    pub fn is_playable(&self) -> (yes: bool)
        ensures
            yes == playable(self@.location),
    {
        str_ends_with(self.location.as_str(), ".mp3")
    }

    /// Whether `other` is this track.
    pub fn is_same_track(&self, other: &Track) -> (yes: bool)
        ensures
            yes == same_track(self@, other@),
    {
        self.location == other.location
    }

    /// Whether this track is listed before `other`, or like it.
    pub fn listed_before(&self, other: &Track) -> (yes: bool)
        ensures
            yes == track_le(self@, other@),
    {
        match rank_of(self.title.as_str(), other.title.as_str()) {
            Rank::Before => true,
            Rank::After => {
                proof {
                    crate::text::lemma_str_lt_total(self@.title, other@.title);
                }
                false
            },
            Rank::Same => {
                proof {
                    crate::text::lemma_str_lt_total(self@.title, other@.title);
                }
                match rank_of(self.location.as_str(), other.location.as_str()) {
                    Rank::After => false,
                    _ => true,
                }
            },
        }
    }
}

} // verus!
