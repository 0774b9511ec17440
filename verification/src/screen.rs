//! What the screen shows, as far as it is a matter of state and not of
//! drawing.

use crate::app::App;
use crate::app::AppState;
use crate::library::track_views;
use crate::text::decimal;
use crate::text::decimal_text;
use crate::track::Track;
use crate::track::TrackView;
use vstd::prelude::*;
use vstd::string::StringExecFns;

verus! {

/// How the height of the screen is shared out, in percent: the help line on
/// top, the two lists in the middle, the status at the bottom.
#[derive(Clone, Copy, Debug, PartialEq, Eq, Structural)]
pub struct RowShares {
    pub help: u16,
    pub lists: u16,
    pub status: u16,
}

/// The shares of the screen's height while something plays, or while
/// nothing does: the status gets a little more room while it has a track to
/// show.
pub open spec fn shares_when(playing: bool) -> RowShares {
    if playing {
        RowShares { help: 8, lists: 82, status: 10 }
    } else {
        RowShares { help: 8, lists: 84, status: 8 }
    }
}

impl AppState {
    /// The tracks that the track list shows: those of the highlighted
    /// artist.
    pub open spec fn shown_tracks(self) -> Option<Seq<TrackView>> {
        match self.artist_cursor {
            Some(artist) => Some(self.library.tracks[artist as int]),
            None => None,
        }
    }

    /// The heading of the track list: the artist whose tracks the user
    /// walks, or the word `Tracks` while the user walks the artists.
    pub open spec fn track_heading(self) -> Seq<char> {
        match self.selected_artist() {
            Some(artist) => self.library.artists[artist as int],
            None => "Tracks"@,
        }
    }
}

impl AppState {
    /// What the status says of the track: its title while one is loaded,
    /// an invitation while none is.
    pub open spec fn status_text(self) -> Seq<char> {
        match self.session.current_track {
            Some(track) => "Playing: "@ + track.title,
            None => "Start playing something to see it here!"@,
        }
    }
}

/// A line of the track list: the number of the track and its title, kept
/// apart so that each can be drawn in its own style.
#[derive(Debug, PartialEq, Eq)]
pub struct TrackLine {
    pub number: String,
    pub title: String,
}

/// The number before a track in the track list: its place in the list,
/// counted from one, a dot and a blank.
pub open spec fn track_number(row: nat) -> Seq<char> {
    decimal(row + 1) + ". "@
}

/// How a flag is written.
pub open spec fn flag_text(flag: bool) -> Seq<char> {
    if flag {
        "true"@
    } else {
        "false"@
    }
}

impl AppState {
    /// What the status says of volume and looping.
    pub open spec fn mirror_text(self) -> Seq<char> {
        "vol: "@ + decimal(self.session.volume as nat) + "  loop: "@ + flag_text(
            self.session.looping,
        )
    }
}

/// How the height of the screen is shared out.
pub fn row_shares(app: &App) -> (shares: RowShares)
    ensures
        shares == shares_when(app@.session.is_playing),
        shares.help + shares.lists + shares.status == 100,
{
    if app.session().is_playing() {
        RowShares { help: 8, lists: 82, status: 10 }
    } else {
        RowShares { help: 8, lists: 84, status: 8 }
    }
}

/// The tracks that the track list shows.
pub fn shown_tracks(app: &App) -> (tracks: Option<&Vec<Track>>)
    ensures
        tracks is Some <==> app@.shown_tracks() is Some,
        tracks is Some ==> Some(track_views(tracks->0@)) == app@.shown_tracks(),
{
    match app.artist_cursor() {
        Some(artist) => app.library().tracks(artist),
        None => None,
    }
}

/// The heading of the track list.
pub fn track_heading(app: &App) -> (heading: String)
    ensures
        heading@ == app@.track_heading(),
{
    let named = match app.selected_artist() {
        Some(artist) => app.library().artist(artist),
        None => None,
    };
    match named {
        Some(name) => name.clone(),
        None => String::from_str("Tracks"),
    }
}

/// The lines of the track list, one for each of the shown tracks, in their
/// order; none where no tracks are shown.
pub fn track_lines(app: &App) -> (lines: Vec<TrackLine>)
    ensures
        match app@.shown_tracks() {
            Some(tracks) => {
                &&& lines.len() == tracks.len()
                &&& forall|row: int|
                    0 <= row < tracks.len() ==> {
                        &&& (#[trigger] lines[row]).number@ == track_number(row as nat)
                        &&& lines[row].title@ == tracks[row].title
                    }
            },
            None => lines.len() == 0,
        },
{
    let mut lines: Vec<TrackLine> = Vec::new();
    let tracks = match shown_tracks(app) {
        Some(tracks) => tracks,
        None => {
            return lines;
        },
    };
    let ghost shown = app@.shown_tracks()->0;
    let mut row: usize = 0;
    while row < tracks.len()
        invariant
            row <= tracks.len(),
            shown == track_views(tracks@),
            lines.len() == row,
            forall|done: int|
                0 <= done < row ==> {
                    &&& (#[trigger] lines[done]).number@ == track_number(done as nat)
                    &&& lines[done].title@ == shown[done].title
                },
        decreases tracks.len() - row,
    {
        let line = TrackLine {
            number: decimal_text(row + 1).concat(". "),
            title: tracks[row].title.clone(),
        };
        proof {
            assert(shown[row as int] == tracks[row as int]@);
        }
        lines.push(line);
        row += 1;
    }
    lines
}

/// What the status says of volume and looping.
pub fn mirror_text(app: &App) -> (text: String)
    ensures
        text@ == app@.mirror_text(),
{
    let session = app.session();
    let volume = session.volume();
    let flag = if session.looping() {
        "true"
    } else {
        "false"
    };
    String::from_str("vol: ").concat(decimal_text(volume as usize).as_str()).concat(
        "  loop: ",
    ).concat(flag)
}

/// What the status says of the track.
pub fn status_text(app: &App) -> (text: String)
    ensures
        text@ == app@.status_text(),
{
    match app.session().current_track() {
        Some(track) => String::from_str("Playing: ").concat(track.title.as_str()),
        None => String::from_str("Start playing something to see it here!"),
    }
}

} // verus!
