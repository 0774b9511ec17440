//! The application's state: the library, where the user stands in it, and
//! the playback session.
//!
//! The screen has two lists, artists and tracks. The user walks one of
//! them at a time: the artists first, then, after choosing one, that
//! artist's tracks.

use crate::control::ControlMessage;
use crate::library::scan_view;
use crate::library::Library;
use crate::library::LibraryView;
use crate::library::ScannedFile;
use crate::session::Completion;
use crate::session::Launch;
use crate::session::PlaybackSession;
use crate::session::SessionState;
use crate::track::Track;
use crate::track::TrackView;
use vstd::prelude::*;

verus! {

/// The list that the user walks.
#[derive(Clone, Copy, Debug, PartialEq, Eq, Structural)]
pub enum Pane {
    Artists,
    Tracks,
}

/// What the application holds, as contracts speak of it.
pub struct AppState {
    pub library: LibraryView,
    /// The list that the user walks.
    pub pane: Pane,
    /// The highlighted row of the artist list.
    pub artist_cursor: Option<usize>,
    /// The highlighted row of the track list.
    pub track_cursor: Option<usize>,
    pub session: SessionState,
}

impl AppState {
    /// What holds of every application state: library and session are
    /// valid, the artist list has a highlighted row exactly if it has rows,
    /// and while the user walks the tracks, the highlighted artist has a
    /// highlighted track.
    pub open spec fn valid(self) -> bool {
        &&& self.library.valid()
        &&& self.session.valid()
        &&& self.artist_cursor is Some <==> self.library.artists.len() > 0
        &&& self.artist_cursor is Some ==> self.artist_cursor->0 < self.library.artists.len()
        &&& self.pane is Tracks ==> {
            &&& self.artist_cursor is Some
            &&& self.track_cursor is Some
            &&& self.track_cursor->0 < self.library.tracks[self.artist_cursor->0 as int].len()
        }
    }

    /// The state at program start, over `library`: the user walks the
    /// artists, the first of them is highlighted, nothing plays.
    pub open spec fn initial(library: LibraryView) -> AppState {
        AppState {
            library,
            pane: Pane::Artists,
            artist_cursor: if library.artists.len() > 0 {
                Some(0)
            } else {
                None
            },
            track_cursor: None,
            session: SessionState::initial(),
        }
    }

    /// The artist whose tracks the user walks.
    pub open spec fn selected_artist(self) -> Option<usize> {
        if self.pane is Tracks {
            self.artist_cursor
        } else {
            None
        }
    }

    /// The number of rows of the list that the user walks.
    pub open spec fn rows(self) -> int {
        match self.pane {
            Pane::Artists => self.library.artists.len() as int,
            Pane::Tracks => self.library.tracks[self.artist_cursor->0 as int].len() as int,
        }
    }

    /// The highlighted row of the list that the user walks.
    pub open spec fn cursor(self) -> Option<usize> {
        match self.pane {
            Pane::Artists => self.artist_cursor,
            Pane::Tracks => self.track_cursor,
        }
    }

    /// This state with the highlight of the walked list at `row`.
    pub open spec fn with_cursor(self, row: usize) -> AppState {
        match self.pane {
            Pane::Artists => AppState { artist_cursor: Some(row), ..self },
            Pane::Tracks => AppState { track_cursor: Some(row), ..self },
        }
    }

    /// The highlighted track, while the user walks the tracks.
    pub open spec fn highlighted_track(self) -> Option<TrackView> {
        if self.pane is Tracks {
            Some(
                self.library.tracks[self.artist_cursor->0 as int][self.track_cursor->0 as int],
            )
        } else {
            None
        }
    }

    /// This state with the session replaced.
    pub open spec fn with_session(self, session: SessionState) -> AppState {
        AppState { session, ..self }
    }
}

/// The application: library, navigation and playback session.
#[derive(Debug)]
pub struct App {
    library: Library,
    pane: Pane,
    artist_cursor: Option<usize>,
    track_cursor: Option<usize>,
    session: PlaybackSession,
}

impl View for App {
    type V = AppState;

    closed spec fn view(&self) -> AppState {
        AppState {
            library: self.library@,
            pane: self.pane,
            artist_cursor: self.artist_cursor,
            track_cursor: self.track_cursor,
            session: self.session@,
        }
    }
}

impl App {
    #[verifier::type_invariant]
    pub(crate) open spec fn well_formed(self) -> bool {
        self@.valid()
    }

    /// The application at program start, over the index of what a scan of
    /// the music directory found.
    pub fn new(files: &Vec<ScannedFile>) -> (app: App)
        ensures
            app@.valid(),
            app@.library.indexes(scan_view(files@)),
            app@ == AppState::initial(app@.library),
    {
        let library = Library::build(files);
        let artist_cursor = if library.is_empty() {
            None
        } else {
            Some(0)
        };
        App {
            library,
            pane: Pane::Artists,
            artist_cursor,
            track_cursor: None,
            session: PlaybackSession::new(),
        }
    }

    /// The library index.
    pub fn library(&self) -> (library: &Library)
        ensures
            library@ == self@.library,
            self@.valid(),
    {
        proof {
            use_type_invariant(self);
        }
        &self.library
    }

    /// The playback session.
    pub fn session(&self) -> (session: &PlaybackSession)
        ensures
            session@ == self@.session,
            self@.valid(),
    {
        proof {
            use_type_invariant(self);
        }
        &self.session
    }

    /// The list that the user walks.
    pub fn pane(&self) -> (pane: Pane)
        ensures
            pane == self@.pane,
            self@.valid(),
    {
        proof {
            use_type_invariant(self);
        }
        self.pane
    }

    /// The highlighted row of the artist list.
    pub fn artist_cursor(&self) -> (row: Option<usize>)
        ensures
            row == self@.artist_cursor,
            self@.valid(),
    {
        proof {
            use_type_invariant(self);
        }
        self.artist_cursor
    }

    /// The highlighted row of the track list.
    pub fn track_cursor(&self) -> (row: Option<usize>)
        ensures
            row == self@.track_cursor,
            self@.valid(),
    {
        proof {
            use_type_invariant(self);
        }
        self.track_cursor
    }

    /// The artist whose tracks the user walks.
    pub fn selected_artist(&self) -> (artist: Option<usize>)
        ensures
            artist == self@.selected_artist(),
            self@.valid(),
    {
        proof {
            use_type_invariant(self);
        }
        match self.pane {
            Pane::Tracks => self.artist_cursor,
            Pane::Artists => None,
        }
    }

    /// The highlighted track, while the user walks the tracks.
    pub fn highlighted_track(&self) -> (track: Option<&Track>)
        ensures
            track is Some <==> self@.pane is Tracks,
            track is Some ==> Some(track->0@) == self@.highlighted_track(),
            self@.valid(),
    {
        proof {
            use_type_invariant(self);
        }
        match (self.pane, self.artist_cursor, self.track_cursor) {
            (Pane::Tracks, Some(artist), Some(row)) => self.library.track(artist, row),
            _ => None,
        }
    }

    /// The number of rows of the list that the user walks.
    pub fn rows(&self) -> (rows: usize)
        ensures
            rows == self@.rows(),
            self@.valid(),
    {
        proof {
            use_type_invariant(self);
        }
        match (self.pane, self.artist_cursor) {
            (Pane::Tracks, Some(artist)) => self.library.track_count(artist),
            _ => self.library.artist_count(),
        }
    }

    /// The highlighted row of the list that the user walks.
    pub fn cursor(&self) -> (row: Option<usize>)
        ensures
            row == self@.cursor(),
            self@.valid(),
    {
        proof {
            use_type_invariant(self);
        }
        match self.pane {
            Pane::Artists => self.artist_cursor,
            Pane::Tracks => self.track_cursor,
        }
    }

    /// Moves the highlight of the walked list to `row`.
    pub(crate) fn set_cursor(&mut self, row: usize)
        requires
            row < old(self)@.rows(),
        ensures
            final(self)@ == old(self)@.with_cursor(row),
            final(self)@.valid(),
    {
        proof {
            use_type_invariant(&*self);
        }
        match self.pane {
            Pane::Artists => {
                self.artist_cursor = Some(row);
            },
            Pane::Tracks => {
                self.track_cursor = Some(row);
            },
        }
    }

    /// Lets the user walk the tracks of the highlighted artist, from the
    /// first track on.
    pub(crate) fn open_tracks(&mut self)
        requires
            old(self)@.artist_cursor is Some,
        ensures
            final(self)@ == (AppState { pane: Pane::Tracks, track_cursor: Some(0), ..old(self)@ }),
            final(self)@.valid(),
    {
        proof {
            use_type_invariant(&*self);
            let artist = self@.artist_cursor->0 as int;
            assert(self@.library.tracks[artist].len() > 0);
        }
        self.track_cursor = Some(0);
        self.pane = Pane::Tracks;
    }

    /// Lets the user walk the artists again.
    pub(crate) fn close_tracks(&mut self)
        ensures
            final(self)@ == (AppState { pane: Pane::Artists, ..old(self)@ }),
            final(self)@.valid(),
    {
        proof {
            use_type_invariant(&*self);
        }
        self.pane = Pane::Artists;
    }

    /// Hands the session out to be worked on; an idle one stands in for it
    /// meanwhile.
    pub(crate) fn lend_session(&mut self) -> (session: PlaybackSession)
        ensures
            session@ == old(self)@.session,
            session@.valid(),
            final(self)@ == old(self)@.with_session(SessionState::initial()),
    {
        proof {
            use_type_invariant(&*self);
        }
        let mut session = PlaybackSession::new();
        core::mem::swap(&mut self.session, &mut session);
        session
    }

    /// Takes the session back.
    pub(crate) fn take_session(&mut self, session: PlaybackSession)
        ensures
            final(self)@ == old(self)@.with_session(session@),
            final(self)@.valid(),
    {
        proof {
            use_type_invariant(&*self);
        }
        let mut session = session;
        proof {
            use_type_invariant(&session);
        }
        core::mem::swap(&mut self.session, &mut session);
    }

    /// Takes the news of how a launch went; see
    /// [`PlaybackSession::complete_launch`].
    pub fn complete_launch(&mut self, request: Launch, started: Option<u32>) -> (done: Completion)
        ensures
            final(self)@ == old(self)@.with_session(
                old(self)@.session.after_launch(request@.track, started),
            ),
            final(self)@.valid(),
            done == old(self)@.session.launch_completion(started),
    {
        proof {
            use_type_invariant(&*self);
        }
        let mut session = self.lend_session();
        let done = session.complete_launch(request, started);
        self.take_session(session);
        done
    }

    /// Takes the news of how the sending of `message` went; see
    /// [`PlaybackSession::complete_send`].
    pub fn complete_send(&mut self, message: ControlMessage, delivered: bool) -> (done: Completion)
        ensures
            final(self)@ == old(self)@.with_session(
                old(self)@.session.after_send(message, delivered),
            ),
            final(self)@.valid(),
            done == old(self)@.session.send_completion(delivered),
    {
        proof {
            use_type_invariant(&*self);
        }
        let mut session = self.lend_session();
        let done = session.complete_send(message, delivered);
        self.take_session(session);
        done
    }
}

} // verus!
