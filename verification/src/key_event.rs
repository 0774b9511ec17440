//! What a key does.
//!
//! A key either moves the user through the lists or is a command for the
//! playback session. Handling a key never does outside work: where a
//! command needs some, the reaction names it as a request for the host.

use crate::app::App;
use crate::app::AppState;
use crate::app::Pane;
use crate::control::ControlMessage;
use crate::control::VolumeStep;
use crate::library::has_mp3_extension;
use crate::protocol::Command;
use crate::protocol::Outcome;
use crate::protocol::World;
use crate::library::tracks_lie_in_mp3_files;
use crate::session::Launch;
use crate::session::LaunchView;
use crate::track::playable;
use vstd::prelude::*;

verus! {

/// A key of the keyboard, as far as the application tells keys apart.
#[derive(Clone, Copy, Debug, PartialEq, Eq, Structural)]
pub enum Key {
    Enter,
    Esc,
    Up,
    Down,
    Char(char),
    /// Any other key.
    Other,
}

/// Outside work that the host is asked to do.
#[derive(Debug)]
pub enum Request {
    /// Nothing to do.
    Nothing,
    /// Signal the process to terminate, and do not wait for it.
    Terminate(u32),
    /// Start the player as the launch request says, and report through
    /// [`App::complete_launch`].
    Launch(Launch),
    /// Send the message over a fresh connection to the control endpoint,
    /// and report through [`App::complete_send`].
    Send(ControlMessage),
}

/// A request as contracts speak of it.
pub enum RequestView {
    Nothing,
    Terminate(u32),
    Launch(LaunchView),
    Send(ControlMessage),
}

impl View for Request {
    type V = RequestView;

    open spec fn view(&self) -> RequestView {
        match self {
            Request::Nothing => RequestView::Nothing,
            Request::Terminate(process) => RequestView::Terminate(*process),
            Request::Launch(launch) => RequestView::Launch(launch@),
            Request::Send(message) => RequestView::Send(*message),
        }
    }
}

/// How the application reacts to a key.
#[derive(Debug)]
pub struct Reaction {
    /// Whether the program goes on; `false` after the quit key.
    pub proceed: bool,
    /// What the host must do before it reads the next key.
    pub request: Request,
}

/// The request to signal `process`, if there is one.
pub open spec fn termination_of(process: Option<u32>) -> RequestView {
    match process {
        Some(process) => RequestView::Terminate(process),
        None => RequestView::Nothing,
    }
}

/// The request to send `message`, if there is one.
pub open spec fn sending_of(message: Option<ControlMessage>) -> RequestView {
    match message {
        Some(message) => RequestView::Send(message),
        None => RequestView::Nothing,
    }
}

impl AppState {
    /// The state after the enter key: from the artists the user goes on to
    /// the tracks of the highlighted artist; among the tracks the
    /// highlighted one is asked to play.
    pub open spec fn after_enter(self) -> AppState {
        match self.pane {
            Pane::Artists => if self.artist_cursor is Some {
                AppState { pane: Pane::Tracks, track_cursor: Some(0), ..self }
            } else {
                self
            },
            Pane::Tracks => self.with_session(
                self.session.after_play_request(self.highlighted_track()->0),
            ),
        }
    }

    /// The state after the up key: the highlight moves up by a row, unless
    /// it is on the first.
    pub open spec fn after_up(self) -> AppState {
        match self.cursor() {
            Some(row) if row > 0 => self.with_cursor((row - 1) as usize),
            _ => self,
        }
    }

    /// The state after the down key: the highlight moves down by a row,
    /// unless it is on the last.
    pub open spec fn after_down(self) -> AppState {
        match self.cursor() {
            Some(row) if row + 1 < self.rows() => self.with_cursor((row + 1) as usize),
            _ => self,
        }
    }

    /// The state after `key`.
    pub open spec fn after_key(self, key: Key) -> AppState {
        match key {
            Key::Enter => self.after_enter(),
            Key::Esc => self.with_session(self.session.stopped()),
            Key::Up => self.after_up(),
            Key::Down => self.after_down(),
            Key::Char(c) => if c == 'b' {
                AppState { pane: Pane::Artists, ..self }
            } else if c == 'l' {
                self.with_session(self.session.after_loop_toggle())
            } else if c == 'q' {
                self.with_session(self.session.stopped())
            } else {
                self
            },
            Key::Other => self,
        }
    }

    /// What the host is asked to do on `key`.
    pub open spec fn request_on(self, key: Key) -> RequestView {
        match key {
            Key::Enter => match self.highlighted_track() {
                Some(track) if playable(track.location) => RequestView::Launch(
                    LaunchView { track, terminate: self.session.process },
                ),
                _ => RequestView::Nothing,
            },
            Key::Esc => termination_of(self.session.process),
            Key::Char(c) => if c == '+' {
                sending_of(self.session.volume_request(VolumeStep::Up))
            } else if c == '-' {
                sending_of(self.session.volume_request(VolumeStep::Down))
            } else if c == 'p' {
                sending_of(self.session.pause_request())
            } else if c == 'l' {
                sending_of(self.session.loop_request())
            } else if c == 'q' {
                termination_of(self.session.process)
            } else {
                RequestView::Nothing
            },
            _ => RequestView::Nothing,
        }
    }
}

impl AppState {
    /// The state after the keys of `keys`, in their order, where no key
    /// asked for outside work that changed the session.
    pub open spec fn after_keys(self, keys: Seq<Key>) -> AppState
        decreases keys.len(),
    {
        if keys.len() == 0 {
            self
        } else {
            self.after_keys(keys.drop_last()).after_key(keys.last())
        }
    }
}

/// A key keeps a valid state valid, and never touches the library.
pub proof fn lemma_key_keeps_valid(state: AppState, key: Key)
    requires
        state.valid(),
    ensures
        state.after_key(key).valid(),
        state.after_key(key).library == state.library,
{
    if state.artist_cursor is Some {
        let artist = state.artist_cursor->0 as int;
        assert(state.library.tracks[artist].len() > 0);
    }
}

impl AppState {
    /// The command for the playback session that `key` stands for, if it
    /// stands for one.
    pub open spec fn command_on(self, key: Key) -> Option<Command> {
        match key {
            Key::Enter => match self.highlighted_track() {
                Some(track) => Some(Command::PlayTrack(track)),
                None => None,
            },
            Key::Esc => Some(Command::Stop),
            Key::Char(c) => if c == '+' {
                Some(Command::AdjustVolume(VolumeStep::Up))
            } else if c == '-' {
                Some(Command::AdjustVolume(VolumeStep::Down))
            } else if c == 'p' {
                Some(Command::TogglePause)
            } else if c == 'l' {
                Some(Command::ToggleLoop)
            } else if c == 'q' {
                Some(Command::Shutdown)
            } else {
                None
            },
            _ => None,
        }
    }
}

/// The world once the host has carried out `request` and reported back,
/// where the outside work went as `outcome` says.
pub open spec fn carried_out(world: World, request: RequestView, outcome: Outcome) -> World {
    match request {
        RequestView::Nothing => world,
        RequestView::Terminate(process) => world.signal(Some(process)),
        RequestView::Launch(launch) => {
            let done = world.session.launch_completion(outcome.started);
            world.signal(launch.terminate).start(outcome.started).with_session(
                world.session.after_launch(launch.track, outcome.started),
            ).signal(done.terminate)
        },
        RequestView::Send(message) => world.control(Some(message), outcome.delivered),
    }
}

/// A key that stands for a command does to session and host what the
/// command does to the world; any other key leaves both alone. So what is
/// proved of worlds holds of the application and a host that carries out
/// its requests.
pub proof fn law_keys_act_as_commands(state: AppState, world: World, key: Key, outcome: Outcome)
    requires
        state.valid(),
        world.session == state.session,
    ensures
        carried_out(
            world.with_session(state.after_key(key).session),
            state.request_on(key),
            outcome,
        ) == match state.command_on(key) {
            Some(command) => world.step(command, outcome),
            None => world,
        },
{
}

/// Every track of the library can be played: enter on a highlighted track
/// always asks for its launch, and names the process that the session owns
/// for termination.
pub proof fn law_enter_on_a_track_asks_for_its_launch(state: AppState)
    requires
        state.valid(),
        state.pane is Tracks,
    ensures
        state.request_on(Key::Enter) == RequestView::Launch(
            LaunchView { track: state.highlighted_track()->0, terminate: state.session.process },
        ),
        state.after_key(Key::Enter).session == state.session.stopped(),
{
    let artist = state.artist_cursor->0 as int;
    let row = state.track_cursor->0 as int;
    assert(tracks_lie_in_mp3_files(state.library.tracks[artist]));
    assert(has_mp3_extension(state.library.tracks[artist][row].location));
}

/// Over an empty library nothing can be played: whatever keys are pressed,
/// the user stays with the empty artist list, the session stays idle, and
/// the host is never asked to do anything.
pub proof fn law_empty_library_stays_idle(state: AppState, keys: Seq<Key>, next: Key)
    requires
        state.valid(),
        state.library.artists.len() == 0,
        state.session.is_idle(),
    ensures
        state.after_keys(keys).valid(),
        state.after_keys(keys).library == state.library,
        state.after_keys(keys).pane is Artists,
        state.after_keys(keys).session.is_idle(),
        state.after_keys(keys).request_on(next) is Nothing,
    decreases keys.len(),
{
    if keys.len() > 0 {
        law_empty_library_stays_idle(state, keys.drop_last(), keys.last());
        lemma_key_keeps_valid(state.after_keys(keys.drop_last()), keys.last());
    }
}

/// The request to signal `process`, if there is one.
fn ask_to_terminate(process: Option<u32>) -> (request: Request)
    ensures
        request@ == termination_of(process),
{
    match process {
        Some(process) => Request::Terminate(process),
        None => Request::Nothing,
    }
}

/// The request to send `message`, if there is one.
fn ask_to_send(message: Option<ControlMessage>) -> (request: Request)
    ensures
        request@ == sending_of(message),
{
    match message {
        Some(message) => Request::Send(message),
        None => Request::Nothing,
    }
}

/// Handles the enter key.
fn handle_enter(app: &mut App) -> (request: Request)
    ensures
        final(app)@ == old(app)@.after_enter(),
        final(app)@.valid(),
        request@ == old(app)@.request_on(Key::Enter),
{
    match app.pane() {
        Pane::Artists => {
            if app.artist_cursor().is_some() {
                app.open_tracks();
            }
            Request::Nothing
        },
        Pane::Tracks => {
            let track = match app.highlighted_track() {
                Some(track) => track.clone(),
                None => {
                    return Request::Nothing;
                },
            };
            let mut session = app.lend_session();
            let asked = session.play_track(&track);
            app.take_session(session);
            match asked {
                Some(launch) => Request::Launch(launch),
                None => Request::Nothing,
            }
        },
    }
}

/// Handles the keys that stop playback: escape and quit.
fn handle_stop(app: &mut App) -> (request: Request)
    ensures
        final(app)@ == old(app)@.with_session(old(app)@.session.stopped()),
        final(app)@.valid(),
        request@ == termination_of(old(app)@.session.process),
{
    let mut session = app.lend_session();
    let process = session.stop();
    app.take_session(session);
    ask_to_terminate(process)
}

/// Changes the application's state as `key` asks, and says what the host
/// must do and whether the program goes on.
///
/// Enter goes from the artists to the tracks of the highlighted artist,
/// and among the tracks asks to play the highlighted one. Escape stops
/// playback. `+` and `-` ask for a step of the volume, `p` for a pause or
/// its end, `l` for looping or its end. `b` goes back to the artists. Up
/// and down move the highlight within its list. `q` stops playback and
/// ends the program. Every other key is ignored.
pub fn handle_key_event(app: &mut App, key: Key) -> (reaction: Reaction)
    ensures
        final(app)@ == old(app)@.after_key(key),
        final(app)@.valid(),
        reaction.request@ == old(app)@.request_on(key),
        reaction.proceed == (key != Key::Char('q')),
{
    proof {
        use_type_invariant(&*app);
    }
    match key {
        Key::Enter => Reaction { proceed: true, request: handle_enter(app) },
        Key::Esc => Reaction { proceed: true, request: handle_stop(app) },
        Key::Up => {
            match app.cursor() {
                Some(row) => {
                    if row > 0 {
                        app.set_cursor(row - 1);
                    }
                },
                None => {},
            }
            Reaction { proceed: true, request: Request::Nothing }
        },
        Key::Down => {
            match app.cursor() {
                Some(row) => {
                    let rows = app.rows();
                    if rows > 0 && row < rows - 1 {
                        app.set_cursor(row + 1);
                    }
                },
                None => {},
            }
            Reaction { proceed: true, request: Request::Nothing }
        },
        Key::Char(c) => {
            if c == '+' {
                let asked = app.session().adjust_volume(VolumeStep::Up);
                Reaction { proceed: true, request: ask_to_send(asked) }
            } else if c == '-' {
                let asked = app.session().adjust_volume(VolumeStep::Down);
                Reaction { proceed: true, request: ask_to_send(asked) }
            } else if c == 'p' {
                let asked = app.session().toggle_pause();
                Reaction { proceed: true, request: ask_to_send(asked) }
            } else if c == 'l' {
                let mut session = app.lend_session();
                let asked = session.toggle_loop();
                app.take_session(session);
                Reaction { proceed: true, request: ask_to_send(asked) }
            } else if c == 'b' {
                app.close_tracks();
                Reaction { proceed: true, request: Request::Nothing }
            } else if c == 'q' {
                Reaction { proceed: false, request: handle_stop(app) }
            } else {
                Reaction { proceed: true, request: Request::Nothing }
            }
        },
        Key::Other => Reaction { proceed: true, request: Request::Nothing },
    }
}

} // verus!
