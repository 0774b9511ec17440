//! The playback session: the one place that knows what is playing.
//!
//! A session owns at most one player process and mirrors what it believes
//! of it: the track, whether it plays, the volume, the loop flag. The mirror
//! is the last intent, not a confirmed state: the player never answers.
//!
//! The session itself starts no process and sends no message. A command
//! that needs either returns a request: a [`Launch`] to carry out, a
//! [`ControlMessage`] to send, a process to terminate. The host does the
//! work and reports how it went through [`PlaybackSession::complete_launch`]
//! or [`PlaybackSession::complete_send`].
//!
//! A session is idle or active. It is active from a successful launch until
//! it is stopped, replaced, or a control message cannot be delivered.

use crate::control::ControlMessage;
use crate::control::VolumeStep;
use crate::player::launch_arguments;
use crate::player::launch_line;
use crate::track::playable;
use crate::track::Track;
use crate::track::TrackView;
use vstd::prelude::*;

verus! {

/// What went wrong with the outside work of a command.
#[derive(Clone, Copy, Debug, PartialEq, Eq, Structural)]
pub enum Fault {
    /// The player could not be started.
    LaunchFailed,
    /// The control message could not be delivered.
    SendFailed,
}

/// What a session holds, as contracts speak of it.
pub struct SessionState {
    /// The player process that the session owns.
    pub process: Option<u32>,
    /// Whether the control endpoint of that process has taken a message.
    pub channel: bool,
    /// The track that the session believes is loaded.
    pub current_track: Option<TrackView>,
    /// Whether the session believes that a track is loaded and playing.
    pub is_playing: bool,
    /// The volume last asked for, in percent.
    pub volume: int,
    /// The loop flag last asked for.
    pub looping: bool,
}

impl SessionState {
    /// What holds of every session: a channel or a track only with a
    /// process, a process exactly while active, the volume within bounds.
    pub open spec fn valid(self) -> bool {
        &&& self.channel ==> self.process is Some
        &&& self.current_track is Some ==> self.process is Some
        &&& self.is_playing <==> self.process is Some
        &&& self.is_playing <==> self.current_track is Some
        &&& 0 <= self.volume <= 100
    }

    /// The session has a track loaded.
    pub open spec fn is_active(self) -> bool {
        self.is_playing
    }

    /// The session owns nothing and plays nothing.
    pub open spec fn is_idle(self) -> bool {
        &&& self.process is None
        &&& !self.channel
        &&& self.current_track is None
        &&& !self.is_playing
    }

    /// The session at program start.
    pub open spec fn initial() -> SessionState {
        SessionState {
            process: None,
            channel: false,
            current_track: None,
            is_playing: false,
            volume: 100,
            looping: false,
        }
    }

    /// This session with nothing owned and nothing playing. Volume and loop
    /// flag stay: they are the user's last intent.
    pub open spec fn stopped(self) -> SessionState {
        SessionState {
            process: None,
            channel: false,
            current_track: None,
            is_playing: false,
            volume: self.volume,
            looping: self.looping,
        }
    }

    /// This session playing `track` in the process `process`, whose control
    /// endpoint has not been heard of yet.
    pub open spec fn playing(self, track: TrackView, process: u32) -> SessionState {
        SessionState {
            process: Some(process),
            channel: false,
            current_track: Some(track),
            is_playing: true,
            volume: self.volume,
            looping: self.looping,
        }
    }

    /// This session once it was asked to play `track`: torn down if the
    /// track is playable, untouched if not.
    pub open spec fn after_play_request(self, track: TrackView) -> SessionState {
        if playable(track.location) {
            self.stopped()
        } else {
            self
        }
    }

    /// This session once the launch for `track` has ended: active in the
    /// new process, or idle if there is none.
    pub open spec fn after_launch(self, track: TrackView, started: Option<u32>) -> SessionState {
        match started {
            Some(process) => self.playing(track, process),
            None => self.stopped(),
        }
    }

    /// The volume step would leave the volume within bounds.
    pub open spec fn admits(self, step: VolumeStep) -> bool {
        0 <= self.volume + step.delta() <= 100
    }

    /// The message that a step of the volume keys asks for.
    pub open spec fn volume_request(self, step: VolumeStep) -> Option<ControlMessage> {
        if self.is_active() && self.admits(step) {
            Some(ControlMessage::AddVolume(step))
        } else {
            None
        }
    }

    /// The message that the pause key asks for.
    pub open spec fn pause_request(self) -> Option<ControlMessage> {
        if self.is_active() {
            Some(ControlMessage::CyclePause)
        } else {
            None
        }
    }

    /// The message that the loop key asks for.
    pub open spec fn loop_request(self) -> Option<ControlMessage> {
        if self.is_active() {
            Some(ControlMessage::SetLoopFile(!self.looping))
        } else {
            None
        }
    }

    /// This session once the loop key was pressed: the flag is flipped at
    /// once, whatever becomes of the message.
    pub open spec fn after_loop_toggle(self) -> SessionState {
        if self.is_active() {
            SessionState { looping: !self.looping, ..self }
        } else {
            self
        }
    }

    /// This session once `message` was delivered: the endpoint is known to
    /// answer, and a volume step that the bounds admit is taken.
    pub open spec fn after_delivery(self, message: ControlMessage) -> SessionState {
        match message {
            ControlMessage::AddVolume(step) if self.admits(step) => SessionState {
                channel: true,
                volume: self.volume + step.delta(),
                ..self
            },
            _ => SessionState { channel: true, ..self },
        }
    }

    /// This session once the host has tried to send `message`. An idle
    /// session ignores the news. An active one takes a delivery as such
    /// and falls idle on a failure.
    pub open spec fn after_send(self, message: ControlMessage, delivered: bool) -> SessionState {
        if !self.is_active() {
            self
        } else if delivered {
            self.after_delivery(message)
        } else {
            self.stopped()
        }
    }

    /// What the host hears once it has tried to send `message`.
    pub open spec fn send_completion(self, delivered: bool) -> Completion {
        if self.is_active() && !delivered {
            Completion { fault: Some(Fault::SendFailed), terminate: self.process }
        } else {
            Completion { fault: None, terminate: None }
        }
    }

    /// What the host hears once the launch has ended.
    pub open spec fn launch_completion(self, started: Option<u32>) -> Completion {
        Completion {
            fault: if started is None {
                Some(Fault::LaunchFailed)
            } else {
                None
            },
            terminate: self.process,
        }
    }
}

/// What the session tells the host when outside work has ended.
#[derive(Clone, Copy, Debug, PartialEq, Eq)]
pub struct Completion {
    /// What went wrong, for the host to show.
    pub fault: Option<Fault>,
    /// A process that the session has given up and that the host must now
    /// signal to terminate, without waiting for it.
    pub terminate: Option<u32>,
}

/// A request to start the player for a track.
///
/// The host first signals the process named by [`Launch::terminate`], if
/// any, then starts the player with [`Launch::arguments`], and hands the
/// request back to [`PlaybackSession::complete_launch`] with the new
/// process, or with none if the player did not start.
#[derive(Debug)]
pub struct Launch {
    track: Track,
    terminate: Option<u32>,
}

/// A launch request as contracts speak of it.
pub struct LaunchView {
    pub track: TrackView,
    pub terminate: Option<u32>,
}

impl View for Launch {
    type V = LaunchView;

    closed spec fn view(&self) -> LaunchView {
        LaunchView { track: self.track@, terminate: self.terminate }
    }
}

impl Launch {
    /// The track to play.
    pub fn track(&self) -> (track: &Track)
        ensures
            track@ == self@.track,
    {
        &self.track
    }

    /// The process that must be signalled to terminate before the player is
    /// started anew.
    pub fn terminate(&self) -> (process: Option<u32>)
        ensures
            process == self@.terminate,
    {
        self.terminate
    }

    /// The arguments to start the player with.
    pub fn arguments(&self) -> (arguments: Vec<String>)
        ensures
            arguments.deep_view() == launch_line(self@.track.location),
    {
        launch_arguments(self.track.location.as_str())
    }
}

/// The controller's record of the player it owns and of what it believes
/// the player is doing.
#[derive(Debug)]
pub struct PlaybackSession {
    process: Option<u32>,
    channel: bool,
    current_track: Option<Track>,
    is_playing: bool,
    volume: i32,
    looping: bool,
}

impl View for PlaybackSession {
    type V = SessionState;

    closed spec fn view(&self) -> SessionState {
        SessionState {
            process: self.process,
            channel: self.channel,
            current_track: match self.current_track {
                Some(track) => Some(track@),
                None => None,
            },
            is_playing: self.is_playing,
            volume: self.volume as int,
            looping: self.looping,
        }
    }
}

impl PlaybackSession {
    #[verifier::type_invariant]
    pub(crate) open spec fn well_formed(self) -> bool {
        self@.valid()
    }

    /// An idle session at full volume that does not loop.
    pub fn new() -> (session: PlaybackSession)
        ensures
            session@ == SessionState::initial(),
    {
        PlaybackSession {
            process: None,
            channel: false,
            current_track: None,
            is_playing: false,
            volume: 100,
            looping: false,
        }
    }

    /// The player process that the session owns.
    pub fn process(&self) -> (process: Option<u32>)
        ensures
            process == self@.process,
            self@.valid(),
    {
        proof {
            use_type_invariant(self);
        }
        self.process
    }

    /// Whether the control endpoint of the owned process has taken a
    /// message.
    pub fn channel_open(&self) -> (open: bool)
        ensures
            open == self@.channel,
            self@.valid(),
    {
        proof {
            use_type_invariant(self);
        }
        self.channel
    }

    /// The track that the session believes is loaded.
    pub fn current_track(&self) -> (track: Option<&Track>)
        ensures
            track is Some <==> self@.current_track is Some,
            track is Some ==> self@.current_track == Some(track->0@),
            self@.valid(),
    {
        proof {
            use_type_invariant(self);
        }
        self.current_track.as_ref()
    }

    /// Whether the session believes that a track is loaded and playing.
    pub fn is_playing(&self) -> (playing: bool)
        ensures
            playing == self@.is_playing,
            self@.valid(),
    {
        proof {
            use_type_invariant(self);
        }
        self.is_playing
    }

    /// The volume last asked for, in percent.
    pub fn volume(&self) -> (volume: i32)
        ensures
            volume == self@.volume,
            0 <= volume <= 100,
    {
        proof {
            use_type_invariant(self);
        }
        self.volume
    }

    /// The loop flag last asked for.
    pub fn looping(&self) -> (looping: bool)
        ensures
            looping == self@.looping,
            self@.valid(),
    {
        proof {
            use_type_invariant(self);
        }
        self.looping
    }

    /// Asks to play `track`.
    ///
    /// A track that is not playable is ignored. For a playable one the
    /// session gives up what it owns and falls idle, and the request names
    /// the process to terminate and the track to start the player for. The
    /// session turns active when the host reports the launch.
    pub fn play_track(&mut self, track: &Track) -> (request: Option<Launch>)
        ensures
            final(self)@ == old(self)@.after_play_request(track@),
            final(self)@.valid(),
            request is Some <==> playable(track@.location),
            request is Some ==> request->0@ == (LaunchView {
                track: track@,
                terminate: old(self)@.process,
            }),
    {
        proof {
            use_type_invariant(&*self);
        }
        if !track.is_playable() {
            return None;
        }
        let terminate = self.stop();
        Some(Launch { track: track.clone(), terminate })
    }

    /// Takes the news of how a launch went.
    ///
    /// With a new process the session is active and plays the request's
    /// track. Without one it is idle, and the fault is reported. Should the
    /// session own a process at this point, it is given up and named for
    /// termination: no process is ever dropped unsignalled.
    pub fn complete_launch(&mut self, request: Launch, started: Option<u32>) -> (done: Completion)
        ensures
            final(self)@ == old(self)@.after_launch(request@.track, started),
            final(self)@.valid(),
            done == old(self)@.launch_completion(started),
    {
        proof {
            use_type_invariant(&*self);
        }
        let terminate = self.process;
        match started {
            Some(process) => {
                *self = PlaybackSession {
                    process: Some(process),
                    channel: false,
                    current_track: Some(request.track),
                    is_playing: true,
                    volume: self.volume,
                    looping: self.looping,
                };
                Completion { fault: None, terminate }
            },
            None => {
                let _ = self.stop();
                Completion { fault: Some(Fault::LaunchFailed), terminate }
            },
        }
    }

    /// Stops playback: the session gives up what it owns and falls idle.
    ///
    /// Returns the process that the host must signal to terminate, if the
    /// session owned one. Stopping an idle session changes nothing.
    pub fn stop(&mut self) -> (terminate: Option<u32>)
        ensures
            final(self)@ == old(self)@.stopped(),
            final(self)@.valid(),
            final(self)@.is_idle(),
            terminate == old(self)@.process,
    {
        proof {
            use_type_invariant(&*self);
        }
        let terminate = self.process;
        *self = PlaybackSession {
            process: None,
            channel: false,
            current_track: None,
            is_playing: false,
            volume: self.volume,
            looping: self.looping,
        };
        terminate
    }

    /// Ends the session at program exit: as [`PlaybackSession::stop`].
    pub fn shutdown(&mut self) -> (terminate: Option<u32>)
        ensures
            final(self)@ == old(self)@.stopped(),
            final(self)@.valid(),
            final(self)@.is_idle(),
            terminate == old(self)@.process,
    {
        self.stop()
    }

    /// Asks to pause or resume. An idle session asks for nothing.
    ///
    /// The session keeps no record of pauses: it cannot ask the player
    /// which state it is in.
    pub fn toggle_pause(&self) -> (request: Option<ControlMessage>)
        ensures
            request == self@.pause_request(),
    {
        if self.is_playing {
            Some(ControlMessage::CyclePause)
        } else {
            None
        }
    }

    /// Asks to change the volume by one step. An idle session asks for
    /// nothing, and so does a step that would leave the bounds: it is
    /// dropped whole, not cut short.
    ///
    /// The volume changes when the host reports the delivery.
    pub fn adjust_volume(&self, step: VolumeStep) -> (request: Option<ControlMessage>)
        ensures
            request == self@.volume_request(step),
    {
        proof {
            use_type_invariant(self);
        }
        let next = self.volume + step.amount();
        if self.is_playing && 0 <= next && next <= 100 {
            Some(ControlMessage::AddVolume(step))
        } else {
            None
        }
    }

    /// Asks to switch looping on if it is off, off if it is on, and flips
    /// the flag at once. An idle session asks for nothing and keeps its
    /// flag.
    pub fn toggle_loop(&mut self) -> (request: Option<ControlMessage>)
        ensures
            final(self)@ == old(self)@.after_loop_toggle(),
            final(self)@.valid(),
            request == old(self)@.loop_request(),
    {
        proof {
            use_type_invariant(&*self);
        }
        if self.is_playing {
            let enable = !self.looping;
            self.looping = enable;
            Some(ControlMessage::SetLoopFile(enable))
        } else {
            None
        }
    }

    /// Takes the news of how the sending of `message` went.
    ///
    /// A delivered volume step is taken. A message that could not be
    /// delivered means that the player is gone or deaf: the fault is
    /// reported, the session falls idle, and its process is named for
    /// termination. An idle session ignores the news.
    pub fn complete_send(&mut self, message: ControlMessage, delivered: bool) -> (done: Completion)
        ensures
            final(self)@ == old(self)@.after_send(message, delivered),
            final(self)@.valid(),
            done == old(self)@.send_completion(delivered),
    {
        proof {
            use_type_invariant(&*self);
        }
        if !self.is_playing {
            return Completion { fault: None, terminate: None };
        }
        if !delivered {
            let terminate = self.stop();
            return Completion { fault: Some(Fault::SendFailed), terminate };
        }
        let volume = match message {
            ControlMessage::AddVolume(step) => {
                let next = self.volume + step.amount();
                if 0 <= next && next <= 100 {
                    next
                } else {
                    self.volume
                }
            },
            _ => self.volume,
        };
        self.channel = true;
        self.volume = volume;
        Completion { fault: None, terminate: None }
    }
}

} // verus!
