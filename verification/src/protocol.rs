//! The session and its host, taken together.
//!
//! A session only asks; the host acts. This module says what a host does
//! that carries out every request as the session's contracts tell it to,
//! and proves what then holds of the two together: of the processes that
//! are alive, of the signals and messages that went out.

use crate::control::ControlMessage;
use crate::control::VolumeStep;
use crate::session::SessionState;
use crate::track::playable;
use crate::track::TrackView;
use vstd::prelude::*;

verus! {

/// A command of the user.
pub enum Command {
    PlayTrack(TrackView),
    Stop,
    TogglePause,
    AdjustVolume(VolumeStep),
    ToggleLoop,
    Shutdown,
}

/// What the outside work of one command brought. Each command reads only
/// what it asked for.
pub struct Outcome {
    /// The process that a launch started, if it started one.
    pub started: Option<u32>,
    /// Whether a control message was delivered.
    pub delivered: bool,
}

/// A session together with what its host has done for it.
pub struct World {
    pub session: SessionState,
    /// The processes started for the session and not signalled since.
    pub live: Set<u32>,
    /// Every termination signal sent, oldest first.
    pub signals: Seq<u32>,
    /// Every control message handed to the channel, oldest first.
    pub sent: Seq<ControlMessage>,
}

/// The processes that a session owns: one or none.
pub open spec fn owned(session: SessionState) -> Set<u32> {
    match session.process {
        Some(process) => set![process],
        None => Set::empty(),
    }
}

impl World {
    /// A new session on a host that has done nothing yet.
    pub open spec fn initial() -> World {
        World {
            session: SessionState::initial(),
            live: Set::empty(),
            signals: Seq::empty(),
            sent: Seq::empty(),
        }
    }

    /// What holds of every world that began with a new session: the
    /// session is valid, and the processes alive are those that it owns.
    pub open spec fn valid(self) -> bool {
        self.session.valid() && self.live == owned(self.session)
    }

    /// The host signals `process`, if there is one, to terminate.
    pub open spec fn signal(self, process: Option<u32>) -> World {
        match process {
            Some(p) => World { live: self.live.remove(p), signals: self.signals.push(p), ..self },
            None => self,
        }
    }

    /// The host has started `process`, if there is one.
    pub open spec fn start(self, process: Option<u32>) -> World {
        match process {
            Some(p) => World { live: self.live.insert(p), ..self },
            None => self,
        }
    }

    /// The session moves on to `session`.
    pub open spec fn with_session(self, session: SessionState) -> World {
        World { session, ..self }
    }

    /// The host carries out a request to play `track`: it signals the
    /// process that the request names, starts the player, reports back, and
    /// signals what the completion names.
    pub open spec fn play(self, track: TrackView, started: Option<u32>) -> World {
        if playable(track.location) {
            let asked = self.with_session(self.session.after_play_request(track)).signal(
                self.session.process,
            );
            let done = asked.session.launch_completion(started);
            asked.start(started).with_session(asked.session.after_launch(track, started)).signal(
                done.terminate,
            )
        } else {
            self
        }
    }

    /// The host carries out a request to stop: it signals the process that
    /// the session gave up.
    pub open spec fn halt(self) -> World {
        self.with_session(self.session.stopped()).signal(self.session.process)
    }

    /// The host carries out a request to send a message, if there is one:
    /// it hands the message to the channel, reports back, and signals what
    /// the completion names.
    pub open spec fn control(self, request: Option<ControlMessage>, delivered: bool) -> World {
        match request {
            Some(message) => {
                let done = self.session.send_completion(delivered);
                World {
                    session: self.session.after_send(message, delivered),
                    sent: self.sent.push(message),
                    ..self
                }.signal(done.terminate)
            },
            None => self,
        }
    }

    /// The world after `command`, where the outside work went as `outcome`
    /// says.
    pub open spec fn step(self, command: Command, outcome: Outcome) -> World {
        match command {
            Command::PlayTrack(track) => self.play(track, outcome.started),
            Command::Stop => self.halt(),
            Command::Shutdown => self.halt(),
            Command::TogglePause => self.control(self.session.pause_request(), outcome.delivered),
            Command::AdjustVolume(step) => self.control(
                self.session.volume_request(step),
                outcome.delivered,
            ),
            Command::ToggleLoop => self.with_session(self.session.after_loop_toggle()).control(
                self.session.loop_request(),
                outcome.delivered,
            ),
        }
    }

    /// The world after the commands of `steps`, in their order.
    pub open spec fn run(self, steps: Seq<(Command, Outcome)>) -> World
        decreases steps.len(),
    {
        if steps.len() == 0 {
            self
        } else {
            self.run(steps.drop_last()).step(steps.last().0, steps.last().1)
        }
    }
}

/// One command keeps a valid world valid: whatever the command and however
/// its outside work went, the session stays valid and no process is alive
/// that the session does not own.
pub proof fn lemma_step_keeps_valid(world: World, command: Command, outcome: Outcome)
    requires
        world.valid(),
    ensures
        world.step(command, outcome).valid(),
{
    let next = world.step(command, outcome);
    assert(next.live =~= owned(next.session));
}

/// Through every sequence of commands, at every point of it, at most one
/// process is alive, and it is the one that the session owns: nothing
/// leaks. This holds of sequences of play commands in particular.
pub proof fn law_at_most_one_process(world: World, steps: Seq<(Command, Outcome)>, point: int)
    requires
        world.valid(),
        0 <= point <= steps.len(),
    ensures
        world.run(steps.take(point)).valid(),
        world.run(steps.take(point)).live.len() <= 1,
        world.run(steps.take(point)).live.finite(),
    decreases point,
{
    let prefix = steps.take(point);
    if point > 0 {
        law_at_most_one_process(world, steps, point - 1);
        assert(prefix.drop_last() =~= steps.take(point - 1));
        lemma_step_keeps_valid(world.run(prefix.drop_last()), prefix.last().0, prefix.last().1);
    }
    let after = world.run(prefix);
    assert(after.valid());
    match after.session.process {
        Some(p) => {
            assert(after.live =~= Set::empty().insert(p));
        },
        None => {},
    }
}

/// Stopping twice is stopping once: the second stop changes nothing, sends
/// no signal and no message.
pub proof fn law_stop_is_idempotent(world: World, first: Outcome, second: Outcome)
    ensures
        world.step(Command::Stop, first).step(Command::Stop, second) == world.step(
            Command::Stop,
            first,
        ),
        world.session.stopped().stopped() == world.session.stopped(),
{
}

/// A volume step that would leave the bounds is dropped whole: no message
/// goes out and nothing changes. So a step up at 100 and a step down at 0
/// do nothing, however often they are repeated, and no step ever takes the
/// volume out of bounds or cuts it short to a bound.
pub proof fn law_volume_stays_in_bounds(world: World, step: VolumeStep, outcome: Outcome)
    requires
        world.valid(),
    ensures
        !world.session.admits(step) ==> world.step(Command::AdjustVolume(step), outcome) == world,
        world.session.volume == 100 ==> world.step(Command::AdjustVolume(VolumeStep::Up), outcome)
            == world,
        world.session.volume == 0 ==> world.step(Command::AdjustVolume(VolumeStep::Down), outcome)
            == world,
        0 <= world.step(Command::AdjustVolume(step), outcome).session.volume <= 100,
        world.step(Command::AdjustVolume(step), outcome).session.volume == world.session.volume
            || world.step(Command::AdjustVolume(step), outcome).session.volume
            == world.session.volume + step.delta(),
{
}

/// Repeating a volume step that the bounds do not admit leaves the world
/// as it is, whatever the number of repetitions.
pub proof fn law_refused_volume_step_repeats_in_vain(
    world: World,
    step: VolumeStep,
    steps: Seq<(Command, Outcome)>,
)
    requires
        world.valid(),
        !world.session.admits(step),
        forall|i: int| 0 <= i < steps.len() ==> (#[trigger] steps[i]).0 == Command::AdjustVolume(step),
    ensures
        world.run(steps) == world,
    decreases steps.len(),
{
    if steps.len() > 0 {
        law_refused_volume_step_repeats_in_vain(world, step, steps.drop_last());
        assert(steps.last() == steps[steps.len() - 1]);
        law_volume_stays_in_bounds(world, step, steps.last().1);
    }
}

/// Toggling the loop twice brings the flag back to where it was. On an
/// active session the two messages that went out are one to switch looping
/// on and one to switch it off, in the order that the flag asks for; an
/// idle session sends none. This is stated of every session but an active
/// one whose first message could not be delivered: that session has fallen
/// idle when the second toggle comes.
pub proof fn law_loop_toggles_alternate(world: World, first: Outcome, second: Outcome)
    requires
        world.valid(),
        world.session.is_active() ==> first.delivered,
    ensures
        ({
            let after = world.step(Command::ToggleLoop, first).step(Command::ToggleLoop, second);
            &&& after.session.looping == world.session.looping
            &&& world.session.is_active() ==> after.sent == world.sent.push(
                ControlMessage::SetLoopFile(!world.session.looping),
            ).push(ControlMessage::SetLoopFile(world.session.looping))
            &&& !world.session.is_active() ==> after == world
        }),
{
}

/// After a track is played and then another, where both launches
/// succeeded, exactly the second process is alive and it serves the second
/// track; the first process was signalled to terminate and is owned no
/// more.
pub proof fn law_second_track_replaces_first(
    world: World,
    first: TrackView,
    second: TrackView,
    first_process: u32,
    second_process: u32,
)
    requires
        world.valid(),
        playable(first.location),
        playable(second.location),
    ensures
        ({
            let middle = world.step(
                Command::PlayTrack(first),
                Outcome { started: Some(first_process), delivered: false },
            );
            let after = middle.step(
                Command::PlayTrack(second),
                Outcome { started: Some(second_process), delivered: false },
            );
            &&& middle.live == set![first_process]
            &&& middle.session.current_track == Some(first)
            &&& after.live == set![second_process]
            &&& after.session.process == Some(second_process)
            &&& after.session.current_track == Some(second)
            &&& after.session.is_playing
            &&& after.signals == middle.signals.push(first_process)
        }),
{
    let middle = world.step(
        Command::PlayTrack(first),
        Outcome { started: Some(first_process), delivered: false },
    );
    let after = middle.step(
        Command::PlayTrack(second),
        Outcome { started: Some(second_process), delivered: false },
    );
    lemma_step_keeps_valid(
        world,
        Command::PlayTrack(first),
        Outcome { started: Some(first_process), delivered: false },
    );
    lemma_step_keeps_valid(
        middle,
        Command::PlayTrack(second),
        Outcome { started: Some(second_process), delivered: false },
    );
    assert(middle.live =~= set![first_process]);
    assert(after.live =~= set![second_process]);
}

/// An idle session sends nothing: the pause, volume and loop keys change
/// neither the session nor what went out.
pub proof fn law_idle_session_sends_nothing(world: World, command: Command, outcome: Outcome)
    requires
        world.valid(),
        !world.session.is_active(),
        command is TogglePause || command is AdjustVolume || command is ToggleLoop,
    ensures
        world.step(command, outcome) == world,
{
}

/// Shutting down an active session signals its process exactly once and
/// leaves nothing alive; a stop after that is in vain.
pub proof fn law_shutdown_signals_once(world: World, first: Outcome, second: Outcome)
    requires
        world.valid(),
        world.session.is_active(),
    ensures
        ({
            let down = world.step(Command::Shutdown, first);
            &&& down.signals == world.signals.push(world.session.process->0)
            &&& down.live == Set::<u32>::empty()
            &&& down.session.is_idle()
            &&& down.step(Command::Stop, second) == down
        }),
{
    let down = world.step(Command::Shutdown, first);
    assert(down.live =~= Set::<u32>::empty());
}

} // verus!
