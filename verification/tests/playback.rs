use music_player::control::{ControlMessage, VolumeStep};
use music_player::session::{Completion, Fault, PlaybackSession};
use music_player::track::Track;

fn song(title: &str, location: &str) -> Track {
    Track::new(title.to_string(), location.to_string())
}

fn playing(process: u32) -> PlaybackSession {
    let mut session = PlaybackSession::new();
    let request = session.play_track(&song("Song", "/music/song.mp3")).unwrap();
    let done = session.complete_launch(request, Some(process));
    assert_eq!(done, Completion { fault: None, terminate: None });
    session
}

#[test]
fn new_session_is_idle_at_full_volume() {
    let session = PlaybackSession::new();
    assert_eq!(session.process(), None);
    assert!(!session.channel_open());
    assert_eq!(session.current_track(), None);
    assert!(!session.is_playing());
    assert_eq!(session.volume(), 100);
    assert!(!session.looping());
}

#[test]
fn play_track_with_valid_resource_turns_active() {
    let track = song("Blue in Green", "/music/miles/blue.mp3");
    let mut session = PlaybackSession::new();
    let request = session.play_track(&track).expect("a playable track is asked for");
    assert_eq!(request.terminate(), None);
    assert_eq!(request.track(), &track);
    assert!(!session.is_playing());
    let done = session.complete_launch(request, Some(4711));
    assert_eq!(done, Completion { fault: None, terminate: None });
    assert!(session.is_playing());
    assert_eq!(session.current_track(), Some(&track));
    assert_eq!(session.process(), Some(4711));
    assert!(!session.channel_open());
}

#[test]
fn launch_request_carries_the_player_arguments() {
    let mut session = PlaybackSession::new();
    let request = session.play_track(&song("A", "/m/a.mp3")).unwrap();
    assert_eq!(
        request.arguments(),
        vec![
            "/m/a.mp3".to_string(),
            "--no-video".to_string(),
            "--force-window=no".to_string(),
            "{ 'command': [ 'seek', '0', 'absolute' ] }".to_string(),
            "--input-ipc-server=/tmp/mpvsocket".to_string(),
        ]
    );
}

#[test]
fn play_track_ignores_what_is_not_playable() {
    let mut session = playing(7);
    let request = session.play_track(&song("Notes", "/music/notes.txt"));
    assert!(request.is_none());
    assert!(session.is_playing());
    assert_eq!(session.process(), Some(7));
    assert_eq!(session.current_track(), Some(&song("Song", "/music/song.mp3")));
}

#[test]
fn second_track_replaces_the_first() {
    let first = song("First", "/music/first.mp3");
    let second = song("Second", "/music/second.mp3");
    let mut session = PlaybackSession::new();
    let request = session.play_track(&first).unwrap();
    session.complete_launch(request, Some(10));
    let request = session.play_track(&second).unwrap();
    assert_eq!(request.terminate(), Some(10));
    assert_eq!(session.process(), None);
    assert_eq!(session.current_track(), None);
    let done = session.complete_launch(request, Some(11));
    assert_eq!(done, Completion { fault: None, terminate: None });
    assert_eq!(session.process(), Some(11));
    assert_eq!(session.current_track(), Some(&second));
    assert!(session.is_playing());
}

#[test]
fn failed_launch_is_reported_and_leaves_the_session_idle() {
    let mut session = playing(3);
    let request = session.play_track(&song("Next", "/music/next.mp3")).unwrap();
    assert_eq!(request.terminate(), Some(3));
    let done = session.complete_launch(request, None);
    assert_eq!(done, Completion { fault: Some(Fault::LaunchFailed), terminate: None });
    assert_eq!(session.process(), None);
    assert!(!session.channel_open());
    assert_eq!(session.current_track(), None);
    assert!(!session.is_playing());
}

#[test]
fn launch_completed_on_an_active_session_names_the_old_process() {
    let mut session = PlaybackSession::new();
    let stale = session.play_track(&song("Stale", "/music/stale.mp3")).unwrap();
    let fresh = session.play_track(&song("Fresh", "/music/fresh.mp3")).unwrap();
    session.complete_launch(fresh, Some(21));
    let done = session.complete_launch(stale, Some(22));
    assert_eq!(done, Completion { fault: None, terminate: Some(21) });
    assert_eq!(session.process(), Some(22));
    assert_eq!(session.current_track(), Some(&song("Stale", "/music/stale.mp3")));
}

#[test]
fn stop_is_idempotent() {
    let mut session = playing(5);
    assert_eq!(session.stop(), Some(5));
    assert_eq!(session.process(), None);
    assert!(!session.channel_open());
    assert_eq!(session.current_track(), None);
    assert!(!session.is_playing());
    assert_eq!(session.volume(), 100);
    assert_eq!(session.stop(), None);
    assert_eq!(session.process(), None);
    assert!(!session.channel_open());
    assert_eq!(session.current_track(), None);
    assert!(!session.is_playing());
    assert_eq!(session.volume(), 100);
    assert!(!session.looping());
}

#[test]
fn stop_keeps_volume_and_loop_flag() {
    let mut session = playing(5);
    let down = session.adjust_volume(VolumeStep::Down).unwrap();
    session.complete_send(down, true);
    let looped = session.toggle_loop().unwrap();
    session.complete_send(looped, true);
    session.stop();
    assert_eq!(session.volume(), 95);
    assert!(session.looping());
}

#[test]
fn toggle_pause_in_idle_sends_nothing() {
    let session = PlaybackSession::new();
    assert_eq!(session.toggle_pause(), None);
    assert!(!session.is_playing());
    assert_eq!(session.process(), None);
    assert_eq!(session.volume(), 100);
    assert!(!session.looping());
}

#[test]
fn toggle_pause_while_active_forwards_the_intent() {
    let mut session = playing(9);
    assert_eq!(session.toggle_pause(), Some(ControlMessage::CyclePause));
    let done = session.complete_send(ControlMessage::CyclePause, true);
    assert_eq!(done, Completion { fault: None, terminate: None });
    assert!(session.is_playing());
    assert!(session.channel_open());
    assert_eq!(session.process(), Some(9));
}

#[test]
fn volume_up_at_full_volume_is_dropped() {
    let session = playing(1);
    for _ in 0..3 {
        assert_eq!(session.adjust_volume(VolumeStep::Up), None);
        assert_eq!(session.volume(), 100);
    }
}

#[test]
fn volume_down_at_zero_is_dropped() {
    let mut session = playing(1);
    for step in 1..=20 {
        let message = session.adjust_volume(VolumeStep::Down).unwrap();
        assert_eq!(message, ControlMessage::AddVolume(VolumeStep::Down));
        session.complete_send(message, true);
        assert_eq!(session.volume(), 100 - 5 * step);
    }
    assert_eq!(session.volume(), 0);
    for _ in 0..3 {
        assert_eq!(session.adjust_volume(VolumeStep::Down), None);
        assert_eq!(session.volume(), 0);
    }
    let message = session.adjust_volume(VolumeStep::Up).unwrap();
    assert_eq!(message, ControlMessage::AddVolume(VolumeStep::Up));
    session.complete_send(message, true);
    assert_eq!(session.volume(), 5);
}

#[test]
fn volume_changes_only_on_delivery() {
    let mut session = playing(1);
    let message = session.adjust_volume(VolumeStep::Down).unwrap();
    assert_eq!(session.volume(), 100);
    session.complete_send(message, true);
    assert_eq!(session.volume(), 95);
}

#[test]
fn delivered_step_beyond_the_bounds_is_not_taken() {
    let mut session = playing(1);
    let done = session.complete_send(ControlMessage::AddVolume(VolumeStep::Up), true);
    assert_eq!(done, Completion { fault: None, terminate: None });
    assert_eq!(session.volume(), 100);
}

#[test]
fn volume_is_idle_without_a_session() {
    let session = PlaybackSession::new();
    assert_eq!(session.adjust_volume(VolumeStep::Down), None);
    assert_eq!(session.adjust_volume(VolumeStep::Up), None);
}

#[test]
fn failed_send_is_reported_once_and_ends_the_session() {
    let mut session = playing(33);
    let message = session.adjust_volume(VolumeStep::Down).unwrap();
    let done = session.complete_send(message, false);
    assert_eq!(done, Completion { fault: Some(Fault::SendFailed), terminate: Some(33) });
    assert_eq!(session.volume(), 100);
    assert!(!session.is_playing());
    assert_eq!(session.process(), None);
    assert_eq!(session.current_track(), None);
    assert_eq!(session.adjust_volume(VolumeStep::Down), None);
    let again = session.complete_send(message, false);
    assert_eq!(again, Completion { fault: None, terminate: None });
}

#[test]
fn toggle_loop_twice_restores_the_flag() {
    let mut session = playing(2);
    assert!(!session.looping());
    let first = session.toggle_loop().unwrap();
    assert_eq!(first, ControlMessage::SetLoopFile(true));
    assert!(session.looping());
    session.complete_send(first, true);
    let second = session.toggle_loop().unwrap();
    assert_eq!(second, ControlMessage::SetLoopFile(false));
    assert!(!session.looping());
    session.complete_send(second, true);
    assert!(!session.looping());
    assert_ne!(first.wire_text(), second.wire_text());
}

#[test]
fn toggle_loop_in_idle_keeps_the_flag() {
    let mut session = PlaybackSession::new();
    assert_eq!(session.toggle_loop(), None);
    assert!(!session.looping());
}

#[test]
fn loop_flag_is_not_rolled_back_when_the_send_fails() {
    let mut session = playing(2);
    let message = session.toggle_loop().unwrap();
    let done = session.complete_send(message, false);
    assert_eq!(done, Completion { fault: Some(Fault::SendFailed), terminate: Some(2) });
    assert!(session.looping());
    assert!(!session.is_playing());
}

#[test]
fn shutdown_while_active_signals_once() {
    let mut session = playing(77);
    assert_eq!(session.shutdown(), Some(77));
    assert!(!session.is_playing());
    assert_eq!(session.process(), None);
    assert_eq!(session.stop(), None);
    assert_eq!(session.shutdown(), None);
    assert_eq!(session.process(), None);
}

#[test]
fn news_of_a_send_is_ignored_by_an_idle_session() {
    let mut session = PlaybackSession::new();
    let done = session.complete_send(ControlMessage::AddVolume(VolumeStep::Down), true);
    assert_eq!(done, Completion { fault: None, terminate: None });
    assert_eq!(session.volume(), 100);
    assert!(!session.channel_open());
    let done = session.complete_send(ControlMessage::CyclePause, false);
    assert_eq!(done, Completion { fault: None, terminate: None });
}

#[test]
fn a_run_of_play_commands_never_leaves_two_players() {
    let mut session = PlaybackSession::new();
    let mut alive: Vec<u32> = Vec::new();
    for round in 0..40u32 {
        let location = if round % 7 == 3 {
            format!("/music/{}.txt", round)
        } else {
            format!("/music/{}.mp3", round)
        };
        let asked = session.play_track(&Track::new(format!("Track {}", round), location));
        if let Some(request) = asked {
            if let Some(process) = request.terminate() {
                alive.retain(|other| *other != process);
            }
            let started = if round % 5 == 4 { None } else { Some(1000 + round) };
            if let Some(process) = started {
                alive.push(process);
            }
            let done = session.complete_launch(request, started);
            if let Some(process) = done.terminate {
                alive.retain(|other| *other != process);
            }
            assert_eq!(done.fault.is_some(), started.is_none());
        }
        assert!(alive.len() <= 1);
        assert_eq!(alive.first().copied(), session.process());
        assert_eq!(session.is_playing(), session.process().is_some());
        assert_eq!(session.current_track().is_some(), session.process().is_some());
    }
    if let Some(process) = session.shutdown() {
        alive.retain(|other| *other != process);
    }
    assert!(alive.is_empty());
}
