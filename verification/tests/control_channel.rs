use music_player::control::{control_endpoint, ControlMessage, VolumeStep};
use music_player::player::{launch_arguments, player_program};

#[test]
fn volume_up_line() {
    assert_eq!(
        ControlMessage::AddVolume(VolumeStep::Up).wire_text(),
        "{\"command\":[\"add\", \"volume\", \"5\"]}\n"
    );
}

#[test]
fn volume_down_line() {
    assert_eq!(
        ControlMessage::AddVolume(VolumeStep::Down).wire_text(),
        "{\"command\":[\"add\", \"volume\", \"-5\"]}\n"
    );
}

#[test]
fn pause_line() {
    assert_eq!(ControlMessage::CyclePause.wire_text(), "{\"command\":[\"cycle\", \"pause\"]}\n");
}

#[test]
fn loop_lines() {
    assert_eq!(
        ControlMessage::SetLoopFile(true).wire_text(),
        "{\"command\":[\"set_property\", \"loop-file\", \"inf\"]}\n"
    );
    assert_eq!(
        ControlMessage::SetLoopFile(false).wire_text(),
        "{\"command\":[\"set_property\", \"loop-file\", \"no\"]}\n"
    );
}

#[test]
fn every_line_is_one_line() {
    let messages = [
        ControlMessage::AddVolume(VolumeStep::Up),
        ControlMessage::AddVolume(VolumeStep::Down),
        ControlMessage::CyclePause,
        ControlMessage::SetLoopFile(true),
        ControlMessage::SetLoopFile(false),
    ];
    for message in messages {
        let line = message.wire_text();
        assert!(line.ends_with('\n'));
        assert_eq!(line.matches('\n').count(), 1);
        assert!(line.starts_with("{\"command\":["));
    }
}

#[test]
fn volume_steps_are_five_percent() {
    assert_eq!(VolumeStep::Up.amount(), 5);
    assert_eq!(VolumeStep::Down.amount(), -5);
}

#[test]
fn endpoint_is_the_fixed_socket() {
    assert_eq!(control_endpoint(), "/tmp/mpvsocket");
}

#[test]
fn player_is_started_silent_at_the_start_and_listening() {
    assert_eq!(player_program(), "mpv");
    let arguments = launch_arguments("/music/a b.mp3");
    assert_eq!(
        arguments,
        vec![
            "/music/a b.mp3".to_string(),
            "--no-video".to_string(),
            "--force-window=no".to_string(),
            "{ 'command': [ 'seek', '0', 'absolute' ] }".to_string(),
            "--input-ipc-server=/tmp/mpvsocket".to_string(),
        ]
    );
    assert_eq!(arguments[4], format!("--input-ipc-server={}", control_endpoint()));
}
