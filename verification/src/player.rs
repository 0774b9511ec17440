//! How the external player is started.
//!
//! The player is a separate program. It is started once per track, told to
//! stay silent on the screen, to begin at the start of the file, and to
//! listen for control messages at the address that the control channel
//! writes to.

use crate::control::endpoint;
use vstd::prelude::*;

verus! {

/// The arguments with which the player is started for the audio at
/// `location`: the file, no video, no window, a seek to the start, and the
/// address of the control endpoint.
pub open spec fn launch_line(location: Seq<char>) -> Seq<Seq<char>> {
    seq![
        location,
        "--no-video"@,
        "--force-window=no"@,
        "{ 'command': [ 'seek', '0', 'absolute' ] }"@,
        "--input-ipc-server=/tmp/mpvsocket"@,
    ]
}

/// The name of the player's program.
pub fn player_program() -> (name: &'static str)
    ensures
        name@ == "mpv"@,
{
    "mpv"
}

/// The arguments with which the player is started for the audio at
/// `location`.
pub fn launch_arguments(location: &str) -> (arguments: Vec<String>)
    ensures
        arguments.deep_view() == launch_line(location@),
{
    let mut arguments: Vec<String> = Vec::new();
    arguments.push(location.to_owned());
    arguments.push("--no-video".to_owned());
    arguments.push("--force-window=no".to_owned());
    arguments.push("{ 'command': [ 'seek', '0', 'absolute' ] }".to_owned());
    arguments.push("--input-ipc-server=/tmp/mpvsocket".to_owned());
    proof {
        assert(arguments.deep_view() =~= launch_line(location@));
    }
    arguments
}

/// The player is told to listen where the control channel writes: the last
/// argument is the flag that names the endpoint, followed by the endpoint's
/// address.
pub proof fn law_player_listens_at_the_endpoint(location: Seq<char>)
    ensures
        launch_line(location).last() == "--input-ipc-server="@ + endpoint(),
{
    reveal_strlit("--input-ipc-server=/tmp/mpvsocket");
    reveal_strlit("--input-ipc-server=");
    reveal_strlit("/tmp/mpvsocket");
    assert(launch_line(location).last() =~= "--input-ipc-server="@ + endpoint());
}

} // verus!
