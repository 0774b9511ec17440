//! Messages of the player's control channel.
//!
//! The channel is write-only: one line of text per message, no reply is
//! read. A line is a JSON object with the single key `command`, whose value
//! is the list of the command's words, each a string: the name first, then
//! the arguments.

use vstd::prelude::*;

verus! {

/// One step of the volume keys.
#[derive(Clone, Copy, Debug, PartialEq, Eq, Structural)]
pub enum VolumeStep {
    Up,
    Down,
}

impl VolumeStep {
    /// The change of volume that the step asks for, in percent.
    pub open spec fn delta(self) -> int {
        match self {
            VolumeStep::Up => 5,
            VolumeStep::Down => -5,
        }
    }

    /// The change of volume that the step asks for, in percent.
    pub fn amount(self) -> (d: i32)
        ensures
            d == self.delta(),
    {
        match self {
            VolumeStep::Up => 5,
            VolumeStep::Down => -5,
        }
    }
}

/// A command for the running player.
#[derive(Clone, Copy, Debug, PartialEq, Eq, Structural)]
pub enum ControlMessage {
    /// Change the volume by one step, relative to what it is.
    AddVolume(VolumeStep),
    /// Pause if playing, resume if paused.
    CyclePause,
    /// Repeat the file for ever (`true`) or play it once (`false`).
    SetLoopFile(bool),
}

/// The address at which the player listens for control messages.
pub open spec fn endpoint() -> Seq<char> {
    "/tmp/mpvsocket"@
}

/// A word as it stands in a message: between double quotes.
pub open spec fn quoted(word: Seq<char>) -> Seq<char> {
    seq!['"'] + word + seq!['"']
}

/// The words, each quoted, with a comma and a blank between neighbours.
pub open spec fn listed(words: Seq<Seq<char>>) -> Seq<char>
    decreases words.len(),
{
    if words.len() == 0 {
        Seq::empty()
    } else if words.len() == 1 {
        quoted(words[0])
    } else {
        listed(words.drop_last()) + seq![',', ' '] + quoted(words.last())
    }
}

/// The line that carries a command of the given words, newline included.
pub open spec fn framed(words: Seq<Seq<char>>) -> Seq<char> {
    "{\"command\":["@ + listed(words) + "]}\n"@
}

impl ControlMessage {
    /// The words of the command: its name, then its arguments.
    pub open spec fn words(self) -> Seq<Seq<char>> {
        match self {
            ControlMessage::AddVolume(VolumeStep::Up) => seq!["add"@, "volume"@, "5"@],
            ControlMessage::AddVolume(VolumeStep::Down) => seq!["add"@, "volume"@, "-5"@],
            ControlMessage::CyclePause => seq!["cycle"@, "pause"@],
            ControlMessage::SetLoopFile(true) => seq!["set_property"@, "loop-file"@, "inf"@],
            ControlMessage::SetLoopFile(false) => seq!["set_property"@, "loop-file"@, "no"@],
        }
    }

    /// The line that goes over the channel, newline included.
    pub open spec fn wire(self) -> Seq<char> {
        framed(self.words())
    }

    /// The line that goes over the channel, newline included.
    pub fn wire_text(&self) -> (line: &'static str)
        ensures
            line@ == self.wire(),
    {
        proof {
            lemma_wire_written_out(*self);
        }
        match self {
            ControlMessage::AddVolume(VolumeStep::Up) =>
                "{\"command\":[\"add\", \"volume\", \"5\"]}\n",
            ControlMessage::AddVolume(VolumeStep::Down) =>
                "{\"command\":[\"add\", \"volume\", \"-5\"]}\n",
            ControlMessage::CyclePause => "{\"command\":[\"cycle\", \"pause\"]}\n",
            ControlMessage::SetLoopFile(true) =>
                "{\"command\":[\"set_property\", \"loop-file\", \"inf\"]}\n",
            ControlMessage::SetLoopFile(false) =>
                "{\"command\":[\"set_property\", \"loop-file\", \"no\"]}\n",
        }
    }
}

/// The address at which the player listens for control messages.
pub fn control_endpoint() -> (address: &'static str)
    ensures
        address@ == endpoint(),
{
    "/tmp/mpvsocket"
}

/// The line of each message, written out.
proof fn lemma_wire_written_out(message: ControlMessage)
    ensures
        message.wire() == match message {
            ControlMessage::AddVolume(VolumeStep::Up) =>
                "{\"command\":[\"add\", \"volume\", \"5\"]}\n"@,
            ControlMessage::AddVolume(VolumeStep::Down) =>
                "{\"command\":[\"add\", \"volume\", \"-5\"]}\n"@,
            ControlMessage::CyclePause => "{\"command\":[\"cycle\", \"pause\"]}\n"@,
            ControlMessage::SetLoopFile(true) =>
                "{\"command\":[\"set_property\", \"loop-file\", \"inf\"]}\n"@,
            ControlMessage::SetLoopFile(false) =>
                "{\"command\":[\"set_property\", \"loop-file\", \"no\"]}\n"@,
        },
        message.wire().len() == match message {
            ControlMessage::AddVolume(VolumeStep::Up) => 35nat,
            ControlMessage::AddVolume(VolumeStep::Down) => 36nat,
            ControlMessage::CyclePause => 31nat,
            ControlMessage::SetLoopFile(true) => 49nat,
            ControlMessage::SetLoopFile(false) => 48nat,
        },
{
    reveal_strlit("{\"command\":[");
    reveal_strlit("]}\n");
    reveal_strlit("add");
    reveal_strlit("volume");
    reveal_strlit("5");
    reveal_strlit("-5");
    reveal_strlit("cycle");
    reveal_strlit("pause");
    reveal_strlit("set_property");
    reveal_strlit("loop-file");
    reveal_strlit("inf");
    reveal_strlit("no");
    reveal_strlit("{\"command\":[\"add\", \"volume\", \"5\"]}\n");
    reveal_strlit("{\"command\":[\"add\", \"volume\", \"-5\"]}\n");
    reveal_strlit("{\"command\":[\"cycle\", \"pause\"]}\n");
    reveal_strlit("{\"command\":[\"set_property\", \"loop-file\", \"inf\"]}\n");
    reveal_strlit("{\"command\":[\"set_property\", \"loop-file\", \"no\"]}\n");
    let words = message.words();
    let comma = seq![',', ' '];
    if words.len() == 3 {
        let two = words.drop_last();
        assert(two.drop_last() =~= seq![words[0]]);
        assert(listed(two.drop_last()) == quoted(words[0]));
        assert(listed(two) == quoted(words[0]) + comma + quoted(words[1]));
        assert(listed(words) == listed(two) + comma + quoted(words[2]));
    } else {
        assert(words.drop_last() =~= seq![words[0]]);
        assert(listed(words.drop_last()) == quoted(words[0]));
        assert(listed(words) == quoted(words[0]) + comma + quoted(words[1]));
    }
    match message {
        ControlMessage::AddVolume(VolumeStep::Up) => {
            assert(message.wire() =~= "{\"command\":[\"add\", \"volume\", \"5\"]}\n"@);
        },
        ControlMessage::AddVolume(VolumeStep::Down) => {
            assert(message.wire() =~= "{\"command\":[\"add\", \"volume\", \"-5\"]}\n"@);
        },
        ControlMessage::CyclePause => {
            assert(message.wire() =~= "{\"command\":[\"cycle\", \"pause\"]}\n"@);
        },
        ControlMessage::SetLoopFile(true) => {
            assert(message.wire() =~= "{\"command\":[\"set_property\", \"loop-file\", \"inf\"]}\n"@);
        },
        ControlMessage::SetLoopFile(false) => {
            assert(message.wire() =~= "{\"command\":[\"set_property\", \"loop-file\", \"no\"]}\n"@);
        },
    }
}

/// Every message is one line: it ends with a newline and holds no other.
pub proof fn law_wire_is_one_line(message: ControlMessage)
    ensures
        message.wire().len() > 0,
        message.wire().last() == '\n',
        forall|i: int| 0 <= i < message.wire().len() - 1 ==> message.wire()[i] != '\n',
{
    lemma_wire_written_out(message);
    reveal_strlit("{\"command\":[\"add\", \"volume\", \"5\"]}\n");
    reveal_strlit("{\"command\":[\"add\", \"volume\", \"-5\"]}\n");
    reveal_strlit("{\"command\":[\"cycle\", \"pause\"]}\n");
    reveal_strlit("{\"command\":[\"set_property\", \"loop-file\", \"inf\"]}\n");
    reveal_strlit("{\"command\":[\"set_property\", \"loop-file\", \"no\"]}\n");
}

/// Different messages go out as different lines.
pub proof fn law_wire_tells_messages_apart(one: ControlMessage, other: ControlMessage)
    requires
        one != other,
    ensures
        one.wire() != other.wire(),
{
    lemma_wire_written_out(one);
    lemma_wire_written_out(other);
}

} // verus!
