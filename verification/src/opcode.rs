//! Kind tags of gateway messages.

use vstd::prelude::*;

verus! {

/// Kind of a gateway message, carried in the `op` field of its envelope.
#[derive(Clone, Copy, Debug, PartialEq, Eq, Hash, Structural)]
pub enum OpCode {
    /// An event was dispatched.
    Event,
    /// Keeps the connection alive.
    Heartbeat,
    /// Starts a new session.
    Identify,
    /// Updates the client's status.
    StatusUpdate,
    /// Joins, moves between or leaves voice channels.
    VoiceStateUpdate,
    /// Pings a voice server.
    VoiceServerPing,
    /// Resumes an earlier session.
    Resume,
    /// Tells the client to reconnect.
    Reconnect,
    /// Asks for the members of a guild.
    RequestGuildMembers,
    /// The session is no longer valid.
    InvalidSession,
    /// Sent right after connecting.
    Hello,
    /// Acknowledges a heartbeat.
    HeartbeatAck,
}

impl OpCode {
    /// The integer that stands for this kind on the wire.
    pub open spec fn spec_number(self) -> u8 {
        match self {
            OpCode::Event => 0,
            OpCode::Heartbeat => 1,
            OpCode::Identify => 2,
            OpCode::StatusUpdate => 3,
            OpCode::VoiceStateUpdate => 4,
            OpCode::VoiceServerPing => 5,
            OpCode::Resume => 6,
            OpCode::Reconnect => 7,
            OpCode::RequestGuildMembers => 8,
            OpCode::InvalidSession => 9,
            OpCode::Hello => 10,
            OpCode::HeartbeatAck => 11,
        }
    }

    /// The integer that stands for this kind on the wire.
    #[verifier::when_used_as_spec(spec_number)]
    pub fn number(self) -> (n: u8)
        ensures
            n == self.spec_number(),
    {
        match self {
            OpCode::Event => 0,
            OpCode::Heartbeat => 1,
            OpCode::Identify => 2,
            OpCode::StatusUpdate => 3,
            OpCode::VoiceStateUpdate => 4,
            OpCode::VoiceServerPing => 5,
            OpCode::Resume => 6,
            OpCode::Reconnect => 7,
            OpCode::RequestGuildMembers => 8,
            OpCode::InvalidSession => 9,
            OpCode::Hello => 10,
            OpCode::HeartbeatAck => 11,
        }
    }

    /// The kind that `number` stands for, if it stands for one.
    pub fn from_number(number: u8) -> (op: Option<OpCode>)
        ensures
            number <= 11 ==> op is Some && op->0.spec_number() == number,
            number > 11 ==> op is None,
    {
        match number {
            0 => Some(OpCode::Event),
            1 => Some(OpCode::Heartbeat),
            2 => Some(OpCode::Identify),
            3 => Some(OpCode::StatusUpdate),
            4 => Some(OpCode::VoiceStateUpdate),
            5 => Some(OpCode::VoiceServerPing),
            6 => Some(OpCode::Resume),
            7 => Some(OpCode::Reconnect),
            8 => Some(OpCode::RequestGuildMembers),
            9 => Some(OpCode::InvalidSession),
            10 => Some(OpCode::Hello),
            11 => Some(OpCode::HeartbeatAck),
            _ => None,
        }
    }
}

/// Two kinds with the same number are the same kind, so reading a number
/// back gives the kind that wrote it.
pub proof fn lemma_number_identifies_kind(a: OpCode, b: OpCode)
    requires
        a.spec_number() == b.spec_number(),
    ensures
        a == b,
{
}

} // verus!
