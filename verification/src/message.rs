//! The messages exchanged with the UI, and the plain values they carry.

use vstd::prelude::*;

verus! {

/// Handle of a message relay: the destination of outbound messages.
///
/// A handle is obtained from a handshake and only ever copied afterwards.
#[derive(Clone, Copy, Debug, PartialEq, Eq, Hash, Structural)]
pub struct RelayEndpoint {
    id: u64,
}

impl RelayEndpoint {
    /// The identifier the handle stands for.
    pub closed spec fn ident(self) -> u64 {
        self.id
    }

    /// The handle of the relay registered under `id`.
    pub fn new(id: u64) -> (e: RelayEndpoint)
        ensures
            e.ident() == id,
    {
        RelayEndpoint { id }
    }

    /// The identifier the handle was made from.
    pub fn id(&self) -> (id: u64)
        ensures
            id == self.ident(),
    {
        self.id
    }

    /// Two handles made from one identifier are one handle.
    pub proof fn lemma_ident_decides(a: RelayEndpoint, b: RelayEndpoint)
        ensures
            a == b <==> a.ident() == b.ident(),
    {
    }
}

/// A battery voltage reading, held as the bit pattern of the single-precision
/// number the robot link reports. The hub carries readings and never computes
/// on them.
#[derive(Clone, Copy, Debug, PartialEq, Eq, Hash, Structural)]
pub struct Voltage {
    bits: u32,
}

impl Voltage {
    /// The bit pattern of the reading.
    pub closed spec fn pattern(self) -> u32 {
        self.bits
    }

    /// The reading with the given bit pattern.
    pub fn from_bits(bits: u32) -> (v: Voltage)
        ensures
            v.pattern() == bits,
    {
        Voltage { bits }
    }

    /// The bit pattern of the reading.
    pub fn to_bits(&self) -> (bits: u32)
        ensures
            bits == self.pattern(),
    {
        self.bits
    }

    /// Two readings with one bit pattern are one reading.
    pub proof fn lemma_pattern_decides(a: Voltage, b: Voltage)
        ensures
            a == b <==> a.pattern() == b.pattern(),
    {
    }
}

/// A message to or from the UI. Every variant holds plain values only.
#[derive(Clone, Copy, Debug, PartialEq, Eq, Structural)]
pub enum Message {
    /// The team number: sent to the UI with `from_backend` set, received from
    /// the UI as a command with `from_backend` clear.
    UpdateTeamNumber { team_number: i64, from_backend: bool },
    /// Whether native key bindings are active.
    Capabilities { backend_keybinds: bool },
    /// The periodic telemetry.
    RobotStateUpdate {
        comms_alive: bool,
        code_alive: bool,
        simulator: bool,
        joysticks: bool,
        voltage: Voltage,
    },
    /// Tells a relay the address of the console relay.
    SetAddr { addr: RelayEndpoint },
}

impl Message {
    /// The announcement of `team_number` to the UI.
    pub fn team_number_from_backend(team_number: u32) -> (m: Message)
        ensures
            m == (Message::UpdateTeamNumber {
                team_number: team_number as i64,
                from_backend: true,
            }),
    {
        Message::UpdateTeamNumber { team_number: team_number as i64, from_backend: true }
    }

    /// The report of whether native key bindings are active.
    pub fn capabilities(backend_keybinds: bool) -> (m: Message)
        ensures
            m == (Message::Capabilities { backend_keybinds }),
    {
        Message::Capabilities { backend_keybinds }
    }
}

} // verus!
