//! The periodic telemetry: what one snapshot of the backend reports, and the
//! cycle that takes a snapshot, emits it and sleeps.

use vstd::prelude::*;
use crate::input::DeviceSnapshot;
use crate::message::{Message, Voltage};

verus! {

/// The pause between two telemetry cycles, in milliseconds.
pub const BROADCAST_INTERVAL_MS: u64 = 50;

/// The flag of the trace byte that is set while the robot controller answers.
pub const TRACE_IS_ROBORIO: u8 = 0x10;

/// The flag of the trace byte that is set while robot code runs.
pub const TRACE_ROBOT_CODE: u8 = 0x20;

/// Whether the trace byte reports a connection to the robot controller.
pub open spec fn trace_connected(trace: u8) -> bool {
    trace & TRACE_IS_ROBORIO == TRACE_IS_ROBORIO
}

/// Whether the trace byte reports running robot code.
pub open spec fn trace_code_started(trace: u8) -> bool {
    trace & TRACE_ROBOT_CODE == TRACE_ROBOT_CODE
}

/// Calls `ds::Trace::is_connected` on the trace made of the known flags of
/// `trace` by `ds::Trace::from_bits_truncate`.
///
/// Not proved: that the call answers whether the flag `IS_ROBORIO`, the bit
/// `0x10`, is set in `trace`.
#[verifier::external_body]
fn is_connected(trace: u8) -> (connected: bool)
    ensures
        connected == trace_connected(trace),
{
    ds::Trace::from_bits_truncate(trace).is_connected()
}

/// Calls `ds::Trace::is_code_started` on the trace made of the known flags of
/// `trace` by `ds::Trace::from_bits_truncate`.
///
/// Not proved: that the call answers whether the flag `ROBOT_CODE`, the bit
/// `0x20`, is set in `trace`.
#[verifier::external_body]
fn is_code_started(trace: u8) -> (started: bool)
    ensures
        started == trace_code_started(trace),
{
    ds::Trace::from_bits_truncate(trace).is_code_started()
}

/// Where the robot link engine connects to.
#[derive(Clone, Copy, Debug, PartialEq, Eq, Structural)]
pub enum EngineMode {
    /// The robot of the team number.
    Normal,
    /// A simulator on this machine.
    Simulation,
}

/// What the robot link engine reports at one moment.
#[derive(Clone, Copy, Debug, PartialEq, Eq, Structural)]
pub struct EngineStatus {
    /// The trace byte of the last status packet.
    pub trace: u8,
    /// Where the engine connects to.
    pub mode: EngineMode,
    /// The last battery voltage.
    pub voltage: Voltage,
}

/// The five values of one telemetry snapshot.
#[derive(Clone, Copy, Debug, PartialEq, Eq, Structural)]
pub struct Telemetry {
    pub comms_alive: bool,
    pub code_alive: bool,
    pub simulator: bool,
    pub joysticks: bool,
    pub voltage: Voltage,
}

impl Telemetry {
    /// The snapshot of an engine status and of whether any input device is
    /// attached.
    pub open spec fn of(status: EngineStatus, joysticks: bool) -> Telemetry {
        Telemetry {
            comms_alive: trace_connected(status.trace),
            code_alive: trace_code_started(status.trace),
            simulator: status.mode == EngineMode::Simulation,
            joysticks,
            voltage: status.voltage,
        }
    }

    /// The message that carries the snapshot.
    pub open spec fn message(self) -> Message {
        Message::RobotStateUpdate {
            comms_alive: self.comms_alive,
            code_alive: self.code_alive,
            simulator: self.simulator,
            joysticks: self.joysticks,
            voltage: self.voltage,
        }
    }

    /// Takes the snapshot. Both arguments are only read: the caller holds
    /// reader locks for the length of this call and for no longer.
    pub fn snapshot(status: &EngineStatus, devices: &DeviceSnapshot) -> (t: Telemetry)
        ensures
            t == Telemetry::of(*status, devices@.len() > 0),
    {
        Telemetry {
            comms_alive: is_connected(status.trace),
            code_alive: is_code_started(status.trace),
            simulator: match status.mode {
                EngineMode::Simulation => true,
                EngineMode::Normal => false,
            },
            joysticks: devices.has_joysticks(),
            voltage: status.voltage,
        }
    }

    /// Builds the message that carries the snapshot.
    pub fn to_message(&self) -> (m: Message)
        ensures
            m == self.message(),
    {
        Message::RobotStateUpdate {
            comms_alive: self.comms_alive,
            code_alive: self.code_alive,
            simulator: self.simulator,
            joysticks: self.joysticks,
            voltage: self.voltage,
        }
    }
}

/// What the program must do for the broadcaster in its current phase.
#[derive(Clone, Copy, Debug, PartialEq, Eq, Structural)]
pub enum Action {
    /// Acquire the reader locks, take a snapshot, release the locks.
    Snapshot,
    /// Send the message to the relay, without waiting for delivery.
    Emit(Message),
    /// Suspend the thread for the given number of milliseconds.
    Sleep { millis: u64 },
}

/// The telemetry cycle: snapshot, emit, sleep, and again.
#[derive(Clone, Copy, Debug, PartialEq, Eq, Structural)]
pub enum Broadcaster {
    /// About to take a snapshot.
    Snapshot,
    /// Holding a snapshot that is about to be sent.
    Emit(Telemetry),
    /// About to sleep.
    Sleep,
}

impl Broadcaster {
    /// The action of each phase.
    pub open spec fn action_of(self) -> Action {
        match self {
            Broadcaster::Snapshot => Action::Snapshot,
            Broadcaster::Emit(telemetry) => Action::Emit(telemetry.message()),
            Broadcaster::Sleep => Action::Sleep { millis: BROADCAST_INTERVAL_MS },
        }
    }

    /// The phase after the action of this one was carried out. `taken` is
    /// what the snapshot gave and counts in the snapshot phase only: a
    /// snapshot that failed is skipped, and the cycle sleeps and retries.
    pub open spec fn next(self, taken: Option<Telemetry>) -> Broadcaster {
        match self {
            Broadcaster::Snapshot => match taken {
                Some(telemetry) => Broadcaster::Emit(telemetry),
                None => Broadcaster::Sleep,
            },
            Broadcaster::Emit(_) => Broadcaster::Sleep,
            Broadcaster::Sleep => Broadcaster::Snapshot,
        }
    }

    /// Whether the action of this phase is the one that reads the shared
    /// state. The program holds the reader locks for that action and for no
    /// other.
    pub open spec fn reads_state(self) -> bool {
        self.action_of() is Snapshot
    }

    /// Whether the action of this phase sends a message.
    pub open spec fn sends(self) -> bool {
        self.action_of() is Emit
    }

    /// The cycle at its start: about to take the first snapshot.
    pub fn start() -> (b: Broadcaster)
        ensures
            b == Broadcaster::Snapshot,
    {
        Broadcaster::Snapshot
    }

    /// What the program must do now.
    pub fn action(&self) -> (a: Action)
        ensures
            a == self.action_of(),
    {
        match self {
            Broadcaster::Snapshot => Action::Snapshot,
            Broadcaster::Emit(telemetry) => Action::Emit(telemetry.to_message()),
            Broadcaster::Sleep => Action::Sleep { millis: BROADCAST_INTERVAL_MS },
        }
    }

    /// Moves to the next phase once the action was carried out.
    pub fn advance(&mut self, taken: Option<Telemetry>)
        ensures
            *final(self) == old(self).next(taken),
    {
        let following = match *self {
            Broadcaster::Snapshot => match taken {
                Some(telemetry) => Broadcaster::Emit(telemetry),
                None => Broadcaster::Sleep,
            },
            Broadcaster::Emit(_) => Broadcaster::Sleep,
            Broadcaster::Sleep => Broadcaster::Snapshot,
        };
        *self = following;
    }
}

/// The phase reached from `b` after the actions of `taken.len()` phases were
/// carried out, `taken[i]` being what the `i`-th of them gave.
pub open spec fn after(b: Broadcaster, taken: Seq<Option<Telemetry>>) -> Broadcaster
    decreases taken.len(),
{
    if taken.len() == 0 {
        b
    } else {
        after(b, taken.drop_last()).next(taken.last())
    }
}

/// The cycle never asks for a send in the phase that reads the shared state:
/// the send has a phase of its own.
pub proof fn lemma_send_reads_no_state(b: Broadcaster)
    ensures
        !(b.reads_state() && b.sends()),
        b.sends() <==> b is Emit,
        b.reads_state() <==> b is Snapshot,
{
}

/// A send follows a snapshot that succeeded, and carries exactly what that
/// snapshot took; a snapshot that failed is followed by the sleep.
pub proof fn lemma_send_follows_snapshot(b: Broadcaster, taken: Option<Telemetry>)
    ensures
        b.next(taken).sends() <==> (b is Snapshot && taken is Some),
        b.next(taken).sends() ==> b.next(taken).action_of() == Action::Emit(taken->0.message()),
        b is Snapshot && taken is None ==> b.next(taken) == Broadcaster::Sleep,
{
}

/// The cycle runs snapshot, emit, sleep and is back at the snapshot; the
/// sleep lasts the fixed interval.
pub proof fn lemma_cycle_order(
    telemetry: Telemetry,
    emitted: Option<Telemetry>,
    slept: Option<Telemetry>,
)
    ensures
        Broadcaster::Snapshot.next(Some(telemetry)) == Broadcaster::Emit(telemetry),
        Broadcaster::Emit(telemetry).next(emitted) == Broadcaster::Sleep,
        Broadcaster::Sleep.next(slept) == Broadcaster::Snapshot,
        Broadcaster::Sleep.action_of() == (Action::Sleep { millis: BROADCAST_INTERVAL_MS }),
{
}

/// However long the cycle has run from its start: when it asks for a send,
/// the step just before was a snapshot that succeeded, the message is that
/// snapshot's, and the step after is the sleep.
pub proof fn lemma_every_send_is_the_latest_snapshot(taken: Seq<Option<Telemetry>>)
    requires
        after(Broadcaster::Snapshot, taken).sends(),
    ensures
        taken.len() > 0,
        after(Broadcaster::Snapshot, taken.drop_last()) == Broadcaster::Snapshot,
        taken.last() is Some,
        after(Broadcaster::Snapshot, taken).action_of() == Action::Emit(taken.last()->0.message()),
        !after(Broadcaster::Snapshot, taken).reads_state(),
        after(Broadcaster::Snapshot, taken.push(None)) == Broadcaster::Sleep,
{
    assert(taken.push(None).drop_last() == taken);
    assert(taken.push(None).last() == None::<Telemetry>);
}

/// With no input device attached, every snapshot reports that there is none.
pub proof fn lemma_no_devices_no_joysticks(status: EngineStatus)
    ensures
        Telemetry::of(status, false).joysticks == false,
        Telemetry::of(status, false).message() matches Message::RobotStateUpdate { joysticks, .. }
            && !joysticks,
{
}

} // verus!
