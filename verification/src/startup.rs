//! The startup sequence: which handshakes the backend waits for, what it
//! sends once they have arrived, and when the producers may start.
//!
//! The sequence is a state machine. The program around it performs the
//! blocking work a state waits for, hands the outcome in as an event, and
//! carries out the effects it gets back.

use vstd::prelude::*;
use crate::error::Failure;
use crate::message::{Message, RelayEndpoint};
use crate::state::{AuthoritativeState, EngineUpdate, StateModel};

verus! {

/// The operating system the backend finds itself on.
#[derive(Clone, Copy, Debug, PartialEq, Eq, Structural)]
pub enum Platform {
    Linux,
    MacOs,
    Windows,
    Other,
}

impl Platform {
    /// Whether the backend runs here: everywhere but on Windows.
    pub open spec fn is_supported(self) -> bool {
        self != Platform::Windows
    }

    /// Whether the robot console has a window and a relay of its own: on
    /// Linux only.
    pub open spec fn has_console(self) -> bool {
        self == Platform::Linux
    }

    /// Whether the backend runs here.
    pub fn supported(&self) -> (s: bool)
        ensures
            s == self.is_supported(),
    {
        match self {
            Platform::Windows => false,
            _ => true,
        }
    }

    /// Whether a console relay takes part in the startup.
    pub fn console_relay(&self) -> (c: bool)
        ensures
            c == self.has_console(),
    {
        match self {
            Platform::Linux => true,
            _ => false,
        }
    }
}

/// What the program must obtain before the sequence can go on.
#[derive(Clone, Copy, Debug, PartialEq, Eq, Structural)]
pub enum Awaited {
    /// The endpoint of the primary relay: a blocking receive with no timeout.
    PrimaryRelay,
    /// The endpoint of the console relay: a blocking receive with no timeout.
    ConsoleRelay,
    /// The outcome of installing the global key hooks.
    KeyBindings,
    /// Nothing: the sequence is over.
    Nothing,
}

/// What the program reports back to the sequence.
#[derive(Clone, Copy, Debug, PartialEq, Eq, Structural)]
pub enum Event {
    /// The primary handshake delivered an endpoint.
    PrimaryRelay(RelayEndpoint),
    /// The console handshake delivered an endpoint.
    ConsoleRelay(RelayEndpoint),
    /// The key hooks were installed (`true`) or refused (`false`).
    KeysBound(bool),
}

/// What the program must do for the sequence, in the order given.
#[derive(Clone, Copy, Debug, PartialEq, Eq, Structural)]
pub enum Effect {
    /// Send `message` to the relay `to`, without waiting for delivery.
    Send { to: RelayEndpoint, message: Message },
    /// Forward the update to the robot link engine.
    NotifyEngine(EngineUpdate),
    /// Start polling the input devices, reporting to `relay`.
    StartInput { relay: RelayEndpoint },
    /// Start the periodic telemetry, reporting to `relay`.
    StartBroadcaster { relay: RelayEndpoint },
}

/// The state of the startup sequence.
#[derive(Clone, Copy, Debug, PartialEq, Eq, Structural)]
pub enum Startup {
    /// Waiting for the primary relay. `console` says whether a console relay
    /// is expected after it.
    AwaitPrimary { console: bool },
    /// The primary relay is known; waiting for the console relay.
    AwaitConsole { primary: RelayEndpoint },
    /// Every expected relay is known; waiting for the key hooks.
    BindKeys { primary: RelayEndpoint },
    /// The producers were started.
    Running,
}

/// The announcement of the persisted team number: nothing for the number
/// zero, else the message for the UI and the update for the engine.
pub open spec fn announcement(to: RelayEndpoint, team_number: u32) -> Seq<Effect> {
    if team_number == 0 {
        Seq::empty()
    } else {
        seq![
            Effect::Send {
                to,
                message: Message::UpdateTeamNumber {
                    team_number: team_number as i64,
                    from_backend: true,
                },
            },
            Effect::NotifyEngine(EngineUpdate { team_number }),
        ]
    }
}

/// What follows the key hooks: the capability report, then the producers.
pub open spec fn launch(primary: RelayEndpoint, backend_keybinds: bool) -> Seq<Effect> {
    seq![
        Effect::Send { to: primary, message: Message::Capabilities { backend_keybinds } },
        Effect::StartInput { relay: primary },
        Effect::StartBroadcaster { relay: primary },
    ]
}

impl Startup {
    /// What the sequence waits for in each state.
    pub open spec fn awaited(self) -> Awaited {
        match self {
            Startup::AwaitPrimary { .. } => Awaited::PrimaryRelay,
            Startup::AwaitConsole { .. } => Awaited::ConsoleRelay,
            Startup::BindKeys { .. } => Awaited::KeyBindings,
            Startup::Running => Awaited::Nothing,
        }
    }

    /// One step of the sequence: the next state of the sequence, the next
    /// value of the authoritative state, and the effects to carry out.
    ///
    /// An event the sequence does not wait for changes nothing. The primary
    /// delivery binds the relay endpoint, unless one is bound already: then
    /// that one stays and the sequence goes on with it.
    pub open spec fn step(self, state: StateModel, event: Event) -> (
        Startup,
        StateModel,
        Seq<Effect>,
    ) {
        match (self, event) {
            (Startup::AwaitPrimary { console }, Event::PrimaryRelay(delivered)) => {
                let bound = state.bound(delivered);
                let primary = bound.relay->0;
                if console {
                    (Startup::AwaitConsole { primary }, bound, Seq::empty())
                } else {
                    (Startup::BindKeys { primary }, bound, announcement(primary, state.team_number))
                }
            },
            (Startup::AwaitConsole { primary }, Event::ConsoleRelay(console)) => (
                Startup::BindKeys { primary },
                state,
                seq![Effect::Send { to: primary, message: Message::SetAddr { addr: console } }]
                    + announcement(primary, state.team_number),
            ),
            (Startup::BindKeys { primary }, Event::KeysBound(backend_keybinds)) => (
                Startup::Running,
                state,
                launch(primary, backend_keybinds),
            ),
            _ => (self, state, Seq::empty()),
        }
    }

    /// Begins the sequence on `platform`.
    ///
    /// An unsupported platform is rejected before anything else is built.
    pub fn begin(platform: Platform) -> (r: Result<Startup, Failure>)
        ensures
            r == if platform.is_supported() {
                Ok::<Startup, Failure>(Startup::AwaitPrimary { console: platform.has_console() })
            } else {
                Err::<Startup, Failure>(Failure::UnsupportedPlatform)
            },
    {
        if platform.supported() {
            Ok(Startup::AwaitPrimary { console: platform.console_relay() })
        } else {
            Err(Failure::UnsupportedPlatform)
        }
    }

    /// What the program must obtain next.
    pub fn awaits(&self) -> (a: Awaited)
        ensures
            a == self.awaited(),
    {
        match self {
            Startup::AwaitPrimary { .. } => Awaited::PrimaryRelay,
            Startup::AwaitConsole { .. } => Awaited::ConsoleRelay,
            Startup::BindKeys { .. } => Awaited::KeyBindings,
            Startup::Running => Awaited::Nothing,
        }
    }

    /// Takes one step on `event`, changing the sequence and the authoritative
    /// state and answering the effects to carry out, in order.
    pub fn advance<E>(&mut self, state: &mut AuthoritativeState<E>, event: Event) -> (effects: Vec<
        Effect,
    >)
        ensures
            (*final(self), final(state)@, effects@) == old(self).step(old(state)@, event),
            final(state).engine_of() == old(state).engine_of(),
    {
        let mut effects: Vec<Effect> = Vec::new();
        match (*self, event) {
            (Startup::AwaitPrimary { console }, Event::PrimaryRelay(delivered)) => {
                let team_number = state.team_number();
                state.bind_relay(delivered);
                let primary = match state.relay_endpoint() {
                    Some(bound) => bound,
                    None => delivered,
                };
                if console {
                    *self = Startup::AwaitConsole { primary };
                } else {
                    announce(primary, team_number, &mut effects);
                    *self = Startup::BindKeys { primary };
                }
            },
            (Startup::AwaitConsole { primary }, Event::ConsoleRelay(console)) => {
                effects.push(
                    Effect::Send { to: primary, message: Message::SetAddr { addr: console } },
                );
                announce(primary, state.team_number(), &mut effects);
                *self = Startup::BindKeys { primary };
            },
            (Startup::BindKeys { primary }, Event::KeysBound(backend_keybinds)) => {
                effects.push(
                    Effect::Send { to: primary, message: Message::capabilities(backend_keybinds) },
                );
                effects.push(Effect::StartInput { relay: primary });
                effects.push(Effect::StartBroadcaster { relay: primary });
                *self = Startup::Running;
            },
            _ => {},
        }
        effects
    }
}

/// What an effect is, whatever values it carries.
#[derive(Clone, Copy, Debug, PartialEq, Eq, Structural)]
pub enum EffectKind {
    /// The team number, sent to the UI in the backend's name.
    Announcement,
    /// The console relay's address, sent to the primary relay.
    ConsoleAddress,
    /// The capability report.
    CapabilityReport,
    /// Any other message.
    OtherMessage,
    /// An update for the robot link engine.
    EngineNotice,
    /// The start of the input polling.
    InputStart,
    /// The start of the periodic telemetry.
    BroadcasterStart,
}

impl Effect {
    /// The kind of the effect.
    pub open spec fn kind(self) -> EffectKind {
        match self {
            Effect::Send { message, .. } => match message {
                Message::UpdateTeamNumber { from_backend, .. } => if from_backend {
                    EffectKind::Announcement
                } else {
                    EffectKind::OtherMessage
                },
                Message::SetAddr { .. } => EffectKind::ConsoleAddress,
                Message::Capabilities { .. } => EffectKind::CapabilityReport,
                Message::RobotStateUpdate { .. } => EffectKind::OtherMessage,
            },
            Effect::NotifyEngine(_) => EffectKind::EngineNotice,
            Effect::StartInput { .. } => EffectKind::InputStart,
            Effect::StartBroadcaster { .. } => EffectKind::BroadcasterStart,
        }
    }

    /// The relay the effect is addressed to, for the effects that have one.
    pub open spec fn relay(self) -> Option<RelayEndpoint> {
        match self {
            Effect::Send { to, .. } => Some(to),
            Effect::NotifyEngine(_) => None,
            Effect::StartInput { relay } => Some(relay),
            Effect::StartBroadcaster { relay } => Some(relay),
        }
    }
}

/// How many effects of `kind` there are in `effects`.
pub open spec fn occurrences(effects: Seq<Effect>, kind: EffectKind) -> nat
    decreases effects.len(),
{
    if effects.len() == 0 {
        0
    } else {
        occurrences(effects.drop_last(), kind) + if effects.last().kind() == kind {
            1nat
        } else {
            0nat
        }
    }
}

/// How far the sequence has come: one more with each state it has left.
pub open spec fn progress(startup: Startup) -> nat {
    match startup {
        Startup::AwaitPrimary { .. } => 0,
        Startup::AwaitConsole { .. } => 1,
        Startup::BindKeys { .. } => 2,
        Startup::Running => 3,
    }
}

/// The sequence, the authoritative state and all effects so far after the
/// events of `events` were handed in, one after the other.
pub open spec fn run(startup: Startup, state: StateModel, events: Seq<Event>) -> (
    Startup,
    StateModel,
    Seq<Effect>,
)
    decreases events.len(),
{
    if events.len() == 0 {
        (startup, state, Seq::empty())
    } else {
        let before = run(startup, state, events.drop_last());
        let last = before.0.step(before.1, events.last());
        (last.0, last.1, before.2 + last.2)
    }
}

/// Whether every effect of `effects` that is addressed to a relay is
/// addressed to `relay`.
pub open spec fn all_addressed_to(effects: Seq<Effect>, relay: RelayEndpoint) -> bool {
    forall|i: int|
        0 <= i < effects.len() && (#[trigger] effects[i]).relay() is Some ==> effects[i].relay()
            == Some(relay)
}

/// Counting over two lists counts each of them.
proof fn lemma_occurrences_add(a: Seq<Effect>, b: Seq<Effect>, kind: EffectKind)
    ensures
        occurrences(a + b, kind) == occurrences(a, kind) + occurrences(b, kind),
    decreases b.len(),
{
    if b.len() == 0 {
        assert(a + b == a);
    } else {
        assert((a + b).drop_last() == a + b.drop_last());
        assert((a + b).last() == b.last());
        lemma_occurrences_add(a, b.drop_last(), kind);
    }
}

/// What the effects of a single step hold, state by state.
proof fn lemma_step_effects(startup: Startup, state: StateModel, event: Event, kind: EffectKind)
    ensures
        ({
            let next = startup.step(state, event);
            let crossed_handshakes = progress(startup) < 2 <= progress(next.0);
            let crossed_keys = progress(startup) < 3 <= progress(next.0);
            &&& progress(startup) <= progress(next.0) <= progress(startup) + 2
            &&& next.1.team_number == state.team_number
            &&& next.1.relay == (if startup is AwaitPrimary && event is PrimaryRelay {
                state.bound(event->PrimaryRelay_0).relay
            } else {
                state.relay
            })
            &&& occurrences(next.2, kind) == match kind {
                EffectKind::Announcement | EffectKind::EngineNotice => if crossed_handshakes
                    && state.team_number != 0 {
                    1nat
                } else {
                    0nat
                },
                EffectKind::ConsoleAddress => if startup is AwaitConsole && crossed_handshakes {
                    1nat
                } else {
                    0nat
                },
                EffectKind::CapabilityReport
                | EffectKind::InputStart
                | EffectKind::BroadcasterStart => if crossed_keys {
                    1nat
                } else {
                    0nat
                },
                EffectKind::OtherMessage => 0nat,
            }
            &&& progress(next.0) < 2 ==> next.2 == Seq::<Effect>::empty()
            &&& progress(startup) > 0 ==> next.1 == state
            &&& next.0 is AwaitPrimary ==> next.0 == startup
            &&& next.0 is AwaitConsole ==> startup is AwaitConsole || startup == (
                Startup::AwaitPrimary { console: true })
        }),
{
    reveal_with_fuel(occurrences, 4);
}

/// Whatever events arrive and in whatever order, the startup sequence keeps
/// to its contract.
///
/// It only moves forward. It never changes the team number, and a relay
/// endpoint that is bound stays the one that is bound. Nothing at all is
/// sent or started before every expected handshake has completed. The team
/// number is announced, and the engine told of it, exactly once when the
/// handshakes complete and the number is not zero, and never otherwise. The
/// capability report is sent and each producer is started exactly once, when
/// the key hooks have been tried, and never before.
pub proof fn lemma_startup_runs_in_order(
    startup: Startup,
    state: StateModel,
    events: Seq<Event>,
    kind: EffectKind,
)
    ensures
        ({
            let end = run(startup, state, events);
            let crossed_handshakes = progress(startup) < 2 <= progress(end.0);
            let crossed_keys = progress(startup) < 3 <= progress(end.0);
            &&& progress(startup) <= progress(end.0)
            &&& end.1.team_number == state.team_number
            &&& state.relay is Some ==> end.1.relay == state.relay
            &&& progress(startup) > 0 ==> end.1 == state
            &&& end.0 is AwaitPrimary ==> end.0 == startup
            &&& end.0 is AwaitConsole ==> startup is AwaitConsole || startup == (
                Startup::AwaitPrimary { console: true })
            &&& progress(end.0) < 2 ==> end.2 == Seq::<Effect>::empty()
            &&& occurrences(end.2, kind) == match kind {
                EffectKind::Announcement | EffectKind::EngineNotice => if crossed_handshakes
                    && state.team_number != 0 {
                    1nat
                } else {
                    0nat
                },
                EffectKind::ConsoleAddress => if crossed_handshakes && (startup is AwaitConsole
                    || (startup matches Startup::AwaitPrimary { console } && console)) {
                    1nat
                } else {
                    0nat
                },
                EffectKind::CapabilityReport
                | EffectKind::InputStart
                | EffectKind::BroadcasterStart => if crossed_keys {
                    1nat
                } else {
                    0nat
                },
                EffectKind::OtherMessage => 0nat,
            }
        }),
    decreases events.len(),
{
    if events.len() > 0 {
        let before = run(startup, state, events.drop_last());
        lemma_startup_runs_in_order(startup, state, events.drop_last(), kind);
        lemma_step_effects(before.0, before.1, events.last(), kind);
        let last = before.0.step(before.1, events.last());
        lemma_occurrences_add(before.2, last.2, kind);
    }
}

/// From the first state on, every message and every producer is addressed to
/// the relay endpoint that the authoritative state holds: the one bound by
/// the first delivery, or the one that was bound before it.
pub proof fn lemma_effects_address_the_bound_relay(
    console: bool,
    state: StateModel,
    events: Seq<Event>,
)
    ensures
        ({
            let end = run(Startup::AwaitPrimary { console }, state, events);
            &&& progress(end.0) > 0 ==> end.1.relay is Some
            &&& end.0 matches Startup::AwaitConsole { primary } ==> end.1.relay == Some(primary)
            &&& end.0 matches Startup::BindKeys { primary } ==> end.1.relay == Some(primary)
            &&& end.1.relay matches Some(relay) ==> all_addressed_to(end.2, relay)
        }),
    decreases events.len(),
{
    if events.len() > 0 {
        let start = Startup::AwaitPrimary { console };
        let before = run(start, state, events.drop_last());
        lemma_effects_address_the_bound_relay(console, state, events.drop_last());
        lemma_startup_runs_in_order(start, state, events.drop_last(), EffectKind::OtherMessage);
        let last = before.0.step(before.1, events.last());
        let end = run(start, state, events);
        if end.1.relay is Some {
            let relay = end.1.relay->0;
            assert forall|i: int| 0 <= i < end.2.len() && (#[trigger] end.2[i]).relay() is Some
                implies end.2[i].relay() == Some(relay) by {
                if i < before.2.len() {
                    assert(end.2[i] == before.2[i]);
                } else {
                    assert(end.2[i] == last.2[i - before.2.len()]);
                }
            }
        }
    }
}

/// Appends the announcement of `team_number` to `effects`.
fn announce(to: RelayEndpoint, team_number: u32, effects: &mut Vec<Effect>)
    ensures
        final(effects)@ == old(effects)@ + announcement(to, team_number),
{
    if team_number != 0 {
        effects.push(Effect::Send { to, message: Message::team_number_from_backend(team_number) });
        effects.push(Effect::NotifyEngine(EngineUpdate { team_number }));
    }
}

} // verus!
