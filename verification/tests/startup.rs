use conductor::error::Failure;
use conductor::message::{Message, RelayEndpoint};
use conductor::startup::{Awaited, Effect, Event, Platform, Startup};
use conductor::state::{AuthoritativeState, EngineUpdate};

fn announcement(to: RelayEndpoint, team: u32) -> Vec<Effect> {
    vec![
        Effect::Send {
            to,
            message: Message::UpdateTeamNumber { team_number: team as i64, from_backend: true },
        },
        Effect::NotifyEngine(EngineUpdate { team_number: team }),
    ]
}

fn launch(to: RelayEndpoint, keybinds: bool) -> Vec<Effect> {
    vec![
        Effect::Send { to, message: Message::Capabilities { backend_keybinds: keybinds } },
        Effect::StartInput { relay: to },
        Effect::StartBroadcaster { relay: to },
    ]
}

/// Runs the whole sequence and gathers every effect.
fn run_all(platform: Platform, team: u32, keybinds: bool) -> Vec<Effect> {
    let mut state = AuthoritativeState::new((), team).unwrap();
    let mut startup = Startup::begin(platform).unwrap();
    let mut effects = Vec::new();
    loop {
        let event = match startup.awaits() {
            Awaited::PrimaryRelay => Event::PrimaryRelay(RelayEndpoint::new(1)),
            Awaited::ConsoleRelay => Event::ConsoleRelay(RelayEndpoint::new(2)),
            Awaited::KeyBindings => Event::KeysBound(keybinds),
            Awaited::Nothing => break,
        };
        effects.extend(startup.advance(&mut state, event));
    }
    effects
}

#[test]
fn windows_is_rejected_before_anything_is_built() {
    assert_eq!(Startup::begin(Platform::Windows), Err(Failure::UnsupportedPlatform));
    assert!(!Platform::Windows.supported());
}

#[test]
fn other_platforms_begin_by_awaiting_the_primary_relay() {
    assert_eq!(Startup::begin(Platform::Linux), Ok(Startup::AwaitPrimary { console: true }));
    assert_eq!(Startup::begin(Platform::MacOs), Ok(Startup::AwaitPrimary { console: false }));
    assert_eq!(Startup::begin(Platform::Other), Ok(Startup::AwaitPrimary { console: false }));
    assert!(Platform::Linux.console_relay());
    assert!(!Platform::MacOs.console_relay());
    assert!(!Platform::Windows.console_relay());
}

#[test]
fn persisted_team_number_is_announced_exactly_once() {
    let effects = run_all(Platform::MacOs, 4201, true);
    let wanted = Effect::Send {
        to: RelayEndpoint::new(1),
        message: Message::UpdateTeamNumber { team_number: 4201, from_backend: true },
    };
    assert_eq!(effects.iter().filter(|e| **e == wanted).count(), 1);
    let announcements = effects
        .iter()
        .filter(|e| matches!(e, Effect::Send { message: Message::UpdateTeamNumber { .. }, .. }))
        .count();
    assert_eq!(announcements, 1);
    let mut expected = announcement(RelayEndpoint::new(1), 4201);
    expected.extend(launch(RelayEndpoint::new(1), true));
    assert_eq!(effects, expected);
}

#[test]
fn team_number_zero_is_not_announced() {
    let effects = run_all(Platform::MacOs, 0, false);
    assert_eq!(effects, launch(RelayEndpoint::new(1), false));
}

#[test]
fn linux_waits_for_the_console_relay_and_rebinds_it() {
    let effects = run_all(Platform::Linux, 4201, true);
    let mut expected = vec![Effect::Send {
        to: RelayEndpoint::new(1),
        message: Message::SetAddr { addr: RelayEndpoint::new(2) },
    }];
    expected.extend(announcement(RelayEndpoint::new(1), 4201));
    expected.extend(launch(RelayEndpoint::new(1), true));
    assert_eq!(effects, expected);
}

#[test]
fn nothing_happens_before_the_handshakes_complete() {
    let mut state = AuthoritativeState::new((), 4201).unwrap();
    let mut startup = Startup::begin(Platform::Linux).unwrap();
    assert_eq!(startup.advance(&mut state, Event::KeysBound(true)), vec![]);
    assert_eq!(startup.advance(&mut state, Event::ConsoleRelay(RelayEndpoint::new(2))), vec![]);
    assert_eq!(startup, Startup::AwaitPrimary { console: true });
    assert_eq!(state.relay_endpoint(), None);
    assert_eq!(startup.advance(&mut state, Event::PrimaryRelay(RelayEndpoint::new(1))), vec![]);
    assert_eq!(startup, Startup::AwaitConsole { primary: RelayEndpoint::new(1) });
    assert_eq!(startup.awaits(), Awaited::ConsoleRelay);
    assert_eq!(state.relay_endpoint(), Some(RelayEndpoint::new(1)));
    assert_eq!(startup.advance(&mut state, Event::KeysBound(true)), vec![]);
    assert_eq!(startup, Startup::AwaitConsole { primary: RelayEndpoint::new(1) });
}

#[test]
fn second_primary_delivery_never_replaces_the_endpoint() {
    let mut state = AuthoritativeState::new((), 4201).unwrap();
    let mut startup = Startup::begin(Platform::MacOs).unwrap();
    startup.advance(&mut state, Event::PrimaryRelay(RelayEndpoint::new(1)));
    assert_eq!(startup.advance(&mut state, Event::PrimaryRelay(RelayEndpoint::new(7))), vec![]);
    assert_eq!(state.relay_endpoint(), Some(RelayEndpoint::new(1)));
    assert_eq!(startup, Startup::BindKeys { primary: RelayEndpoint::new(1) });
    assert_eq!(
        startup.advance(&mut state, Event::KeysBound(false)),
        launch(RelayEndpoint::new(1), false)
    );
    assert_eq!(startup.advance(&mut state, Event::PrimaryRelay(RelayEndpoint::new(8))), vec![]);
    assert_eq!(state.relay_endpoint(), Some(RelayEndpoint::new(1)));
}

#[test]
fn delivery_to_a_bound_state_goes_on_with_the_bound_endpoint() {
    let mut state = AuthoritativeState::new((), 254).unwrap();
    state.bind_relay(RelayEndpoint::new(3));
    let mut startup = Startup::begin(Platform::MacOs).unwrap();
    let effects = startup.advance(&mut state, Event::PrimaryRelay(RelayEndpoint::new(4)));
    assert_eq!(effects, announcement(RelayEndpoint::new(3), 254));
    assert_eq!(state.relay_endpoint(), Some(RelayEndpoint::new(3)));
    assert_eq!(startup, Startup::BindKeys { primary: RelayEndpoint::new(3) });
}

#[test]
fn capabilities_follow_the_key_hooks() {
    for keybinds in [true, false] {
        let effects = run_all(Platform::Other, 0, keybinds);
        assert_eq!(
            effects[0],
            Effect::Send {
                to: RelayEndpoint::new(1),
                message: Message::Capabilities { backend_keybinds: keybinds },
            }
        );
    }
}

#[test]
fn finished_sequence_ignores_every_event() {
    let mut state = AuthoritativeState::new((), 4201).unwrap();
    let mut startup = Startup::Running;
    assert_eq!(startup.awaits(), Awaited::Nothing);
    for event in [
        Event::PrimaryRelay(RelayEndpoint::new(1)),
        Event::ConsoleRelay(RelayEndpoint::new(2)),
        Event::KeysBound(true),
    ] {
        assert_eq!(startup.advance(&mut state, event), vec![]);
        assert_eq!(startup, Startup::Running);
    }
    assert_eq!(state.relay_endpoint(), None);
    assert_eq!(state.team_number(), 4201);
}

#[test]
fn announcement_carries_the_team_number_of_the_moment() {
    let mut state = AuthoritativeState::new((), 4201).unwrap();
    let mut startup = Startup::begin(Platform::Linux).unwrap();
    startup.advance(&mut state, Event::PrimaryRelay(RelayEndpoint::new(1)));
    state.update_team_number(9999).unwrap();
    let effects = startup.advance(&mut state, Event::ConsoleRelay(RelayEndpoint::new(2)));
    assert_eq!(effects[1..], announcement(RelayEndpoint::new(1), 9999)[..]);
}
