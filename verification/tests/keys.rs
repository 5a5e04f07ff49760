use conductor::keys::KeyBindings;
use conductor::message::{Message, RelayEndpoint};

const SPACE: u32 = 32;
const ENTER: u32 = 13;

fn stop() -> Message {
    Message::UpdateTeamNumber { team_number: 0, from_backend: true }
}

fn rebind() -> Message {
    Message::SetAddr { addr: RelayEndpoint::new(2) }
}

#[test]
fn new_bindings_are_inactive_and_empty() {
    let keys = KeyBindings::new();
    assert!(!keys.active());
    assert_eq!(keys.dispatch(SPACE), None);
}

#[test]
fn refused_hooks_give_a_false_flag_and_no_error() {
    let mut keys = KeyBindings::new();
    keys.bind(SPACE, stop());
    assert!(!keys.installed(false));
    assert!(!keys.active());
    assert_eq!(keys.dispatch(SPACE), None);
}

#[test]
fn installed_hooks_give_a_true_flag_and_dispatch() {
    let mut keys = KeyBindings::new();
    keys.bind(SPACE, stop());
    keys.bind(ENTER, rebind());
    assert!(keys.installed(true));
    assert!(keys.active());
    assert_eq!(keys.dispatch(SPACE), Some(stop()));
    assert_eq!(keys.dispatch(ENTER), Some(rebind()));
    assert_eq!(keys.dispatch(27), None);
}

#[test]
fn binding_a_key_again_replaces_its_message() {
    let mut keys = KeyBindings::new();
    keys.installed(true);
    keys.bind(SPACE, stop());
    keys.bind(SPACE, rebind());
    assert_eq!(keys.dispatch(SPACE), Some(rebind()));
    keys.bind(ENTER, stop());
    assert_eq!(keys.dispatch(SPACE), Some(rebind()));
    assert_eq!(keys.dispatch(ENTER), Some(stop()));
}

#[test]
fn losing_the_hooks_silences_the_bindings() {
    let mut keys = KeyBindings::new();
    keys.bind(SPACE, stop());
    keys.installed(true);
    assert_eq!(keys.dispatch(SPACE), Some(stop()));
    keys.installed(false);
    assert_eq!(keys.dispatch(SPACE), None);
    keys.installed(true);
    assert_eq!(keys.dispatch(SPACE), Some(stop()));
}
