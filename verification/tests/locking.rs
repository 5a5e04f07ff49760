use std::sync::{RwLock, TryLockError};

use conductor::input::DeviceSnapshot;
use conductor::message::{Message, RelayEndpoint, Voltage};
use conductor::state::AuthoritativeState;
use conductor::telemetry::{Action, Broadcaster, EngineMode, EngineStatus, Telemetry};

fn shared(team: u32) -> RwLock<AuthoritativeState<EngineStatus>> {
    let engine = EngineStatus {
        trace: 0x30,
        mode: EngineMode::Normal,
        voltage: Voltage::from_bits(12.5f32.to_bits()),
    };
    RwLock::new(AuthoritativeState::new(engine, team).unwrap())
}

#[test]
fn readers_share_the_state() {
    let state = shared(4201);
    let first = state.try_read().unwrap();
    let second = state.try_read().unwrap();
    assert_eq!(first.team_number(), 4201);
    assert_eq!(second.team_number(), 4201);
    assert_eq!(first.relay_endpoint(), second.relay_endpoint());
}

#[test]
fn writer_excludes_every_reader() {
    let state = shared(4201);
    let mut writer = state.try_write().unwrap();
    assert!(matches!(state.try_read(), Err(TryLockError::WouldBlock)));
    assert!(matches!(state.try_write(), Err(TryLockError::WouldBlock)));
    writer.update_team_number(9999).unwrap();
    assert!(matches!(state.try_read(), Err(TryLockError::WouldBlock)));
    drop(writer);
    assert_eq!(state.try_read().unwrap().team_number(), 9999);
}

#[test]
fn reader_keeps_the_writer_out() {
    let state = shared(4201);
    let reader = state.try_read().unwrap();
    assert!(matches!(state.try_write(), Err(TryLockError::WouldBlock)));
    drop(reader);
    assert!(state.try_write().unwrap().bind_relay(RelayEndpoint::new(1)));
}

#[test]
fn broadcaster_sends_with_the_lock_released() {
    let state = shared(4201);
    let devices = RwLock::new(DeviceSnapshot::new());
    let mut cycle = Broadcaster::start();
    let mut sent = Vec::new();
    for _ in 0..9 {
        match cycle.action() {
            Action::Snapshot => {
                let taken = {
                    let state = state.try_read().unwrap();
                    let devices = devices.try_read().unwrap();
                    Telemetry::snapshot(state.engine(), &devices)
                };
                cycle.advance(Some(taken));
            }
            Action::Emit(message) => {
                assert!(state.try_write().is_ok());
                assert!(devices.try_write().is_ok());
                sent.push(message);
                cycle.advance(None);
            }
            Action::Sleep { millis } => {
                assert_eq!(millis, 50);
                assert!(state.try_write().is_ok());
                cycle.advance(None);
            }
        }
    }
    let expected = Message::RobotStateUpdate {
        comms_alive: true,
        code_alive: true,
        simulator: false,
        joysticks: false,
        voltage: Voltage::from_bits(12.5f32.to_bits()),
    };
    assert_eq!(sent, vec![expected; 3]);
}

#[test]
fn command_is_applied_under_one_write_lock() {
    let state = shared(0);
    let update = {
        let mut writer = state.try_write().unwrap();
        writer.apply(Message::UpdateTeamNumber { team_number: 254, from_backend: false })
    };
    assert_eq!(update.unwrap().team_number, 254);
    assert_eq!(state.try_read().unwrap().team_number(), 254);
}
