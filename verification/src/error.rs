//! What can go wrong in the backend, and what each failure means for the
//! process.

use vstd::prelude::*;

verus! {

/// A failure the backend can meet.
#[derive(Clone, Copy, Debug, PartialEq, Eq, Structural)]
pub enum Failure {
    /// A thread ended while holding the state lock.
    LockPoisoned,
    /// A handshake channel closed before it delivered an endpoint.
    HandshakeClosed,
    /// The persisted configuration holds a value the backend cannot use.
    MalformedConfig,
    /// The operating system is one the backend does not run on.
    UnsupportedPlatform,
    /// The platform refused the global key hooks.
    KeyBindingFailed,
    /// No input device is attached.
    NoInputDevices,
    /// An inbound command carried a team number outside the protocol's bounds.
    InvalidTeamNumber,
    /// An inbound message is not a command the backend applies.
    NotACommand,
}

/// How far a failure reaches.
#[derive(Clone, Copy, Debug, PartialEq, Eq, Structural)]
pub enum Severity {
    /// The process stops.
    Fatal,
    /// The component that met it carries on.
    Recoverable,
    /// The process stops before any component is built.
    PlatformRejection,
}

impl Failure {
    /// The severity of each failure.
    pub open spec fn severity_of(self) -> Severity {
        match self {
            Failure::LockPoisoned => Severity::Fatal,
            Failure::HandshakeClosed => Severity::Fatal,
            Failure::MalformedConfig => Severity::Fatal,
            Failure::UnsupportedPlatform => Severity::PlatformRejection,
            Failure::KeyBindingFailed => Severity::Recoverable,
            Failure::NoInputDevices => Severity::Recoverable,
            Failure::InvalidTeamNumber => Severity::Recoverable,
            Failure::NotACommand => Severity::Recoverable,
        }
    }

    /// Classifies the failure.
    pub fn severity(&self) -> (s: Severity)
        ensures
            s == self.severity_of(),
    {
        match self {
            Failure::LockPoisoned | Failure::HandshakeClosed | Failure::MalformedConfig => {
                Severity::Fatal
            },
            Failure::UnsupportedPlatform => Severity::PlatformRejection,
            Failure::KeyBindingFailed
            | Failure::NoInputDevices
            | Failure::InvalidTeamNumber
            | Failure::NotACommand => Severity::Recoverable,
        }
    }

    /// Whether the process must stop: every failure that is not recoverable.
    pub fn terminates(&self) -> (t: bool)
        ensures
            t == (self.severity_of() != Severity::Recoverable),
    {
        match self.severity() {
            Severity::Recoverable => false,
            _ => true,
        }
    }

    /// Whether the user is told: exactly the failures that stop the process.
    /// Recoverable failures stay silent.
    pub fn user_visible(&self) -> (v: bool)
        ensures
            v == (self.severity_of() != Severity::Recoverable),
    {
        self.terminates()
    }
}

} // verus!
