use conductor::error::{Failure, Severity};

#[test]
fn fatal_failures_stop_the_process_and_are_shown() {
    for failure in [Failure::LockPoisoned, Failure::HandshakeClosed, Failure::MalformedConfig] {
        assert_eq!(failure.severity(), Severity::Fatal);
        assert!(failure.terminates());
        assert!(failure.user_visible());
    }
}

#[test]
fn recoverable_failures_are_silent() {
    for failure in [
        Failure::KeyBindingFailed,
        Failure::NoInputDevices,
        Failure::InvalidTeamNumber,
        Failure::NotACommand,
    ] {
        assert_eq!(failure.severity(), Severity::Recoverable);
        assert!(!failure.terminates());
        assert!(!failure.user_visible());
    }
}

#[test]
fn unsupported_platform_is_a_rejection_the_user_sees() {
    assert_eq!(Failure::UnsupportedPlatform.severity(), Severity::PlatformRejection);
    assert!(Failure::UnsupportedPlatform.terminates());
    assert!(Failure::UnsupportedPlatform.user_visible());
}
