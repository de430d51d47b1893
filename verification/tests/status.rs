use service_manager::context::{ServiceError, ServiceStatus};
use service_manager::systemd::{check_exit, classify_lookup, interpret_status_exit, UtilityLookup};

#[test]
fn exit_zero_is_running() {
    let r = interpret_status_exit(Some(0), String::new());
    assert!(matches!(r, Ok(ServiceStatus::Running)));
}

#[test]
fn exit_three_is_stopped_without_reason() {
    let r = interpret_status_exit(Some(3), String::new());
    assert!(matches!(r, Ok(ServiceStatus::Stopped(None))));
}

#[test]
fn exit_four_is_not_installed() {
    let r = interpret_status_exit(Some(4), String::new());
    assert!(matches!(r, Ok(ServiceStatus::NotInstalled)));
}

#[test]
fn other_exit_carries_code_and_error_text() {
    let r = interpret_status_exit(Some(5), String::from("boom"));
    match r {
        Err(ServiceError::CommandFailed { code, message }) => {
            assert_eq!(code, 5);
            assert_eq!(message, "boom");
        }
        _ => panic!("expected a command failure"),
    }
}

#[test]
fn signal_exit_carries_minus_one() {
    let r = interpret_status_exit(None, String::from("killed"));
    match r {
        Err(ServiceError::CommandFailed { code, message }) => {
            assert_eq!(code, -1);
            assert_eq!(message, "killed");
        }
        _ => panic!("expected a command failure"),
    }
}

#[test]
fn check_exit_accepts_only_success() {
    assert!(matches!(check_exit(Some(0), String::new()), Ok(())));
    match check_exit(Some(1), String::from("denied")) {
        Err(ServiceError::CommandFailed { code, message }) => {
            assert_eq!(code, 1);
            assert_eq!(message, "denied");
        }
        _ => panic!("expected a command failure"),
    }
    assert!(matches!(
        check_exit(None, String::new()),
        Err(ServiceError::CommandFailed { code: -1, .. })
    ));
}

#[test]
fn command_failure_message_text() {
    let e = ServiceError::CommandFailed { code: 5, message: String::from("boom") };
    assert_eq!(e.message(), "Command failed with exit code 5: boom");
    let neg = ServiceError::CommandFailed { code: -1, message: String::from("gone") };
    assert_eq!(neg.message(), "Command failed with exit code -1: gone");
    let min = ServiceError::CommandFailed { code: i32::MIN, message: String::new() };
    assert_eq!(min.message(), "Command failed with exit code -2147483648: ");
}

#[test]
fn missing_config_dir_message_text() {
    let e = ServiceError::UserConfigDirNotFound;
    assert_eq!(e.message(), "Unable to locate home directory");
}

#[test]
fn lookup_message_text() {
    let e = ServiceError::LookupFailed(String::from("no search path"));
    assert_eq!(e.message(), "Failed to resolve the control utility: no search path");
}

#[test]
fn lookup_outcomes_classify_as_available() {
    assert!(matches!(
        classify_lookup(UtilityLookup::Found(String::from("/usr/bin/systemctl"))),
        Ok(true)
    ));
    assert!(matches!(classify_lookup(UtilityLookup::NotFound), Ok(false)));
    match classify_lookup(UtilityLookup::Failed(String::from("bad path list"))) {
        Err(ServiceError::LookupFailed(msg)) => assert_eq!(msg, "bad path list"),
        _ => panic!("expected a lookup failure"),
    }
}
