use devbridge::port_watch::{list_ports, port_allowed, Platform};
use devbridge::session::{
    open_action, resolve_open, AttemptOutcome, OpenAction, RETRY_SETTLE_MS,
};

fn ports(list: &[&str]) -> Vec<String> {
    list.iter().map(|s| s.to_string()).collect()
}

#[test]
fn linux_filter_keeps_usb_serial_paths() {
    let kept = list_ports(
        ports(&[
            "/dev/ttyUSB0",
            "/dev/ttyS0",
            "/dev/ttyACM3",
            "/dev/tty.usbserial",
        ]),
        Platform::Linux,
    );
    assert_eq!(kept, ports(&["/dev/ttyUSB0", "/dev/ttyACM3"]));
}

#[test]
fn macos_filter_keeps_usb_callup_paths() {
    let kept = list_ports(
        ports(&["/dev/cu.usbserial-1410", "/dev/cu.Bluetooth", "/dev/ttyUSB0"]),
        Platform::MacOs,
    );
    assert_eq!(kept, ports(&["/dev/cu.usbserial-1410"]));
}

#[test]
fn other_platforms_pass_everything_through() {
    let all = ports(&["COM1", "COM7"]);
    let kept = list_ports(all.clone(), Platform::Other);
    assert_eq!(kept, all);
}

#[test]
fn port_allow_list_is_a_prefix_rule() {
    assert!(port_allowed(&"/dev/ttyUSB9".to_string(), Platform::Linux));
    assert!(!port_allowed(&"/dev/ttyUSB".to_string(), Platform::MacOs));
    assert!(port_allowed(&"anything".to_string(), Platform::Other));
}

#[test]
fn access_denied_triggers_the_single_retry() {
    assert!(open_action(&AttemptOutcome::AccessDenied) == OpenAction::KillDaemonAndRetry);
}

#[test]
fn success_and_other_failures_are_not_retried() {
    assert!(open_action(&AttemptOutcome::Opened) == OpenAction::UseSession);
    let failed = AttemptOutcome::Failed {
        message: "broken pipe".to_string(),
    };
    assert!(open_action(&failed) == OpenAction::Propagate);
}

#[test]
fn resolve_surfaces_first_outcome_without_retry() {
    let outcome = resolve_open(AttemptOutcome::Opened, None);
    assert!(matches!(outcome, AttemptOutcome::Opened));
    let outcome = resolve_open(
        AttemptOutcome::Failed {
            message: "timeout".to_string(),
        },
        None,
    );
    match outcome {
        AttemptOutcome::Failed { message } => assert_eq!(message, "timeout"),
        other => panic!("expected the first failure unchanged, got {:?}", other),
    }
}

#[test]
fn resolve_surfaces_retry_outcome_after_access_denied() {
    let outcome = resolve_open(AttemptOutcome::AccessDenied, Some(AttemptOutcome::Opened));
    assert!(matches!(outcome, AttemptOutcome::Opened));
    let outcome = resolve_open(
        AttemptOutcome::AccessDenied,
        Some(AttemptOutcome::AccessDenied),
    );
    assert!(matches!(outcome, AttemptOutcome::AccessDenied));
}

#[test]
fn settle_delay_is_half_a_second() {
    assert_eq!(RETRY_SETTLE_MS, 500);
}
