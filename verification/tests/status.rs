use process_control::status::{ExitReport, ProcessStatus};

fn exited(code: i32) -> ExitReport {
    ExitReport { code: Some(code), signal: None }
}

#[test]
fn exit_code_zero_is_success() {
    assert_eq!(ProcessStatus::from_exit(exited(0)), ProcessStatus::Success);
}

#[test]
fn every_small_exit_code_is_success_or_its_own_failure() {
    for code in 0..=255 {
        let status = ProcessStatus::from_exit(exited(code));
        if code == 0 {
            assert_eq!(status, ProcessStatus::Success);
        } else {
            assert_eq!(status, ProcessStatus::Failure(code as u32));
        }
    }
}

#[test]
fn negative_exit_code_keeps_its_bits() {
    assert_eq!(ProcessStatus::from_exit(exited(-1)), ProcessStatus::Failure(u32::MAX));
}

#[test]
fn signal_number_is_kept() {
    let report = ExitReport { code: None, signal: Some(15) };
    assert_eq!(ProcessStatus::from_exit(report), ProcessStatus::Signalled(15));
    let report = ExitReport { code: None, signal: Some(9) };
    assert_eq!(ProcessStatus::from_exit(report), ProcessStatus::Signalled(9));
}

#[test]
fn exit_code_comes_before_signal() {
    let report = ExitReport { code: Some(3), signal: Some(15) };
    assert_eq!(ProcessStatus::from_exit(report), ProcessStatus::Failure(3));
}

#[test]
fn neither_code_nor_signal_is_other() {
    let report = ExitReport { code: None, signal: None };
    assert_eq!(ProcessStatus::from_exit(report), ProcessStatus::Other);
}

#[test]
fn status_predicates() {
    assert!(ProcessStatus::Success.is_success());
    assert!(!ProcessStatus::Failure(1).is_success());
    assert!(!ProcessStatus::Timeout.is_success());
    assert!(ProcessStatus::Timeout.is_timeout());
    assert!(!ProcessStatus::Success.is_timeout());
    assert!(!ProcessStatus::Other.is_timeout());
    assert!(ProcessStatus::Failure(2).is_failure());
    assert!(ProcessStatus::Failure(0).is_failure());
    assert!(!ProcessStatus::Success.is_failure());
    assert!(!ProcessStatus::Signalled(9).is_failure());
    assert!(!ProcessStatus::Timeout.is_failure());
    assert!(!ProcessStatus::Other.is_failure());
}
