use process_control::terminate::{
    judge_termination, process_group_of, termination_message, uses_process_groups, Platform,
    TerminationError, EPERM, ESRCH,
};

#[test]
fn accepted_request_is_no_error() {
    assert_eq!(judge_termination(Platform::Posix, None), Ok(()));
    assert_eq!(judge_termination(Platform::MacOs, None), Ok(()));
    assert_eq!(judge_termination(Platform::Native, None), Ok(()));
}

#[test]
fn no_such_process_is_the_benign_race() {
    assert_eq!(ESRCH, 3);
    assert_eq!(judge_termination(Platform::Posix, Some(ESRCH)), Ok(()));
    assert_eq!(judge_termination(Platform::MacOs, Some(ESRCH)), Ok(()));
}

#[test]
fn refused_permission_is_forgiven_on_macos_only() {
    assert_eq!(EPERM, 1);
    assert_eq!(judge_termination(Platform::MacOs, Some(EPERM)), Ok(()));
    assert_eq!(
        judge_termination(Platform::Posix, Some(EPERM)),
        Err(TerminationError { errno: EPERM })
    );
}

#[test]
fn other_failures_are_errors() {
    assert_eq!(
        judge_termination(Platform::Posix, Some(22)),
        Err(TerminationError { errno: 22 })
    );
    assert_eq!(
        judge_termination(Platform::MacOs, Some(22)),
        Err(TerminationError { errno: 22 })
    );
    assert_eq!(
        judge_termination(Platform::Native, Some(ESRCH)),
        Err(TerminationError { errno: ESRCH })
    );
    assert_eq!(
        judge_termination(Platform::Native, Some(5)),
        Err(TerminationError { errno: 5 })
    );
}

#[test]
fn error_numbers_are_those_of_the_system() {
    assert_eq!(ESRCH, nix::errno::Errno::ESRCH as i32);
    assert_eq!(EPERM, nix::errno::Errno::EPERM as i32);
}

#[test]
fn process_groups_exist_where_signals_do() {
    assert!(uses_process_groups(Platform::Posix));
    assert!(uses_process_groups(Platform::MacOs));
    assert!(!uses_process_groups(Platform::Native));
}

#[test]
fn process_group_id_is_the_process_id() {
    assert_eq!(process_group_of(0), Some(0));
    assert_eq!(process_group_of(4321), Some(4321));
    assert_eq!(process_group_of(i32::MAX as u32), Some(i32::MAX));
    assert_eq!(process_group_of(i32::MAX as u32 + 1), None);
    assert_eq!(process_group_of(u32::MAX), None);
}

#[test]
fn message_opens_with_fixed_words() {
    assert_eq!(
        termination_message("EINVAL: Invalid argument"),
        "failed to terminate child: EINVAL: Invalid argument"
    );
    assert_eq!(termination_message(""), "failed to terminate child: ");
}

#[test]
fn message_describes_the_error_number() {
    let expected = format!("failed to terminate child: {}", nix::errno::Errno::EPERM);
    assert_eq!(TerminationError { errno: EPERM }.message(), expected);
    let expected = format!("failed to terminate child: {}", nix::errno::Errno::EINVAL);
    assert_eq!(TerminationError { errno: nix::errno::Errno::EINVAL as i32 }.message(), expected);
    assert!(TerminationError { errno: 13 }
        .message()
        .starts_with("failed to terminate child: "));
    assert_ne!(
        TerminationError { errno: 13 }.message(),
        TerminationError { errno: 22 }.message()
    );
}
