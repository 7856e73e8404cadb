use ulexec::outcome::{exit_code, LaunchOutcome, EXIT_FAILURE, EXIT_SUCCESS};

#[test]
fn the_codes_are_zero_and_one() {
    assert_eq!(EXIT_SUCCESS, 0);
    assert_eq!(EXIT_FAILURE, 1);
}

#[test]
fn the_code_of_the_payload_is_passed_on() {
    assert_eq!(exit_code(LaunchOutcome::Exited(0)), 0);
    assert_eq!(exit_code(LaunchOutcome::Exited(42)), 42);
    assert_eq!(exit_code(LaunchOutcome::Exited(1)), 1);
    assert_eq!(exit_code(LaunchOutcome::Exited(-1)), -1);
    assert_eq!(exit_code(LaunchOutcome::Exited(255)), 255);
}

#[test]
fn a_failed_launch_exits_with_one() {
    assert_eq!(exit_code(LaunchOutcome::Failed), 1);
}
