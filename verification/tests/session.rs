use nethex::hexcode::DecodeError;
use nethex::session::{
    exit_code, select_source, Ending, SourceKind, POLL_TIMEOUT_MILLIS, QUEUE_CAPACITY,
};

#[test]
fn the_literal_goes_before_the_file_and_the_file_before_stdin() {
    assert_eq!(select_source(true, false, false), SourceKind::Literal);
    assert_eq!(select_source(false, true, false), SourceKind::File);
    assert_eq!(select_source(false, false, true), SourceKind::Stdin);
    assert_eq!(select_source(true, true, true), SourceKind::Literal);
    assert_eq!(select_source(true, true, false), SourceKind::Literal);
    assert_eq!(select_source(true, false, true), SourceKind::Literal);
    assert_eq!(select_source(false, true, true), SourceKind::File);
}

#[test]
fn no_source_is_a_receive_only_run() {
    assert_eq!(select_source(false, false, false), SourceKind::Silent);
}

#[test]
fn exit_codes_tell_success_from_failure() {
    assert_eq!(exit_code(&Ending::Completed), 0);
    assert_eq!(exit_code(&Ending::TimedOut), 0);
    assert_eq!(exit_code(&Ending::Listed), 0);
    assert_eq!(exit_code(&Ending::MalformedInput(DecodeError::OddLength)), 1);
    assert_eq!(
        exit_code(&Ending::MalformedInput(DecodeError::InvalidDigit { c: 'x', index: 1 })),
        1
    );
    assert_eq!(exit_code(&Ending::InvalidFilter), 1);
    assert_eq!(exit_code(&Ending::LinkFailure), 1);
    assert_eq!(exit_code(&Ending::UnknownInterface), 1);
}

#[test]
fn the_queue_holds_256_frames_and_a_poll_waits_10_ms() {
    assert_eq!(QUEUE_CAPACITY, 256);
    assert_eq!(POLL_TIMEOUT_MILLIS, 10);
}
