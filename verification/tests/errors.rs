use file_session::CommandError;

#[test]
fn read_failure_message_includes_the_cause() {
    let error = CommandError::read_failure("No such file or directory (os error 2)");
    assert_eq!(
        error,
        CommandError::FileAccess {
            message: "Failed to read file: No such file or directory (os error 2)".to_string(),
        }
    );
    assert_eq!(
        error.message(),
        "Failed to read file: No such file or directory (os error 2)"
    );
}

#[test]
fn read_failure_with_empty_cause() {
    assert_eq!(CommandError::read_failure("").message(), "Failed to read file: ");
}

#[test]
fn read_failure_keeps_non_ascii_cause() {
    assert_eq!(
        CommandError::read_failure("stream did not contain valid UTF-8 \u{fffd}").message(),
        "Failed to read file: stream did not contain valid UTF-8 \u{fffd}"
    );
}

#[test]
fn dialog_unavailable_message() {
    assert_eq!(CommandError::DialogUnavailable.message(), "File dialog is unavailable");
}
