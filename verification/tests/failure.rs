use task_facade::task::failure::join_result;
use task_facade::task::JoinFailure;
use task_facade::task::NativeFailure;
use task_facade::Runtime;

fn native(cancelled: bool, text: &str) -> NativeFailure {
    NativeFailure { cancelled, text: text.to_string() }
}

#[test]
fn a_cancellation_is_normalized_to_cancelled() {
    let error = JoinFailure::normalize(Runtime::Tokio, native(true, "task 12 was cancelled"));
    assert!(error.is_cancelled());
    assert!(!error.is_panic());
    assert_eq!(error.diagnostic(), None);
    assert_eq!(error.message(), "task was cancelled");
}

#[test]
fn a_cancellation_keeps_no_engine_text() {
    let first = JoinFailure::normalize(Runtime::Tokio, native(true, "task 1 was cancelled"));
    let second = JoinFailure::normalize(Runtime::Tokio, native(true, "task 2 was cancelled"));
    assert_eq!(first, second);
}

#[test]
fn a_panic_keeps_the_engine_text_as_its_diagnostic() {
    let text = "task 3 panicked with message \"boom\"";
    let error = JoinFailure::normalize(Runtime::Tokio, native(false, text));
    assert!(error.is_panic());
    assert!(!error.is_cancelled());
    assert_eq!(error.diagnostic(), Some(text.to_string()));
    assert_eq!(error.message(), text);
}

#[test]
fn a_panic_without_text_still_has_a_diagnostic() {
    let error = JoinFailure::normalize(Runtime::Tokio, native(false, ""));
    assert!(error.is_panic());
    assert_eq!(error.diagnostic(), Some("task panicked".to_string()));
    assert_eq!(error.message(), "task panicked");
}

#[test]
fn panics_with_different_text_are_different_failures() {
    let first = JoinFailure::normalize(Runtime::Tokio, native(false, "first"));
    let second = JoinFailure::normalize(Runtime::Tokio, native(false, "second"));
    assert_ne!(first, second);
}

#[test]
fn a_value_is_joined_unchanged_on_every_engine() {
    assert_eq!(join_result(Runtime::Tokio, Ok(5u32)), Ok(5));
    assert_eq!(join_result(Runtime::AsyncStd, Ok(5u32)), Ok(5));
    assert_eq!(join_result(Runtime::Smol, Ok(5u32)), Ok(5));
}

#[test]
fn a_join_without_structured_failure_never_fails() {
    for engine in [Runtime::AsyncStd, Runtime::Smol] {
        assert!(!engine.has_structured_failure());
        for value in [0i64, -1, i64::MAX] {
            assert!(join_result(engine, Ok(value)).is_ok());
        }
    }
}

#[test]
fn a_native_failure_is_joined_as_its_normalized_failure() {
    let joined: Result<u8, JoinFailure> = join_result(Runtime::Tokio, Err(native(false, "boom")));
    assert_eq!(joined, Err(JoinFailure::normalize(Runtime::Tokio, native(false, "boom"))));
    let cancelled: Result<u8, JoinFailure> = join_result(Runtime::Tokio, Err(native(true, "gone")));
    assert!(cancelled.unwrap_err().is_cancelled());
}
