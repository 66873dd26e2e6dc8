use waitexec::decimal::u64_to_decimal;
use waitexec::error::AppError;
use waitexec::plan::{plan, plan_at_now, progress_message};
use waitexec::TimeOfDay;

fn args_of(words: &[&str]) -> Vec<String> {
    words.iter().map(|w| w.to_string()).collect()
}

fn noon() -> TimeOfDay {
    TimeOfDay { hour: 12, minute: 0, second: 0 }
}

#[test]
fn too_few_arguments_is_usage_error() {
    let args = args_of(&["prog", "10:00"]);
    let r = plan(&args, &noon());
    assert_eq!(r, Err(AppError::UsageError));
    assert_eq!(AppError::UsageError.exit_code(), 1);
}

#[test]
fn malformed_time_is_invalid_format() {
    let args = args_of(&["prog", "10:99", "echo"]);
    let r = plan(&args, &noon());
    assert_eq!(r, Err(AppError::InvalidTimeFormat));
    assert_eq!(AppError::InvalidTimeFormat.exit_code(), 2);
}

#[test]
fn nul_in_token_is_encoding_error() {
    // The tokens are validated while planning, before any wait begins.
    let args = args_of(&["prog", "+00:00:05", "e\0cho"]);
    let r = plan(&args, &noon());
    assert_eq!(r, Err(AppError::EncodingError));
    assert_eq!(AppError::EncodingError.exit_code(), 255);
}

#[test]
fn nul_in_later_token_is_encoding_error() {
    let args = args_of(&["prog", "+00:00:05", "echo", "a\0b"]);
    assert_eq!(plan(&args, &noon()), Err(AppError::EncodingError));
}

#[test]
fn relative_plan_is_exact() {
    let args = args_of(&["prog", "+00:01:40", "echo", "hi"]);
    assert_eq!(plan(&args, &noon()), Ok(100));
}

#[test]
fn absolute_plan_uses_now() {
    let args = args_of(&["prog", "13:00", "echo"]);
    assert_eq!(plan(&args, &noon()), Ok(3600));
    let args = args_of(&["prog", "11:00", "echo"]);
    assert_eq!(plan(&args, &noon()), Ok(23 * 3600));
}

#[test]
fn plan_at_now_relative() {
    let args = args_of(&["prog", "+00:00:05", "echo"]);
    assert_eq!(plan_at_now(&args), Ok(5));
}

#[test]
fn plan_at_now_absolute_is_bounded() {
    // Whatever the clock says, an absolute target waits at least one
    // second and at most a full day.
    let args = args_of(&["prog", "10:00", "echo"]);
    match plan_at_now(&args) {
        Ok(w) => assert!(1 <= w && w <= 86400),
        Err(e) => panic!("unexpected error: {:?}", e),
    }
}

#[test]
fn plan_at_now_reports_errors() {
    assert_eq!(plan_at_now(&args_of(&["prog", "10:00"])), Err(AppError::UsageError));
    assert_eq!(plan_at_now(&args_of(&["prog", "x", "echo"])), Err(AppError::InvalidTimeFormat));
}

#[test]
fn exec_error_exit_code() {
    assert_eq!(AppError::ExecError.exit_code(), 3);
}

#[test]
fn short_wait_is_silent() {
    assert_eq!(progress_message(0), None);
    assert_eq!(progress_message(59), None);
}

#[test]
fn minute_wait_is_announced() {
    assert_eq!(progress_message(60), Some("Waiting for 60 seconds".to_string()));
    assert_eq!(progress_message(86400), Some("Waiting for 86400 seconds".to_string()));
}

#[test]
fn decimal_writing() {
    assert_eq!(u64_to_decimal(0), "0");
    assert_eq!(u64_to_decimal(7), "7");
    assert_eq!(u64_to_decimal(60), "60");
    assert_eq!(u64_to_decimal(12345), "12345");
    assert_eq!(u64_to_decimal(u64::MAX), "18446744073709551615");
}

#[test]
fn error_messages() {
    assert_eq!(
        AppError::UsageError.message("prog"),
        "Usage: prog [+]<HH:MM[:SS]> <command...>"
    );
    assert_eq!(AppError::InvalidTimeFormat.message("prog"), "Invalid time format");
    assert_eq!(AppError::ExecError.message("prog"), "execvp() failed");
    assert_eq!(AppError::EncodingError.message("prog"), "CString::new failed");
}
