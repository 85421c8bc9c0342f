use ln_cmd::{exit_result, ExecutionResult, LaunchFailure, NO_EXIT_CODE};

#[test]
fn an_exit_code_is_the_result() {
    for code in [0, 1, 2, 127, 255, -1, -7, i32::MAX, i32::MIN] {
        let result: ExecutionResult<String> = exit_result(Ok(Some(code)));
        assert_eq!(result, Ok(code));
    }
}

#[test]
fn a_nonzero_exit_code_is_no_error() {
    let result: ExecutionResult<String> = exit_result(Ok(Some(1)));
    assert!(result.is_ok());
    assert_eq!(result, Ok(1));
}

#[test]
fn a_child_without_an_exit_code_gives_the_reserved_value() {
    let result: ExecutionResult<String> = exit_result(Ok(None));
    assert_eq!(result, Ok(-1));
    assert_eq!(NO_EXIT_CODE, -1);
    assert!(NO_EXIT_CODE < 0);
}

#[test]
fn a_launch_failure_carries_its_cause() {
    let result = exit_result(Err("No such file or directory (os error 2)".to_string()));
    assert_eq!(
        result,
        Err(LaunchFailure { cause: "No such file or directory (os error 2)".to_string() })
    );
    let result: ExecutionResult<i32> = exit_result(Err(13));
    assert_eq!(result, Err(LaunchFailure { cause: 13 }));
}

#[test]
fn a_launch_failure_is_never_an_exit_code() {
    for cause in [0, 1, -1, 2, 13] {
        let result: ExecutionResult<i32> = exit_result(Err(cause));
        assert!(result.is_err());
        assert_eq!(result.unwrap_err().cause, cause);
    }
}
