use lambda_handlers::error::InvocationError;
use lambda_handlers::invocation::{handle_raw_invocation, InvocationContext};

fn context() -> InvocationContext {
    InvocationContext {
        request_id: String::from("abc"),
        invoked_function_arn: String::from("arn:x"),
    }
}

#[test]
fn missing_environment_value_is_a_configuration_error() {
    let result = handle_raw_invocation(None, &context());
    assert_eq!(result.unwrap_err(), InvocationError::Configuration);
}

#[test]
fn present_environment_value_is_returned_unchanged() {
    let result = handle_raw_invocation(Some(String::from("stream-17")), &context());
    let outcome = result.unwrap();
    assert_eq!(outcome.response, "stream-17");
}

#[test]
fn log_line_contains_request_id_and_function_arn_verbatim() {
    let result = handle_raw_invocation(Some(String::from("s")), &context());
    let outcome = result.unwrap();
    assert_eq!(outcome.log_line, "AwsRequestId: abc, InvokedFunctionArn: arn:x");
    assert!(outcome.log_line.contains("abc"));
    assert!(outcome.log_line.contains("arn:x"));
}
