//! The raw handler's decision: given the one required configuration
//! value and the invocation's context, either fail with a
//! configuration error — before any log line exists — or produce the
//! single diagnostic log line and the invocation's result.
//!
//! Reading the environment and writing the log line are the caller's
//! side effects; this module only decides what they carry.

use crate::error::InvocationError;
use vstd::prelude::*;
use vstd::string::*;

verus! {

/// The context the runtime supplies with one inbound event: the unique
/// request identifier and the identifier of the invoked function
/// resource.
pub struct InvocationContext {
    pub request_id: String,
    pub invoked_function_arn: String,
}

/// A successful raw invocation: the one diagnostic log line to write,
/// and the value to return to the runtime.
#[derive(Debug)]
pub struct RawInvocationOutcome {
    pub log_line: String,
    pub response: String,
}

/// The diagnostic log line: both context identifiers, verbatim, behind
/// their labels.
pub open spec fn log_line_spec(request_id: Seq<char>, function_arn: Seq<char>) -> Seq<char> {
    "AwsRequestId: "@ + request_id + ", InvokedFunctionArn: "@ + function_arn
}

/// Decides a raw invocation. `log_stream` is the required environment
/// value as the caller read it: absent means the invocation fails with
/// a configuration error and no log line is produced; present means
/// the invocation succeeds, its result is that value unchanged, and
/// the one log line carries both context identifiers verbatim.
pub fn handle_raw_invocation(log_stream: Option<String>, context: &InvocationContext) -> (r:
    Result<RawInvocationOutcome, InvocationError>)
    ensures
        r is Ok <==> log_stream is Some,
        log_stream matches Some(v) ==> (r matches Ok(o) && o.response@ == v@ && o.log_line@
            == log_line_spec(context.request_id@, context.invoked_function_arn@)),
        log_stream is None ==> (r matches Err(e) && e == InvocationError::Configuration),
{
    match log_stream {
        Option::None => Err(InvocationError::Configuration),
        Option::Some(value) => {
            let mut line: String = "AwsRequestId: ".to_owned();
            line.append(context.request_id.as_str());
            line.append(", InvokedFunctionArn: ");
            line.append(context.invoked_function_arn.as_str());
            Ok(RawInvocationOutcome { log_line: line, response: value })
        },
    }
}

/// Law: the log line contains the request identifier and the invoked
/// function identifier verbatim — each stands unaltered at a fixed
/// offset behind its label.
pub proof fn lemma_log_line_contains_context(request_id: Seq<char>, function_arn: Seq<char>)
    ensures
        log_line_spec(request_id, function_arn).len() == 36 + request_id.len()
            + function_arn.len(),
        log_line_spec(request_id, function_arn).subrange(14, 14 + request_id.len() as int)
            == request_id,
        log_line_spec(request_id, function_arn).subrange(
            36 + request_id.len() as int,
            36 + request_id.len() + function_arn.len() as int,
        ) == function_arn,
{
    reveal_strlit("AwsRequestId: ");
    reveal_strlit(", InvokedFunctionArn: ");
    let line = log_line_spec(request_id, function_arn);
    assert(line.subrange(14, 14 + request_id.len() as int) =~= request_id);
    assert(line.subrange(
        36 + request_id.len() as int,
        36 + request_id.len() + function_arn.len() as int,
    ) =~= function_arn);
}

} // verus!
