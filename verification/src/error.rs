//! What goes wrong, and what the service answers then.

use crate::domain::seatalk::schema::SeatalkResponse;
use vstd::prelude::*;

verus! {

#[verifier::external_type_specification]
#[verifier::external_body]
pub struct ExRequestError(reqwest::Error);

/// A failure to deliver an alert.
#[derive(Debug)]
pub enum AppError {
    /// The request to Seatalk could not be made or its answer not read.
    RequestError(reqwest::Error),
    /// Seatalk answered with an error.
    SeatalkError(SeatalkResponse),
}

impl From<reqwest::Error> for AppError {
    fn from(inner: reqwest::Error) -> (e: AppError) {
        AppError::RequestError(inner)
    }
}

impl vstd::std_specs::convert::FromSpecImpl<reqwest::Error> for AppError {
    open spec fn obeys_from_spec() -> bool {
        true
    }

    open spec fn from_spec(inner: reqwest::Error) -> AppError {
        AppError::RequestError(inner)
    }
}

impl From<SeatalkResponse> for AppError {
    fn from(inner: SeatalkResponse) -> (e: AppError) {
        AppError::SeatalkError(inner)
    }
}

impl vstd::std_specs::convert::FromSpecImpl<SeatalkResponse> for AppError {
    open spec fn obeys_from_spec() -> bool {
        true
    }

    open spec fn from_spec(inner: SeatalkResponse) -> AppError {
        AppError::SeatalkError(inner)
    }
}

/// An error answer: the HTTP status code, which the JSON body repeats as
/// `"code"`, and the message given as `"error"`.
#[derive(Debug, Clone, PartialEq)]
pub struct ErrorReply {
    pub code: u16,
    pub error: String,
}

/// The message given for a failure to deliver an alert.
pub open spec fn app_error_message(e: AppError) -> Seq<char> {
    match e {
        AppError::SeatalkError(response) => response.msg@,
        AppError::RequestError(_) => "Request to seatalk api is failed."@,
    }
}

impl AppError {
    /// The answer to a failed delivery: status 500 with Seatalk's own
    /// message, or a fixed message when Seatalk could not be reached.
    pub fn reply(&self) -> (reply: ErrorReply)
        ensures
            reply.code == 500,
            reply.error@ == app_error_message(*self),
            self matches AppError::SeatalkError(response) ==> reply.error@ == response.msg@,
            self is RequestError ==> reply.error@ == "Request to seatalk api is failed."@,
    {
        match self {
            AppError::SeatalkError(response) => ErrorReply {
                code: 500,
                error: response.msg.clone(),
            },
            AppError::RequestError(_) => ErrorReply {
                code: 500,
                error: String::from_str("Request to seatalk api is failed."),
            },
        }
    }
}

/// Why the middleware stack gave up on a request.
#[derive(Debug, Clone, Copy, PartialEq, Eq)]
pub enum ServiceFailure {
    /// The request took longer than the configured timeout.
    TimedOut,
    /// The service shed the request because it was overloaded.
    Overloaded,
    /// Any other failure.
    Unhandled,
}

/// The answer to a request that the middleware stack gave up on.
pub open spec fn failure_reply(failure: ServiceFailure) -> (u16, Seq<char>) {
    match failure {
        ServiceFailure::TimedOut => (408, "Uhh ohh, request time out"@),
        ServiceFailure::Overloaded => (503, "Uhh ohh, service unavailable"@),
        ServiceFailure::Unhandled => (500, "Uhh ohh, unhandled internal error"@),
    }
}

/// Answers a request that the middleware stack gave up on: 408 when it
/// timed out, 503 when the service was overloaded, 500 otherwise.
pub fn handle_error(failure: ServiceFailure) -> (reply: ErrorReply)
    ensures
        (reply.code, reply.error@) == failure_reply(failure),
        failure is TimedOut ==> reply.code == 408 && reply.error@ == "Uhh ohh, request time out"@,
        failure is Overloaded ==> reply.code == 503 && reply.error@
            == "Uhh ohh, service unavailable"@,
        failure is Unhandled ==> reply.code == 500 && reply.error@
            == "Uhh ohh, unhandled internal error"@,
{
    match failure {
        ServiceFailure::TimedOut => ErrorReply {
            code: 408,
            error: String::from_str("Uhh ohh, request time out"),
        },
        ServiceFailure::Overloaded => ErrorReply {
            code: 503,
            error: String::from_str("Uhh ohh, service unavailable"),
        },
        ServiceFailure::Unhandled => ErrorReply {
            code: 500,
            error: String::from_str("Uhh ohh, unhandled internal error"),
        },
    }
}

/// The answer to a request or response body that could not be read:
/// 400, naming the direction (`"request"` or `"response"`) and the reason.
pub fn body_read_failure(direction: &str, reason: &str) -> (reply: ErrorReply)
    ensures
        reply.code == 400,
        reply.error@ == "failed to read "@ + direction@ + " body: "@ + reason@,
{
    let mut error = String::from_str("failed to read ");
    error.append(direction);
    error.append(" body: ");
    error.append(reason);
    ErrorReply { code: 400, error }
}

} // verus!
