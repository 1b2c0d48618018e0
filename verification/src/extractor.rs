//! The JSON body extractor, and what it answers when a body is refused.

use crate::error::ErrorReply;
use vstd::prelude::*;

verus! {

/// A request body read as JSON into a `T`.
pub struct JsonExtractor<T>(pub T);

/// Why a JSON body was refused.
#[derive(Debug, Clone, Copy, PartialEq, Eq)]
pub enum JsonRejectionKind {
    /// The body is JSON but does not fit the expected shape.
    JsonDataError,
    /// The request does not say that its body is JSON.
    MissingJsonContentType,
    /// Any other reason.
    Other,
}

/// The answer to a refused body, given the refusal's own description.
pub open spec fn rejection_reply_spec(kind: JsonRejectionKind, detail: Seq<char>) -> (u16, Seq<char>) {
    match kind {
        JsonRejectionKind::JsonDataError => (400, "Invalid JSON request: "@ + detail),
        JsonRejectionKind::MissingJsonContentType => (400, detail),
        JsonRejectionKind::Other => (500, "Unknown internal error: "@ + detail),
    }
}

/// Answers a refused body: 400 when the JSON does not fit or the content
/// type is missing, 500 for any other refusal. `detail` is the refusal's
/// own description; the answer's JSON body holds only `"error"`.
pub fn rejection_reply(kind: JsonRejectionKind, detail: &str) -> (reply: ErrorReply)
    ensures
        (reply.code, reply.error@) == rejection_reply_spec(kind, detail@),
        kind is JsonDataError ==> reply.code == 400 && reply.error@ == "Invalid JSON request: "@
            + detail@,
        kind is MissingJsonContentType ==> reply.code == 400 && reply.error@ == detail@,
        kind is Other ==> reply.code == 500 && reply.error@ == "Unknown internal error: "@
            + detail@,
{
    match kind {
        JsonRejectionKind::JsonDataError => {
            let mut error = String::from_str("Invalid JSON request: ");
            error.append(detail);
            ErrorReply { code: 400, error }
        },
        JsonRejectionKind::MissingJsonContentType => ErrorReply {
            code: 400,
            error: String::from_str(detail),
        },
        JsonRejectionKind::Other => {
            let mut error = String::from_str("Unknown internal error: ");
            error.append(detail);
            ErrorReply { code: 500, error }
        },
    }
}

} // verus!
