use owasu::domain::seatalk::schema::SeatalkResponse;
use owasu::error::{body_read_failure, handle_error, AppError, ErrorReply, ServiceFailure};
use owasu::extractor::{rejection_reply, JsonExtractor, JsonRejectionKind};
use owasu::handler::conclude_delivery;
use owasu::handler::response::Response;

fn reply(code: u16, error: &str) -> ErrorReply {
    ErrorReply { code, error: error.to_string() }
}

#[test]
fn success_answer() {
    let r = Response::default();
    assert_eq!(r.api_version(), "v1");
    assert!(r.success());
}

#[test]
fn delivery_accepted_by_seatalk() {
    let answer = conclude_delivery(Ok(SeatalkResponse { code: 0, msg: String::new() }));
    let r = answer.expect("delivery should succeed");
    assert_eq!(r.api_version(), "v1");
    assert!(r.success());
}

#[test]
fn delivery_refused_by_seatalk() {
    let answer = conclude_delivery(Ok(SeatalkResponse { code: 3, msg: "bad group".to_string() }));
    match answer {
        Err(AppError::SeatalkError(data)) => {
            assert_eq!(data.code, 3);
            assert_eq!(data.msg, "bad group");
        }
        _ => panic!("expected a Seatalk error"),
    }
}

#[test]
fn delivery_error_is_passed_on() {
    let failed: Result<SeatalkResponse, AppError> =
        Err(AppError::from(SeatalkResponse { code: 9, msg: "x".to_string() }));
    match conclude_delivery(failed) {
        Err(AppError::SeatalkError(data)) => assert_eq!(data.code, 9),
        _ => panic!("expected the same error"),
    }
}

#[test]
fn seatalk_error_reply() {
    let e = AppError::SeatalkError(SeatalkResponse { code: 3, msg: "bad group".to_string() });
    assert_eq!(e.reply(), reply(500, "bad group"));
}

#[test]
fn timeout_reply() {
    assert_eq!(handle_error(ServiceFailure::TimedOut), reply(408, "Uhh ohh, request time out"));
}

#[test]
fn overload_reply() {
    assert_eq!(
        handle_error(ServiceFailure::Overloaded),
        reply(503, "Uhh ohh, service unavailable")
    );
}

#[test]
fn unhandled_reply() {
    assert_eq!(
        handle_error(ServiceFailure::Unhandled),
        reply(500, "Uhh ohh, unhandled internal error")
    );
}

#[test]
fn json_data_error_reply() {
    assert_eq!(
        rejection_reply(JsonRejectionKind::JsonDataError, "missing field `msg`"),
        reply(400, "Invalid JSON request: missing field `msg`")
    );
}

#[test]
fn missing_content_type_reply() {
    assert_eq!(
        rejection_reply(JsonRejectionKind::MissingJsonContentType, "Expected request with `Content-Type: application/json`"),
        reply(400, "Expected request with `Content-Type: application/json`")
    );
}

#[test]
fn other_rejection_reply() {
    assert_eq!(
        rejection_reply(JsonRejectionKind::Other, "body too large"),
        reply(500, "Unknown internal error: body too large")
    );
}

#[test]
fn json_extractor_holds_its_value() {
    let JsonExtractor(inner) = JsonExtractor(5u8);
    assert_eq!(inner, 5);
}

#[test]
fn unreadable_body_reply() {
    assert_eq!(
        body_read_failure("request", "connection reset"),
        reply(400, "failed to read request body: connection reset")
    );
}
