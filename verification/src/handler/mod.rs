//! What the alert endpoints answer.

pub mod response;

use crate::domain::seatalk::schema::SeatalkResponse;
use crate::error::AppError;
use response::Response;
use vstd::prelude::*;

verus! {

/// Concludes the delivery of an alert from what sending it gave: the
/// success answer when Seatalk took the message, the failure otherwise.
pub fn conclude_delivery(sent: Result<SeatalkResponse, AppError>) -> (answer: Result<
    Response,
    AppError,
>)
    ensures
        match sent {
            Err(e) => answer == Err::<Response, AppError>(e),
            Ok(data) => if data.code > 0 {
                answer == Err::<Response, AppError>(AppError::SeatalkError(data))
            } else {
                answer matches Ok(r) && r.is_success_answer() && r.spec_api_version() == "v1"@
                    && r.spec_success()
            },
        },
{
    match sent {
        Err(e) => Err(e),
        Ok(data) => {
            if data.error_check() {
                Err(AppError::SeatalkError(data))
            } else {
                Ok(Response::default())
            }
        },
    }
}

} // verus!
