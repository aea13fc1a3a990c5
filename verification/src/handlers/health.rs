use vstd::prelude::*;
use crate::http::Status;

verus! {

/// The answer of the liveness check.
#[derive(Debug)]
pub struct PingResponse {
    pub message: String,
}

/// Answers the liveness check: always 200 with the message `pong`.
pub fn ping() -> (reply: (Status, PingResponse))
    ensures
        reply.0 == Status::Success,
        reply.1.message@ == "pong"@,
{
    (Status::Success, PingResponse { message: String::from_str("pong") })
}

} // verus!
