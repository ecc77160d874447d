//! Request and response payloads of the workout endpoint, and how one
//! exchange with it becomes an outcome for the session.

use vstd::prelude::*;
use vstd::string::StringExecFns;
use crate::duration::{decimal, push_decimal};

verus! {

/// A request to the endpoint. Absent fields are left out on the wire.
pub struct ApiRequest {
    pub user_id: String,
    pub workout_type: Option<i32>,
    /// Whole seconds.
    pub planned_time: Option<i64>,
    /// Whole seconds.
    pub actual_time: Option<i64>,
    pub workout_date: Option<String>,
}

/// The interval that the server hands out.
pub struct Workout {
    pub user_id: Option<String>,
    /// Planned length in milliseconds.
    pub planned_time: Option<u64>,
    pub workout_type: Option<i32>,
}

/// Historical aggregates; durations in milliseconds.
pub struct Stats {
    pub total_runs: Option<u64>,
    pub work_count: Option<u64>,
    pub pause_count: Option<u64>,
}

/// A decoded response; every section may be missing.
pub struct ApiResponse {
    pub workout: Option<Workout>,
    pub stats: Option<Stats>,
    /// Alternating work and break durations of the current run, in milliseconds.
    pub workouts: Option<Vec<u64>>,
}

impl ApiResponse {
    /// A response with no section.
    pub fn empty() -> (r: ApiResponse)
        ensures
            r.workout is None,
            r.stats is None,
            r.workouts is None,
    {
        ApiResponse { workout: None, stats: None, workouts: None }
    }
}

/// What one request came to.
pub enum ApiResult {
    Success(ApiResponse),
    Error(String),
}

/// A 2xx status.
pub open spec fn is_success_status(status: u16) -> bool {
    200 <= status <= 299
}

/// The message for a response whose status is not 2xx.
pub open spec fn status_error_text(status: nat, body: Seq<char>) -> Seq<char> {
    "HTTP "@ + decimal(status) + ": "@ + body
}

/// The message for a 2xx body that did not decode.
pub open spec fn decode_error_text(cause: Seq<char>, body: Seq<char>) -> Seq<char> {
    cause + " -- response: "@ + body
}

/// Turns one answered request into an outcome: a non-2xx status is an error
/// naming the status and the body; a 2xx status gives the decoded response,
/// or an error naming the decoder's message and the body.
pub fn response_outcome(status: u16, body: &str, decoded: Result<ApiResponse, String>) -> (r: ApiResult)
    ensures
        !is_success_status(status) ==> (r matches ApiResult::Error(m)
            && m@ == status_error_text(status as nat, body@)),
        is_success_status(status) && decoded is Ok ==> r == ApiResult::Success(decoded->Ok_0),
        is_success_status(status) && decoded is Err ==> (r matches ApiResult::Error(m)
            && m@ == decode_error_text(decoded->Err_0@, body@)),
{
    if status < 200 || status > 299 {
        let mut m = String::from_str("HTTP ");
        push_decimal(&mut m, status as u128);
        m.append(": ");
        m.append(body);
        proof {
            reveal_strlit("HTTP ");
            reveal_strlit(": ");
        }
        assert(m@ =~= status_error_text(status as nat, body@));
        ApiResult::Error(m)
    } else {
        match decoded {
            Ok(resp) => ApiResult::Success(resp),
            Err(cause) => {
                let mut m = cause;
                m.append(" -- response: ");
                m.append(body);
                ApiResult::Error(m)
            },
        }
    }
}

} // verus!
