//! The chat stage: the reply's shape, the outcome taxonomy of a request,
//! and the query built from the extracted text and the user's input. The
//! HTTP transport itself lives with the host.

use crate::text::{spec_decimal, u32_decimal};
use vstd::prelude::*;

verus! {

/// The chat service's reply, as the host decodes it.
#[derive(Clone, PartialEq, Eq, Debug)]
pub struct ApiResponse {
    pub event: String,
    pub task_id: String,
    pub id: String,
    pub answer: String,
    pub created_at: i64,
    pub conversation_id: String,
}

/// Errors of the chat stage.
#[derive(Clone, Copy, PartialEq, Eq, Structural, Debug)]
pub enum ChatError {
    /// The request never reached the service.
    Transport,
    /// The service answered with a non-success status.
    Http(u16),
}

/// The status class a chat request must come back with: 2xx.
pub open spec fn spec_status_ok(status: u16) -> bool {
    200 <= status < 300
}

/// Decide a chat request's outcome from its HTTP status: success for the
/// 2xx class, the status itself as the error otherwise.
pub fn classify_status(status: u16) -> (r: Result<(), ChatError>)
    ensures
        r is Ok <==> spec_status_ok(status),
        r matches Err(e) ==> e == ChatError::Http(status),
{
    if 200 <= status && status < 300 {
        Ok(())
    } else {
        Err(ChatError::Http(status))
    }
}

/// The message logged for a failed chat request: the status for a refused
/// one, a fixed line for one that never reached the service (the host may
/// append the transport's own detail).
pub fn chat_error_message(e: &ChatError) -> (r: String)
    ensures
        e matches ChatError::Http(status) ==> r@ == "Error: "@ + spec_decimal(status as nat),
        e is Transport ==> r@ == "Failed to send request"@,
{
    match e {
        ChatError::Http(status) => {
            let mut s: String = String::from_str("Error: ");
            let digits: String = u32_decimal(*status as u32);
            s.append(digits.as_str());
            proof {
                assert(s@ =~= "Error: "@ + spec_decimal(*status as nat));
            }
            s
        },
        ChatError::Transport => String::from_str("Failed to send request"),
    }
}

/// The query sent on a follow-up: the extracted text and the user's input,
/// joined by one space.
pub fn combine_query(content: &str, user_input: &str) -> (r: String)
    ensures
        r@ == content@ + " "@ + user_input@,
{
    let mut s: String = String::from_str(content);
    s.append(" ");
    s.append(user_input);
    proof {
        assert(s@ =~= content@ + " "@ + user_input@);
    }
    s
}

} // verus!
