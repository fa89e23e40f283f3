use crate::bytes::same_text;
use vstd::prelude::*;
use vstd::string::*;

verus! {

/// The number of times a request is sent before the forwarder gives up.
pub const MAX_ATTEMPTS: u32 = 3;

/// The pause between two attempts, in milliseconds.
pub const RETRY_DELAY_MS: u64 = 500;

/// The request methods that the forwarder sends.
#[derive(Clone, Copy, Debug, PartialEq, Eq, Structural)]
pub enum HttpMethod {
    Get,
    Post,
    Put,
    Delete,
    Patch,
    Head,
}

/// How one attempt to send a request ended.
#[derive(Clone, Copy, Debug, PartialEq, Eq, Structural)]
pub enum AttemptOutcome {
    /// A response came back, whatever its status code.
    Answered,
    /// The request failed in transport: no response came back.
    TransportFailed,
}

/// What the forwarder does after an attempt.
#[derive(Clone, Copy, Debug, PartialEq, Eq, Structural)]
pub enum NextStep {
    /// Hand the response to the caller.
    Deliver,
    /// Wait, then send the request again.
    RetryAfter { delay_ms: u64 },
    /// Report the failure of the last attempt to the caller.
    GiveUp,
}

/// The method that a name stands for. Names are upper case; any other name
/// stands for no method.
pub open spec fn method_named(name: Seq<char>) -> Option<HttpMethod> {
    if name == "GET"@ {
        Some(HttpMethod::Get)
    } else if name == "POST"@ {
        Some(HttpMethod::Post)
    } else if name == "PUT"@ {
        Some(HttpMethod::Put)
    } else if name == "DELETE"@ {
        Some(HttpMethod::Delete)
    } else if name == "PATCH"@ {
        Some(HttpMethod::Patch)
    } else if name == "HEAD"@ {
        Some(HttpMethod::Head)
    } else {
        None
    }
}

/// The step that follows attempt number `attempt`, counted from zero. A
/// response is delivered at once, whatever its status code; a transport
/// failure is retried after the pause until `MAX_ATTEMPTS` attempts were
/// made.
pub open spec fn step_after(attempt: u32, outcome: AttemptOutcome) -> NextStep {
    match outcome {
        AttemptOutcome::Answered => NextStep::Deliver,
        AttemptOutcome::TransportFailed => if attempt + 1 < MAX_ATTEMPTS {
            NextStep::RetryAfter { delay_ms: RETRY_DELAY_MS }
        } else {
            NextStep::GiveUp
        },
    }
}

/// Reads the name of a request method.
pub fn parse_method(name: &str) -> (method: Option<HttpMethod>)
    ensures
        method == method_named(name@),
{
    if same_text(name, "GET") {
        Some(HttpMethod::Get)
    } else if same_text(name, "POST") {
        Some(HttpMethod::Post)
    } else if same_text(name, "PUT") {
        Some(HttpMethod::Put)
    } else if same_text(name, "DELETE") {
        Some(HttpMethod::Delete)
    } else if same_text(name, "PATCH") {
        Some(HttpMethod::Patch)
    } else if same_text(name, "HEAD") {
        Some(HttpMethod::Head)
    } else {
        None
    }
}

/// Decides what follows attempt number `attempt`, counted from zero.
pub fn after_attempt(attempt: u32, outcome: AttemptOutcome) -> (step: NextStep)
    ensures
        step == step_after(attempt, outcome),
{
    match outcome {
        AttemptOutcome::Answered => NextStep::Deliver,
        AttemptOutcome::TransportFailed => if attempt < MAX_ATTEMPTS - 1 {
            NextStep::RetryAfter { delay_ms: RETRY_DELAY_MS }
        } else {
            NextStep::GiveUp
        },
    }
}

} // verus!
