//! The goal submission relay: a financial goal framed as a JSON object and
//! posted to the budgeting service, with the response transform attached.
use vstd::prelude::*;
use vstd::string::*;
use vstd::utf8::*;
use crate::json::{json_quoted, quote};
use crate::outcall::{utf8_error_text, utf8_text, HttpHeader, HttpMethod, OutboundRequest, RawResponse, TransportError};

verus! {

/// Endpoint of the budgeting service.
pub const GOAL_ENDPOINT: &'static str = "https://icp-api-budget.fly.dev/budget-plan";

/// Name under which the response transform is registered with the host.
pub const TRANSFORM_NAME: &'static str = "transform";

/// Largest answer accepted from the budgeting service, in bytes.
pub const GOAL_RESPONSE_LIMIT: u64 = 2048;

/// Execution budget of a submission; the budgeting service answers quickly.
pub const GOAL_CYCLES: u128 = 10_000_000;

/// A financial goal as a caller submits it. The three amounts are held as
/// the JSON number text that the host writes for them.
#[derive(Debug)]
pub struct FinancialGoal {
    pub purpose: String,
    pub timeframe: String,
    pub total_amount: String,
    pub total_income_monthly: String,
    pub total_expenses_monthly: String,
}

/// Why a goal could not be submitted.
#[derive(Debug)]
pub enum SubmitError {
    /// The transport failed, with its diagnostic.
    Transport(String),
    /// The answer's body is not UTF-8, with the decoder's message.
    Encoding(String),
}

/// The mathematical value of a `SubmitError`.
pub enum SubmitFault {
    Transport(Seq<char>),
    Encoding(Seq<char>),
}

impl View for SubmitError {
    type V = SubmitFault;

    open spec fn view(&self) -> SubmitFault {
        match self {
            SubmitError::Transport(m) => SubmitFault::Transport(m@),
            SubmitError::Encoding(m) => SubmitFault::Encoding(m@),
        }
    }
}

/// The JSON object sent for a goal, given the string literals written for its
/// purpose and timeframe. Its members stand in the order of their keys.
pub open spec fn goal_object(g: FinancialGoal, purpose: Seq<char>, timeframe: Seq<char>) -> Seq<char> {
    "{\"purpose\":"@ + purpose + ",\"timeframe\":"@ + timeframe + ",\"total_amount\":"@
        + g.total_amount@ + ",\"total_expenses_monthly\":"@ + g.total_expenses_monthly@
        + ",\"total_income_monthly\":"@ + g.total_income_monthly@ + "}"@
}

/// The JSON object sent for a goal.
pub open spec fn goal_document(g: FinancialGoal) -> Seq<char> {
    goal_object(g, json_quoted(g.purpose@), json_quoted(g.timeframe@))
}

/// The human-readable message of a submission failure.
pub open spec fn submit_error_text(e: SubmitFault) -> Seq<char> {
    match e {
        SubmitFault::Transport(m) => "HTTP request failed with code and message: "@ + m,
        SubmitFault::Encoding(m) => "Invalid UTF-8 sequence: "@ + m,
    }
}

/// What the outcome of a submission yields.
pub open spec fn submitted(outcome: Result<RawResponse, TransportError>) -> Result<(), SubmitFault> {
    match outcome {
        Ok(response) => if valid_utf8(response.body@) {
            Ok(())
        } else {
            Err(SubmitFault::Encoding(utf8_error_text(response.body@)))
        },
        Err(t) => Err(SubmitFault::Transport(t.message@)),
    }
}

impl SubmitError {
    /// The message handed to a caller for this failure.
    pub fn message(&self) -> (r: String)
        ensures
            r@ == submit_error_text(self@),
    {
        match self {
            SubmitError::Transport(m) => {
                let mut text = String::from_str("HTTP request failed with code and message: ");
                text.append(m.as_str());
                text
            },
            SubmitError::Encoding(m) => {
                let mut text = String::from_str("Invalid UTF-8 sequence: ");
                text.append(m.as_str());
                text
            },
        }
    }
}

/// Frames a goal as JSON bytes, given the string literals already written
/// for its purpose and timeframe.
pub fn frame_goal(goal: &FinancialGoal, purpose: &str, timeframe: &str) -> (r: Vec<u8>)
    ensures
        r@ == encode_utf8(goal_object(*goal, purpose@, timeframe@)),
{
    let mut text = String::from_str("{\"purpose\":");
    text.append(purpose);
    text.append(",\"timeframe\":");
    text.append(timeframe);
    text.append(",\"total_amount\":");
    text.append(goal.total_amount.as_str());
    text.append(",\"total_expenses_monthly\":");
    text.append(goal.total_expenses_monthly.as_str());
    text.append(",\"total_income_monthly\":");
    text.append(goal.total_income_monthly.as_str());
    text.append("}");
    text.as_str().as_bytes_vec()
}

/// The JSON bytes sent for a goal.
pub fn goal_payload(goal: &FinancialGoal) -> (r: Vec<u8>)
    ensures
        r@ == encode_utf8(goal_document(*goal)),
{
    let purpose = match quote(goal.purpose.as_str()) {
        Ok(q) => q,
        Err(_) => unreached(),
    };
    let timeframe = match quote(goal.timeframe.as_str()) {
        Ok(q) => q,
        Err(_) => unreached(),
    };
    frame_goal(goal, purpose.as_str(), timeframe.as_str())
}

/// The POST request that submits a goal to the budgeting service.
pub fn goal_request(goal: &FinancialGoal) -> (r: OutboundRequest)
    ensures
        r.url@ == GOAL_ENDPOINT@,
        r.method == HttpMethod::Post,
        r.body matches Some(b) && b@ == encode_utf8(goal_document(*goal)),
        r.headers@.len() == 1,
        r.headers@[0].name@ == "Content-Type"@,
        r.headers@[0].value@ == "application/json"@,
        r.max_response_bytes == Some(GOAL_RESPONSE_LIMIT),
        r.transform matches Some(t) && t@ == TRANSFORM_NAME@,
        r.cycles == GOAL_CYCLES,
{
    let body = goal_payload(goal);
    let header = HttpHeader {
        name: String::from_str("Content-Type"),
        value: String::from_str("application/json"),
    };
    let mut headers: Vec<HttpHeader> = Vec::new();
    headers.push(header);
    OutboundRequest {
        url: String::from_str(GOAL_ENDPOINT),
        method: HttpMethod::Post,
        body: Some(body),
        headers,
        max_response_bytes: Some(GOAL_RESPONSE_LIMIT),
        transform: Some(String::from_str(TRANSFORM_NAME)),
        cycles: GOAL_CYCLES,
    }
}

/// What the outcome of a submission yields: success once the transport
/// delivered a UTF-8 answer; the transport's diagnostic otherwise.
pub fn submit_outcome(outcome: Result<RawResponse, TransportError>) -> (r: Result<(), SubmitError>)
    ensures
        match submitted(outcome) {
            Ok(()) => r is Ok,
            Err(f) => r matches Err(e) && e@ == f,
        },
{
    match outcome {
        Ok(response) => match utf8_text(response.body) {
            Ok(_) => Ok(()),
            Err(m) => Err(SubmitError::Encoding(m)),
        },
        Err(t) => Err(SubmitError::Transport(t.message)),
    }
}

} // verus!
