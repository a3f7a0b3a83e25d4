//! Judging what the completion service answered to the classification
//! request, and bounding the retries.

use vstd::prelude::*;
use vstd::string::StringExecFns;
use vstd::utf8::encode_utf8;
use crate::json::{as_flag, as_text, decode, is_null, json_decoded, json_model, member, member_of, Json};
use crate::search::same_text;

verus! {

/// The verdict on one query: whether a live search is needed, and what to
/// search for.
#[derive(Debug)]
pub struct ConsultResponse {
    pub decision: bool,
    pub query: Option<String>,
}

/// A verdict as a mathematical value.
pub struct Verdict {
    pub decision: bool,
    pub query: Option<Seq<char>>,
}

impl View for ConsultResponse {
    type V = Verdict;

    open spec fn view(&self) -> Verdict {
        Verdict {
            decision: self.decision,
            query: match self.query {
                Some(q) => Some(q@),
                None => None,
            },
        }
    }
}

impl ConsultResponse {
    /// A verdict carries a search string exactly where it asks for a search.
    pub open spec fn wf(&self) -> bool {
        self.decision <==> self.query is Some
    }
}

/// One function call that the completion service made.
#[derive(Debug)]
pub struct ToolCall {
    pub ty: String,
    pub name: String,
    pub arguments: String,
}

/// One candidate answer: whether it ended in tool calls, and the calls.
#[derive(Debug)]
pub struct Choice {
    pub finished_with_tool_calls: bool,
    pub tool_calls: Vec<ToolCall>,
}

/// What the completion service handed back for one request.
#[derive(Debug)]
pub struct Completion {
    pub choices: Vec<Choice>,
}

/// How one call of the completion service ended.
#[derive(Debug)]
pub enum Attempt {
    /// A whole answer came back.
    Completed(Completion),
    /// The service answered with a stream, which is not supported.
    Streamed,
    /// The service itself failed, with its message.
    Failed(String),
}

/// Why an answer does not carry a verdict. Each is a reason to ask again.
#[derive(Clone, Copy, Debug, PartialEq, Eq, Structural)]
pub enum Rejection {
    NoChoice,
    NotToolCall,
    NoToolCall,
    WrongFunction,
    MalformedArguments,
    DecisionNotBoolean,
    QueryMissing,
    QueryNotText,
}

/// Why a consultation gave no verdict.
#[derive(Debug)]
pub enum ConsultError {
    /// The answer was not in the agreed form: the same request may be sent again.
    RetrySignal(Rejection),
    /// The completion service failed: nothing is gained by asking again.
    Consultation(String),
    /// Every allowed attempt ended in a retry signal.
    Exhausted,
}

/// What to do after one attempt.
#[derive(Debug)]
pub enum Step {
    Accept(ConsultResponse),
    /// Ask again; the reason why the last answer carried no verdict.
    Retry(Rejection),
    GiveUp(ConsultError),
}

/// What is asked of the completion service for one query: a single turn
/// that must end in one call of the one declared function.
#[derive(Debug)]
pub struct ClassificationRequest {
    pub model: String,
    pub system_prompt: String,
    pub user_message: String,
    /// The type and the name of the one tool that is declared and forced.
    pub tool_type: String,
    pub tool_name: String,
    /// The tool's two parameters: a boolean that is required, and the search string.
    pub decision_parameter: String,
    pub query_parameter: String,
    pub max_tokens: u64,
    pub n_choices: u64,
    pub stream: bool,
}

/// True where a request is the classification request for a query and a model.
pub open spec fn classifies(request: ClassificationRequest, query: Seq<char>, model: Seq<char>) -> bool {
    &&& request.model@ == model
    &&& request.user_message@ == query
    &&& request.system_prompt@ == "You are an intent classification model. Your goal is to determine whether a given user query can only be answered with additional information from a google search. Always use the search_required function to let the user know if search is required."@
    &&& request.tool_type@ == "function"@
    &&& request.tool_name@ == "search_required"@
    &&& request.decision_parameter@ == "search_required"@
    &&& request.query_parameter@ == "query"@
    &&& request.max_tokens == 500
    &&& request.n_choices == 1
    &&& !request.stream
}

/// Words the classification request for a query. Every attempt sends the same.
pub fn classification_request(query: &str, model_name: &str) -> (r: ClassificationRequest)
    ensures
        classifies(r, query@, model_name@),
{
    ClassificationRequest {
        model: String::from_str(model_name),
        system_prompt: String::from_str(
            "You are an intent classification model. Your goal is to determine whether a given user query can only be answered with additional information from a google search. Always use the search_required function to let the user know if search is required.",
        ),
        user_message: String::from_str(query),
        tool_type: String::from_str("function"),
        tool_name: String::from_str("search_required"),
        decision_parameter: String::from_str("search_required"),
        query_parameter: String::from_str("query"),
        max_tokens: 500,
        n_choices: 1,
        stream: false,
    }
}

/// The verdict that an arguments document carries, or why it carries none.
pub open spec fn verdict_of(arguments: Json) -> Result<Verdict, Rejection> {
    match member_of(arguments, "search_required"@) {
        Some(Json::Bool(false)) => Ok(Verdict { decision: false, query: None }),
        Some(Json::Bool(true)) => match member_of(arguments, "query"@) {
            None => Err(Rejection::QueryMissing),
            Some(Json::Null) => Err(Rejection::QueryMissing),
            Some(Json::Text(q)) => Ok(Verdict { decision: true, query: Some(q) }),
            Some(_) => Err(Rejection::QueryNotText),
        },
        _ => Err(Rejection::DecisionNotBoolean),
    }
}

/// The verdict that a function call carries: the call must be the agreed
/// function, and its arguments a JSON text that `verdict_of` accepts.
pub open spec fn verdict_of_call(call: ToolCall) -> Result<Verdict, Rejection> {
    if call.ty@ != "function"@ || call.name@ != "search_required"@ {
        Err(Rejection::WrongFunction)
    } else {
        match json_decoded(encode_utf8(call.arguments@)) {
            None => Err(Rejection::MalformedArguments),
            Some(arguments) => verdict_of(arguments),
        }
    }
}

/// The verdict that a whole answer carries: that of the first call of the
/// first candidate, which must have ended in tool calls.
pub open spec fn verdict_of_completion(completion: Completion) -> Result<Verdict, Rejection> {
    if completion.choices@.len() == 0 {
        Err(Rejection::NoChoice)
    } else if !completion.choices@[0].finished_with_tool_calls {
        Err(Rejection::NotToolCall)
    } else if completion.choices@[0].tool_calls@.len() == 0 {
        Err(Rejection::NoToolCall)
    } else {
        verdict_of_call(completion.choices@[0].tool_calls@[0])
    }
}

/// True where a result is the given verdict, or the given rejection.
pub open spec fn judged_as(r: Result<ConsultResponse, Rejection>, m: Result<Verdict, Rejection>) -> bool {
    match (r, m) {
        (Ok(a), Ok(b)) => a@ == b,
        (Err(a), Err(b)) => a == b,
        _ => false,
    }
}

/// What one attempt yields: its verdict, a retry signal with the reason, or
/// the service's failure.
pub open spec fn consulted(attempt: Attempt, r: Result<ConsultResponse, ConsultError>) -> bool {
    match attempt {
        Attempt::Completed(completion) => match verdict_of_completion(completion) {
            Ok(v) => r matches Ok(a) && a@ == v,
            Err(why) => r matches Err(ConsultError::RetrySignal(w)) && w == why,
        },
        Attempt::Streamed => r matches Err(ConsultError::Consultation(m))
            && m@ == "streaming mode is unsupported"@,
        Attempt::Failed(message) => r matches Err(ConsultError::Consultation(m)) && m@ == message@,
    }
}

/// The step that follows an attempt's outcome, `attempts_made` counting that
/// attempt: a verdict is accepted, a failure ends the consultation, and a
/// retry signal asks again while attempts are left.
pub open spec fn step_after(
    outcome: Result<ConsultResponse, ConsultError>,
    attempts_made: u32,
    max_attempts: u32,
) -> Step {
    match outcome {
        Ok(verdict) => Step::Accept(verdict),
        Err(ConsultError::RetrySignal(why)) => if attempts_made < max_attempts {
            Step::Retry(why)
        } else {
            Step::GiveUp(ConsultError::Exhausted)
        },
        Err(e) => Step::GiveUp(e),
    }
}

/// Reads the verdict out of a tool call's decoded arguments.
pub fn verdict(arguments: &serde_json::Value) -> (r: Result<ConsultResponse, Rejection>)
    ensures
        judged_as(r, verdict_of(json_model(*arguments))),
        r matches Ok(v) ==> v.wf(),
{
    let decision = match member(arguments, "search_required") {
        Some(m) => as_flag(m),
        None => None,
    };
    match decision {
        None => Err(Rejection::DecisionNotBoolean),
        Some(false) => Ok(ConsultResponse { decision: false, query: None }),
        Some(true) => match member(arguments, "query") {
            None => Err(Rejection::QueryMissing),
            Some(q) => {
                if is_null(q) {
                    Err(Rejection::QueryMissing)
                } else {
                    match as_text(q) {
                        Some(t) => Ok(
                            ConsultResponse { decision: true, query: Some(String::from_str(t)) },
                        ),
                        None => Err(Rejection::QueryNotText),
                    }
                }
            },
        },
    }
}

/// Validates one answer of the completion service and reads its verdict.
pub fn validate(completion: &Completion) -> (r: Result<ConsultResponse, Rejection>)
    ensures
        judged_as(r, verdict_of_completion(*completion)),
        r matches Ok(v) ==> v.wf(),
{
    if completion.choices.len() == 0 {
        return Err(Rejection::NoChoice);
    }
    let choice = &completion.choices[0];
    if !choice.finished_with_tool_calls {
        return Err(Rejection::NotToolCall);
    }
    if choice.tool_calls.len() == 0 {
        return Err(Rejection::NoToolCall);
    }
    let call = &choice.tool_calls[0];
    if !same_text(call.ty.as_str(), "function") || !same_text(call.name.as_str(), "search_required") {
        return Err(Rejection::WrongFunction);
    }
    match decode(call.arguments.as_str().as_bytes()) {
        Some(arguments) => verdict(&arguments),
        None => Err(Rejection::MalformedArguments),
    }
}

/// Judges one attempt: a whole answer is validated, anything else is the
/// service's failure.
pub fn consult(attempt: &Attempt) -> (r: Result<ConsultResponse, ConsultError>)
    ensures
        consulted(*attempt, r),
        r matches Ok(v) ==> v.wf(),
{
    match attempt {
        Attempt::Completed(completion) => match validate(completion) {
            Ok(v) => Ok(v),
            Err(why) => Err(ConsultError::RetrySignal(why)),
        },
        Attempt::Streamed => Err(
            ConsultError::Consultation(String::from_str("streaming mode is unsupported")),
        ),
        Attempt::Failed(message) => Err(ConsultError::Consultation(message.clone())),
    }
}

/// Decides what follows an attempt, `attempts_made` counting that attempt.
pub fn next_step(
    outcome: Result<ConsultResponse, ConsultError>,
    attempts_made: u32,
    max_attempts: u32,
) -> (r: Step)
    ensures
        r == step_after(outcome, attempts_made, max_attempts),
{
    match outcome {
        Ok(verdict) => Step::Accept(verdict),
        Err(ConsultError::RetrySignal(why)) => {
            if attempts_made < max_attempts {
                Step::Retry(why)
            } else {
                Step::GiveUp(ConsultError::Exhausted)
            }
        },
        Err(e) => Step::GiveUp(e),
    }
}

/// No verdict is accepted that asks for a search and names nothing to search
/// for: whatever the completion service answered, an accepted verdict carries
/// a search string exactly where it asks for a search.
pub proof fn accepted_verdict_names_its_search(completion: Completion)
    ensures
        verdict_of_completion(completion) matches Ok(v) ==> (v.decision <==> v.query is Some),
{
}

} // verus!
