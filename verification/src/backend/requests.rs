//! The decisions of one query request: admitting it, answering or planning
//! the search once the verdict is known, and wording the replies.

use vstd::prelude::*;
use vstd::string::StringExecFns;
use crate::backend::consult::{consult, next_step, verdict_of_completion, Attempt, ConsultError, ConsultResponse, Rejection, Step, Verdict};
use crate::backend::QueryType;
use crate::json::{as_text, as_unsigned, decode, escaped_text, json_decoded, json_model, json_quoted, member, member_of, quote, text_member, unsigned_member, Json};
use crate::search::SearchBackends;
use crate::search::backend_named;

verus! {

/// What the operator fixed when the server started.
#[derive(Debug)]
pub struct ServerSettings {
    /// Ceiling, and default, of the number of results of one search.
    pub max_search_results: u8,
    /// Ceiling, and default, of the size of one result.
    pub size_per_search_result: u16,
    /// Restricted mode: no summaries and no local search server.
    pub restricted: bool,
    /// Where the local search server listens, unless a request says otherwise.
    pub local_search_endpoint: String,
    /// How many times the completion service is asked for one request, at most.
    pub max_attempts: u32,
}

/// The provider key as a request gave it.
#[derive(Debug)]
pub enum Credential {
    Missing,
    Malformed,
    Key(String),
}

/// What an admitted request asks for.
#[derive(Debug)]
pub struct QueryRequest {
    pub query: String,
    pub backend: SearchBackends,
    pub max_search_results: Option<u64>,
    pub size_limit_per_result: Option<u64>,
    pub api_key: Credential,
    pub endpoint: Option<String>,
}

/// Why a request is turned down before any search is made.
#[derive(Clone, Copy, Debug, PartialEq, Eq, Structural)]
pub enum Refusal {
    MalformedBody,
    NoSearchConfig,
    SummarizeRestricted,
    LocalServerRestricted,
    NoQuery,
    QueryNotText,
    UnknownBackend,
    NoTavilyKey,
    InvalidTavilyKey,
    NoBingKey,
    InvalidBingKey,
}

/// A reply: the HTTP status and the body, JSON under 200 and plain text otherwise.
#[derive(Debug)]
pub struct Reply {
    pub status: u16,
    pub body: String,
}

/// How a provider is called.
#[derive(Clone, Copy, Debug, PartialEq, Eq, Structural)]
pub enum Method {
    Get,
    Post,
}

/// How one search is to be executed.
#[derive(Debug)]
pub struct SearchConfig {
    pub search_engine: SearchBackends,
    pub max_search_results: u8,
    pub size_limit_per_result: u16,
    pub endpoint: String,
    pub method: Method,
    pub additional_headers: Vec<(String, String)>,
    /// How much text a summary is made from: room for every result at its full size.
    pub summarize_ctx_size: u32,
}

/// What is sent to the provider, one shape for each.
#[derive(Debug)]
pub enum SearchInput {
    Tavily {
        api_key: String,
        include_answer: bool,
        include_images: bool,
        query: String,
        max_results: u8,
        include_raw_content: bool,
        search_depth: String,
    },
    Bing { count: u8, q: String, response_filter: String },
    LocalServer { query: String, max_results: u8 },
}

/// A search that is ready to run.
#[derive(Debug)]
pub struct SearchPlan {
    pub config: SearchConfig,
    pub input: SearchInput,
    /// Whether the results are to be condensed into a summary.
    pub summarize: bool,
}

/// What the handler decided once the verdict was known.
#[derive(Debug)]
pub enum Outcome {
    Reply(Reply),
    Search(SearchPlan),
}

/// What is to be done after one call of the completion service.
#[derive(Debug)]
pub enum Action {
    /// Send the same classification request once more; the reason why the
    /// last answer carried no verdict.
    Consult(Rejection),
    /// The consultation is over: reply, or run the search.
    Finish(Outcome),
}

/// The handler's decision, without its details.
#[derive(Clone, Copy, Debug, PartialEq, Eq, Structural)]
pub enum Disposition {
    /// Answer with the verdict alone.
    Decide,
    /// Answer that no search is needed.
    NoSearch,
    /// Turn the request down.
    Refuse(Refusal),
    /// Run the search.
    Search,
}

/// The status that goes with a refusal: 500 where the body could not be
/// decoded, 400 for everything that the client caused.
pub open spec fn status_of(refusal: Refusal) -> u16 {
    match refusal {
        Refusal::MalformedBody => 500,
        _ => 400,
    }
}

/// The diagnostic text that goes with a refusal.
pub open spec fn message_of(refusal: Refusal) -> Seq<char> {
    match refusal {
        Refusal::MalformedBody => "Error while converting request body into json object.\n"@,
        Refusal::NoSearchConfig => "Unable to extract search_config object from request.\n"@,
        Refusal::SummarizeRestricted => "Summary generation endpoint is only available on servers configured without --server.\n"@,
        Refusal::LocalServerRestricted => "The local search server is only available on servers configured without --server.\n"@,
        Refusal::NoQuery => "No query received.\n"@,
        Refusal::QueryNotText => "The query supplied is not a String.\n"@,
        Refusal::UnknownBackend => "Unknown backend mentioned.\nUsage: tavily, bing, local_search_server.\n"@,
        Refusal::NoTavilyKey => "no Tavily API key supplied.\n"@,
        Refusal::InvalidTavilyKey => "Invalid Tavily API key supplied.\n"@,
        Refusal::NoBingKey => "no Bing API key supplied.\n"@,
        Refusal::InvalidBingKey => "invalid Bing API key supplied.\n"@,
    }
}

/// The provider that a request document names. A document without a
/// `backend`, or with one that is no string, names no provider: it reads as
/// `Unknown`, and is turned down wherever an unknown name is.
pub open spec fn backend_of(doc: Json) -> SearchBackends {
    match text_member(doc, "backend"@) {
        Some(name) => backend_named(name),
        None => SearchBackends::Unknown,
    }
}

/// The first reason to turn a decoded request down, in the order in which
/// the checks are made: the search options must be there, the deployment
/// mode must allow the flavour and the provider, and the query must be a
/// string. `None` where the request is admitted.
pub open spec fn refusal_of(doc: Json, query_type: QueryType, restricted: bool) -> Option<Refusal> {
    if member_of(doc, "search_config"@) is None {
        Some(Refusal::NoSearchConfig)
    } else if restricted && query_type == QueryType::Summarize {
        Some(Refusal::SummarizeRestricted)
    } else if restricted && backend_of(doc) == SearchBackends::LocalServer {
        Some(Refusal::LocalServerRestricted)
    } else {
        match member_of(doc, "query"@) {
            None => Some(Refusal::NoQuery),
            Some(Json::Text(_)) => None,
            Some(_) => Some(Refusal::QueryNotText),
        }
    }
}

/// True where a key is what the search options hold under `api_key`.
pub open spec fn key_reads_as(key: Credential, options: Json) -> bool {
    match member_of(options, "api_key"@) {
        None => key is Missing,
        Some(Json::Text(k)) => match key {
            Credential::Key(s) => s@ == k,
            _ => false,
        },
        Some(_) => key is Malformed,
    }
}

/// True where an optional string holds the given optional text.
pub open spec fn text_reads_as(s: Option<String>, text: Option<Seq<char>>) -> bool {
    match (s, text) {
        (Some(a), Some(b)) => a@ == b,
        (None, None) => true,
        _ => false,
    }
}

/// True where a request holds what an admitted document says: the query, the
/// provider, and the search options as they stand under `search_config`.
pub open spec fn reads_as(request: QueryRequest, doc: Json) -> bool {
    match member_of(doc, "search_config"@) {
        Some(options) => {
            &&& text_member(doc, "query"@) == Some(request.query@)
            &&& request.backend == backend_of(doc)
            &&& request.max_search_results == unsigned_member(options, "max_search_results"@)
            &&& request.size_limit_per_result == unsigned_member(options, "size_limit_per_result"@)
            &&& key_reads_as(request.api_key, options)
            &&& text_reads_as(request.endpoint, text_member(options, "endpoint"@))
        },
        None => false,
    }
}

/// True where a result is what the admission of a decoded request owes: the
/// first refusal where there is one, the request read in full otherwise.
pub open spec fn accepted(
    doc: Json,
    query_type: QueryType,
    restricted: bool,
    r: Result<QueryRequest, Refusal>,
) -> bool {
    match r {
        Ok(request) => refusal_of(doc, query_type, restricted) is None && reads_as(request, doc),
        Err(refusal) => refusal_of(doc, query_type, restricted) == Some(refusal),
    }
}

/// The limit in force: what the client asked for, but never more than the
/// server's ceiling, and the ceiling where the client asked for nothing.
pub open spec fn effective_limit(requested: Option<u64>, ceiling: int) -> int {
    match requested {
        Some(n) => if n <= ceiling {
            n as int
        } else {
            ceiling
        },
        None => ceiling,
    }
}

/// The handler's decision for an accepted request and its verdict. The
/// deployment mode comes first; a decision request is answered with the
/// verdict alone, whatever provider it names; a request for results or for a
/// summary needs a known provider, whatever the verdict; without need of a
/// search no key is asked for; and a search with Tavily or Bing needs a key.
pub open spec fn disposition(
    backend: SearchBackends,
    api_key: Credential,
    query_type: QueryType,
    decision: bool,
    restricted: bool,
) -> Disposition {
    if restricted && query_type == QueryType::Summarize {
        Disposition::Refuse(Refusal::SummarizeRestricted)
    } else if restricted && backend == SearchBackends::LocalServer {
        Disposition::Refuse(Refusal::LocalServerRestricted)
    } else if query_type == QueryType::Decision {
        Disposition::Decide
    } else if backend == SearchBackends::Unknown {
        Disposition::Refuse(Refusal::UnknownBackend)
    } else if !decision {
        Disposition::NoSearch
    } else {
        match backend {
            SearchBackends::Unknown => Disposition::Refuse(Refusal::UnknownBackend),
            SearchBackends::LocalServer => Disposition::Search,
            SearchBackends::Tavily => match api_key {
                Credential::Missing => Disposition::Refuse(Refusal::NoTavilyKey),
                Credential::Malformed => Disposition::Refuse(Refusal::InvalidTavilyKey),
                Credential::Key(_) => Disposition::Search,
            },
            SearchBackends::Bing => match api_key {
                Credential::Missing => Disposition::Refuse(Refusal::NoBingKey),
                Credential::Malformed => Disposition::Refuse(Refusal::InvalidBingKey),
                Credential::Key(_) => Disposition::Search,
            },
        }
    }
}

/// The text that is searched for: the verdict's search string, or nothing.
pub open spec fn search_text(verdict: Verdict) -> Seq<char> {
    match verdict.query {
        Some(q) => q,
        None => Seq::<char>::empty(),
    }
}

/// True where a provider's input is the one owed to a request: the provider's
/// own shape, with its fixed fields, the key, the search text and the number
/// of results in force.
pub open spec fn input_for(
    input: SearchInput,
    backend: SearchBackends,
    api_key: Credential,
    text: Seq<char>,
    max_results: u8,
) -> bool {
    match (backend, input) {
        (
            SearchBackends::Tavily,
            SearchInput::Tavily {
                api_key: key,
                include_answer,
                include_images,
                query,
                max_results: count,
                include_raw_content,
                search_depth,
            },
        ) => {
            &&& api_key matches Credential::Key(k) && key@ == k@
            &&& !include_answer
            &&& !include_images
            &&& !include_raw_content
            &&& query@ == text
            &&& count == max_results
            &&& search_depth@ == "advanced"@
        },
        (SearchBackends::Bing, SearchInput::Bing { count, q, response_filter }) => {
            &&& count == max_results
            &&& q@ == text
            &&& response_filter@ == "Webpages"@
        },
        (SearchBackends::LocalServer, SearchInput::LocalServer { query, max_results: count }) => {
            &&& query@ == text
            &&& count == max_results
        },
        _ => false,
    }
}

/// True where an execution configuration is the one owed to a request: both
/// limits as they are in force, and the provider's endpoint, method and
/// headers.
pub open spec fn config_for(
    config: SearchConfig,
    request: QueryRequest,
    settings: ServerSettings,
) -> bool {
    &&& config.search_engine == request.backend
    &&& config.max_search_results == effective_limit(
        request.max_search_results,
        settings.max_search_results as int,
    )
    &&& config.size_limit_per_result == effective_limit(
        request.size_limit_per_result,
        settings.size_per_search_result as int,
    )
    &&& config.summarize_ctx_size == config.size_limit_per_result * config.max_search_results
    &&& match request.backend {
        SearchBackends::Tavily => {
            &&& config.endpoint@ == "https://api.tavily.com/search"@
            &&& config.method == Method::Post
            &&& config.additional_headers@.len() == 0
        },
        SearchBackends::Bing => {
            &&& config.endpoint@ == "https://api.bing.microsoft.com/v7.0/search"@
            &&& config.method == Method::Get
            &&& config.additional_headers@.len() == 1
            &&& config.additional_headers@[0].0@ == "Ocp-Apim-Subscription-Key"@
            &&& request.api_key matches Credential::Key(k) && config.additional_headers@[0].1@
                == k@
        },
        SearchBackends::LocalServer => {
            &&& config.method == Method::Post
            &&& config.additional_headers@.len() == 0
            &&& config.endpoint@ == match request.endpoint {
                Some(e) => e@,
                None => settings.local_search_endpoint@,
            }
        },
        SearchBackends::Unknown => false,
    }
}

/// The body that answers a decision request: the verdict and its search
/// string, the string `null` standing in where there is none.
pub open spec fn decision_body(verdict: Verdict) -> Seq<char> {
    "{\"decision\":"@ + (if verdict.decision {
        "true"@
    } else {
        "false"@
    }) + ",\"query\":"@ + json_quoted(
        match verdict.query {
            Some(q) => q,
            None => "null"@,
        },
    ) + "}"@
}

/// The body that says that no search is needed.
pub open spec fn no_search_body() -> Seq<char> {
    "{\"decision\":false,\"query\":null}"@
}

/// True where an outcome is a reply with the given status and body.
pub open spec fn replies(outcome: Outcome, status: u16, body: Seq<char>) -> bool {
    outcome matches Outcome::Reply(reply) && reply.status == status && reply.body@ == body
}

/// True where an outcome is the search owed to a request and its verdict.
pub open spec fn searches(
    outcome: Outcome,
    request: QueryRequest,
    query_type: QueryType,
    verdict: Verdict,
    settings: ServerSettings,
) -> bool {
    match outcome {
        Outcome::Search(plan) => {
            &&& plan.summarize == (query_type == QueryType::Summarize)
            &&& config_for(plan.config, request, settings)
            &&& input_for(
                plan.input,
                request.backend,
                request.api_key,
                search_text(verdict),
                plan.config.max_search_results,
            )
        },
        Outcome::Reply(_) => false,
    }
}

/// True where an outcome is the one owed for a request and its verdict,
/// each disposition with its own reply or search.
pub open spec fn handled(
    request: QueryRequest,
    query_type: QueryType,
    verdict: Verdict,
    settings: ServerSettings,
    outcome: Outcome,
) -> bool {
    match disposition(
        request.backend,
        request.api_key,
        query_type,
        verdict.decision,
        settings.restricted,
    ) {
        Disposition::Decide => replies(outcome, 200, decision_body(verdict)),
        Disposition::NoSearch => replies(outcome, 200, no_search_body()),
        Disposition::Refuse(refusal) => replies(outcome, status_of(refusal), message_of(refusal)),
        Disposition::Search => searches(outcome, request, query_type, verdict, settings),
    }
}

impl Refusal {
    /// The reply that tells the client of the refusal.
    pub fn reply(&self) -> (r: Reply)
        ensures
            r.status == status_of(*self),
            r.body@ == message_of(*self),
    {
        let status: u16 = match self {
            Refusal::MalformedBody => 500,
            _ => 400,
        };
        let body = match self {
            Refusal::MalformedBody => "Error while converting request body into json object.\n",
            Refusal::NoSearchConfig => "Unable to extract search_config object from request.\n",
            Refusal::SummarizeRestricted => "Summary generation endpoint is only available on servers configured without --server.\n",
            Refusal::LocalServerRestricted => "The local search server is only available on servers configured without --server.\n",
            Refusal::NoQuery => "No query received.\n",
            Refusal::QueryNotText => "The query supplied is not a String.\n",
            Refusal::UnknownBackend => "Unknown backend mentioned.\nUsage: tavily, bing, local_search_server.\n",
            Refusal::NoTavilyKey => "no Tavily API key supplied.\n",
            Refusal::InvalidTavilyKey => "Invalid Tavily API key supplied.\n",
            Refusal::NoBingKey => "no Bing API key supplied.\n",
            Refusal::InvalidBingKey => "invalid Bing API key supplied.\n",
        };
        Reply { status, body: String::from_str(body) }
    }
}

/// Brings a client's limit under the server's ceiling for the number of
/// results.
pub fn clamp_results(requested: Option<u64>, ceiling: u8) -> (r: u8)
    ensures
        r == effective_limit(requested, ceiling as int),
        r <= ceiling,
{
    match requested {
        Some(n) => if n <= ceiling as u64 {
            n as u8
        } else {
            ceiling
        },
        None => ceiling,
    }
}

/// Brings a client's limit under the server's ceiling for the size of one
/// result.
pub fn clamp_size(requested: Option<u64>, ceiling: u16) -> (r: u16)
    ensures
        r == effective_limit(requested, ceiling as int),
        r <= ceiling,
{
    match requested {
        Some(n) => if n <= ceiling as u64 {
            n as u16
        } else {
            ceiling
        },
        None => ceiling,
    }
}

/// The room that a summary needs: every result at its full size.
pub fn summary_room(size_limit: u16, max_results: u8) -> (r: u32)
    ensures
        r == size_limit * max_results,
{
    assert(size_limit * max_results <= 65535 * 255) by (nonlinear_arith)
        requires
            0 <= size_limit <= 65535,
            0 <= max_results <= 255,
    ;
    (size_limit as u32) * (max_results as u32)
}

/// Reads the provider key out of the search options.
pub fn read_key(options: &serde_json::Value) -> (r: Credential)
    ensures
        key_reads_as(r, json_model(*options)),
{
    match member(options, "api_key") {
        None => Credential::Missing,
        Some(key) => match as_text(key) {
            Some(k) => Credential::Key(String::from_str(k)),
            None => Credential::Malformed,
        },
    }
}

/// Reads a decoded request and admits it or turns it down.
pub fn read_request(doc: &serde_json::Value, query_type: QueryType, settings: &ServerSettings) -> (r:
    Result<QueryRequest, Refusal>)
    ensures
        accepted(json_model(*doc), query_type, settings.restricted, r),
{
    let options = match member(doc, "search_config") {
        Some(options) => options,
        None => {
            return Err(Refusal::NoSearchConfig);
        },
    };
    let named = match member(doc, "backend") {
        Some(b) => as_text(b),
        None => None,
    };
    let backend = match named {
        Some(name) => SearchBackends::from(String::from_str(name)),
        None => SearchBackends::Unknown,
    };
    if settings.restricted && query_type == QueryType::Summarize {
        return Err(Refusal::SummarizeRestricted);
    }
    if settings.restricted && backend == SearchBackends::LocalServer {
        return Err(Refusal::LocalServerRestricted);
    }
    let query = match member(doc, "query") {
        None => {
            return Err(Refusal::NoQuery);
        },
        Some(q) => match as_text(q) {
            Some(text) => String::from_str(text),
            None => {
                return Err(Refusal::QueryNotText);
            },
        },
    };
    let max_search_results = match member(options, "max_search_results") {
        Some(n) => as_unsigned(n),
        None => None,
    };
    let size_limit_per_result = match member(options, "size_limit_per_result") {
        Some(n) => as_unsigned(n),
        None => None,
    };
    let endpoint = match member(options, "endpoint") {
        Some(e) => match as_text(e) {
            Some(text) => Some(String::from_str(text)),
            None => None,
        },
        None => None,
    };
    let api_key = read_key(options);
    Ok(QueryRequest { query, backend, max_search_results, size_limit_per_result, api_key, endpoint })
}

/// Decodes a request body and admits the request or turns it down. A body
/// that is no JSON text is refused as malformed; a decoded one is judged as
/// `read_request` says.
pub fn accept_request(body: &[u8], query_type: QueryType, settings: &ServerSettings) -> (r: Result<
    QueryRequest,
    Refusal,
>)
    ensures
        match json_decoded(body@) {
            Some(doc) => accepted(doc, query_type, settings.restricted, r),
            None => r == Err::<QueryRequest, Refusal>(Refusal::MalformedBody),
        },
{
    match decode(body) {
        Some(doc) => read_request(&doc, query_type, settings),
        None => Err(Refusal::MalformedBody),
    }
}

/// The body that carries the results of a search, given as JSON text.
pub open spec fn results_body(results: Seq<char>) -> Seq<char> {
    "{\"decision\":true,\"results\":"@ + results + "}"@
}

/// The text that tells of a consultation's failure.
pub open spec fn failure_detail(error: ConsultError) -> Seq<char> {
    match error {
        ConsultError::Consultation(message) => message@,
        ConsultError::Exhausted => "no valid tool call after the allowed attempts"@,
        ConsultError::RetrySignal(_) => "invalid tool call response"@,
    }
}

/// Answers a decision request with the verdict.
pub fn decision_reply(verdict: &ConsultResponse) -> (r: Reply)
    ensures
        r.status == 200,
        r.body@ == decision_body(verdict@),
{
    let flag = if verdict.decision {
        "true"
    } else {
        "false"
    };
    let quoted = match &verdict.query {
        Some(q) => quote(q.as_str()),
        None => quote("null"),
    };
    let body = String::from_str("{\"decision\":").concat(flag).concat(",\"query\":").concat(
        quoted.as_str(),
    ).concat("}");
    Reply { status: 200, body }
}

/// Answers that no search is needed.
pub fn no_search_reply() -> (r: Reply)
    ensures
        r.status == 200,
        r.body@ == no_search_body(),
{
    Reply { status: 200, body: String::from_str("{\"decision\":false,\"query\":null}") }
}

/// Answers with the results of a search, handed in as JSON text.
pub fn results_reply(results: &str) -> (r: Reply)
    ensures
        r.status == 200,
        r.body@ == results_body(results@),
{
    let body = String::from_str("{\"decision\":true,\"results\":").concat(results).concat("}");
    Reply { status: 200, body }
}

/// Answers with the summary of a search, printed as a JSON string.
pub fn summary_reply(summary: &str) -> (r: Reply)
    ensures
        r.status == 200,
        r.body@ == results_body(json_quoted(summary@)),
{
    let quoted = quote(summary);
    results_reply(quoted.as_str())
}

/// Tells that the provider could not be reached or did not answer.
pub fn search_failure_reply(error: &str) -> (r: Reply)
    ensures
        r.status == 500,
        r.body@ == "Failed to perform internet search: "@ + error@,
{
    Reply { status: 500, body: String::from_str("Failed to perform internet search: ").concat(error) }
}

/// Tells that the consultation gave no verdict.
pub fn consultation_failure_reply(error: &ConsultError) -> (r: Reply)
    ensures
        r.status == 500,
        r.body@ == failure_body(*error),
{
    let head = String::from_str("Error while generating response from LLM.\n");
    let body = match error {
        ConsultError::Consultation(message) => head.concat(message.as_str()),
        ConsultError::Exhausted => head.concat("no valid tool call after the allowed attempts"),
        ConsultError::RetrySignal(_) => head.concat("invalid tool call response"),
    };
    Reply { status: 500, body: body.concat("\n") }
}

/// Tells that the route is not served.
pub fn not_implemented() -> (r: Reply)
    ensures
        r.status == 501,
        r.body@ == "501 Not Implemented"@,
{
    Reply { status: 501, body: String::from_str("501 Not Implemented") }
}

/// The headers that every reply carries: any origin, method and header is
/// allowed, and the content is JSON.
pub fn response_headers() -> (r: Vec<(String, String)>)
    ensures
        r@.len() == 4,
        r@[0].0@ == "Access-Control-Allow-Origin"@ && r@[0].1@ == "*"@,
        r@[1].0@ == "Access-Control-Allow-Methods"@ && r@[1].1@ == "*"@,
        r@[2].0@ == "Access-Control-Allow-Headers"@ && r@[2].1@ == "*"@,
        r@[3].0@ == "Content-Type"@ && r@[3].1@ == "application/json"@,
{
    let mut headers: Vec<(String, String)> = Vec::new();
    headers.push((String::from_str("Access-Control-Allow-Origin"), String::from_str("*")));
    headers.push((String::from_str("Access-Control-Allow-Methods"), String::from_str("*")));
    headers.push((String::from_str("Access-Control-Allow-Headers"), String::from_str("*")));
    headers.push((String::from_str("Content-Type"), String::from_str("application/json")));
    headers
}

/// Decides what becomes of an accepted request once its verdict is known:
/// a reply, or the search that is to be run.
pub fn query_handler(
    request: &QueryRequest,
    query_type: QueryType,
    verdict: &ConsultResponse,
    settings: &ServerSettings,
) -> (r: Outcome)
    ensures
        handled(*request, query_type, verdict@, *settings, r),
{
    if settings.restricted && query_type == QueryType::Summarize {
        return Outcome::Reply(Refusal::SummarizeRestricted.reply());
    }
    if settings.restricted && request.backend == SearchBackends::LocalServer {
        return Outcome::Reply(Refusal::LocalServerRestricted.reply());
    }
    if query_type == QueryType::Decision {
        return Outcome::Reply(decision_reply(verdict));
    }
    if request.backend == SearchBackends::Unknown {
        return Outcome::Reply(Refusal::UnknownBackend.reply());
    }
    if !verdict.decision {
        return Outcome::Reply(no_search_reply());
    }
    let max_results = clamp_results(request.max_search_results, settings.max_search_results);
    let size_limit = clamp_size(request.size_limit_per_result, settings.size_per_search_result);
    let text = match &verdict.query {
        Some(q) => q.clone(),
        None => String::new(),
    };
    let summarize = query_type == QueryType::Summarize;
    let summarize_ctx_size = summary_room(size_limit, max_results);
    match request.backend {
        SearchBackends::Unknown => Outcome::Reply(Refusal::UnknownBackend.reply()),
        SearchBackends::Tavily => match &request.api_key {
            Credential::Missing => Outcome::Reply(Refusal::NoTavilyKey.reply()),
            Credential::Malformed => Outcome::Reply(Refusal::InvalidTavilyKey.reply()),
            Credential::Key(key) => Outcome::Search(
                SearchPlan {
                    config: SearchConfig {
                        search_engine: SearchBackends::Tavily,
                        max_search_results: max_results,
                        size_limit_per_result: size_limit,
                        endpoint: String::from_str("https://api.tavily.com/search"),
                        method: Method::Post,
                        additional_headers: Vec::new(),
                        summarize_ctx_size,
                    },
                    input: SearchInput::Tavily {
                        api_key: key.clone(),
                        include_answer: false,
                        include_images: false,
                        query: text,
                        max_results,
                        include_raw_content: false,
                        search_depth: String::from_str("advanced"),
                    },
                    summarize,
                },
            ),
        },
        SearchBackends::Bing => match &request.api_key {
            Credential::Missing => Outcome::Reply(Refusal::NoBingKey.reply()),
            Credential::Malformed => Outcome::Reply(Refusal::InvalidBingKey.reply()),
            Credential::Key(key) => {
                let mut additional_headers: Vec<(String, String)> = Vec::new();
                additional_headers.push(
                    (String::from_str("Ocp-Apim-Subscription-Key"), key.clone()),
                );
                Outcome::Search(
                    SearchPlan {
                        config: SearchConfig {
                            search_engine: SearchBackends::Bing,
                            max_search_results: max_results,
                            size_limit_per_result: size_limit,
                            endpoint: String::from_str(
                                "https://api.bing.microsoft.com/v7.0/search",
                            ),
                            method: Method::Get,
                            additional_headers,
                            summarize_ctx_size,
                        },
                        input: SearchInput::Bing {
                            count: max_results,
                            q: text,
                            response_filter: String::from_str("Webpages"),
                        },
                        summarize,
                    },
                )
            },
        },
        SearchBackends::LocalServer => {
            let endpoint = match &request.endpoint {
                Some(e) => e.clone(),
                None => settings.local_search_endpoint.clone(),
            };
            Outcome::Search(
                SearchPlan {
                    config: SearchConfig {
                        search_engine: SearchBackends::LocalServer,
                        max_search_results: max_results,
                        size_limit_per_result: size_limit,
                        endpoint,
                        method: Method::Post,
                        additional_headers: Vec::new(),
                        summarize_ctx_size,
                    },
                    input: SearchInput::LocalServer { query: text, max_results },
                    summarize,
                },
            )
        },
    }
}

/// The body that tells of a consultation's failure.
pub open spec fn failure_body(error: ConsultError) -> Seq<char> {
    "Error while generating response from LLM.\n"@ + failure_detail(error) + "\n"@
}

/// True where an action is the one owed after an attempt, `attempts_made`
/// counting that attempt: a verdict is handled at once, a failure of the
/// service ends the request with a 500, and an answer without a verdict has
/// the service asked again until the attempts are used up.
pub open spec fn acted(
    request: QueryRequest,
    query_type: QueryType,
    attempt: Attempt,
    attempts_made: u32,
    settings: ServerSettings,
    action: Action,
) -> bool {
    match attempt {
        Attempt::Completed(completion) => match verdict_of_completion(completion) {
            Ok(verdict) => action matches Action::Finish(outcome) && handled(
                request,
                query_type,
                verdict,
                settings,
                outcome,
            ),
            Err(why) => if attempts_made < settings.max_attempts {
                action matches Action::Consult(w) && w == why
            } else {
                action matches Action::Finish(outcome) && replies(
                    outcome,
                    500,
                    failure_body(ConsultError::Exhausted),
                )
            },
        },
        Attempt::Streamed => action matches Action::Finish(outcome) && replies(
            outcome,
            500,
            "Error while generating response from LLM.\n"@ + "streaming mode is unsupported"@
                + "\n"@,
        ),
        Attempt::Failed(message) => action matches Action::Finish(outcome) && replies(
            outcome,
            500,
            "Error while generating response from LLM.\n"@ + message@ + "\n"@,
        ),
    }
}

/// Takes one answer of the completion service for an accepted request and
/// decides what follows: another attempt, a reply, or the search.
pub fn after_attempt(
    request: &QueryRequest,
    query_type: QueryType,
    attempt: &Attempt,
    attempts_made: u32,
    settings: &ServerSettings,
) -> (r: Action)
    ensures
        acted(*request, query_type, *attempt, attempts_made, *settings, r),
{
    match next_step(consult(attempt), attempts_made, settings.max_attempts) {
        Step::Accept(verdict) => Action::Finish(
            query_handler(request, query_type, &verdict, settings),
        ),
        Step::Retry(why) => Action::Consult(why),
        Step::GiveUp(error) => Action::Finish(Outcome::Reply(consultation_failure_reply(&error))),
    }
}

/// A request for results or for a summary that names none of the three
/// providers is answered with a 400, and no search is planned, whatever the
/// verdict and the deployment mode. (A decision request is answered with the
/// verdict without a look at the provider.)
pub proof fn unknown_backend_is_refused(
    request: QueryRequest,
    query_type: QueryType,
    verdict: Verdict,
    settings: ServerSettings,
    outcome: Outcome,
)
    requires
        handled(request, query_type, verdict, settings, outcome),
        request.backend == SearchBackends::Unknown,
        query_type != QueryType::Decision,
    ensures
        outcome matches Outcome::Reply(reply) && reply.status == 400,
{
}

/// A decision request never leads to a search, whatever the verdict.
pub proof fn decision_never_searches(
    request: QueryRequest,
    verdict: Verdict,
    settings: ServerSettings,
    outcome: Outcome,
)
    requires
        handled(request, QueryType::Decision, verdict, settings, outcome),
    ensures
        outcome is Reply,
{
}

/// The answer to a decision request whose verdict asks for no search carries
/// the string `null` in place of the search string.
pub proof fn decision_without_search_reads_null()
    ensures
        decision_body(Verdict { decision: false, query: None })
            == "{\"decision\":false,\"query\":\"null\"}"@,
{
    reveal_strlit("{\"decision\":");
    reveal_strlit("false");
    reveal_strlit(",\"query\":");
    reveal_strlit("null");
    reveal_strlit("}");
    reveal_strlit("{\"decision\":false,\"query\":\"null\"}");
    reveal_with_fuel(escaped_text, 5);
    let text = "null"@;
    assert(text.subrange(1, 4) =~= seq!['u', 'l', 'l']);
    assert(text.subrange(1, 4).subrange(1, 3) =~= seq!['l', 'l']);
    assert(seq!['l', 'l'].subrange(1, 2) =~= seq!['l']);
    assert(seq!['l'].subrange(1, 1) =~= Seq::<char>::empty());
    assert(escaped_text(text) =~= seq!['n', 'u', 'l', 'l']);
    assert(decision_body(Verdict { decision: false, query: None })
        =~= "{\"decision\":false,\"query\":\"null\"}"@);
}

/// Whatever the completion service answers to a decision request, and after
/// however many attempts, no search follows.
pub proof fn decision_never_searches_after_any_attempt(
    request: QueryRequest,
    attempt: Attempt,
    attempts_made: u32,
    settings: ServerSettings,
    action: Action,
)
    requires
        acted(request, QueryType::Decision, attempt, attempts_made, settings, action),
    ensures
        !(action matches Action::Finish(outcome) && outcome is Search),
{
}

/// A request for results or for a summary that names a known provider and
/// whose verdict asks for no search is answered with exactly the body that
/// says so, and no search is planned. (An unknown provider is turned down
/// before the verdict is looked at, and so is, under restricted mode, a
/// summary or the local search server.)
pub proof fn no_search_without_need(
    request: QueryRequest,
    query_type: QueryType,
    verdict: Verdict,
    settings: ServerSettings,
    outcome: Outcome,
)
    requires
        handled(request, query_type, verdict, settings, outcome),
        query_type != QueryType::Decision,
        !verdict.decision,
        request.backend != SearchBackends::Unknown,
        !(settings.restricted && (query_type == QueryType::Summarize || request.backend
            == SearchBackends::LocalServer)),
    ensures
        outcome matches Outcome::Reply(reply) && reply.status == 200 && reply.body@
            == "{\"decision\":false,\"query\":null}"@,
{
}

/// The limits of a planned search never exceed the server's ceilings,
/// whatever the client asked for.
pub proof fn limits_stay_under_ceilings(
    request: QueryRequest,
    query_type: QueryType,
    verdict: Verdict,
    settings: ServerSettings,
    outcome: Outcome,
)
    requires
        handled(request, query_type, verdict, settings, outcome),
    ensures
        outcome matches Outcome::Search(plan) ==> plan.config.max_search_results
            <= settings.max_search_results && plan.config.size_limit_per_result
            <= settings.size_per_search_result,
{
}

/// The limit in force is never above the ceiling, for any client input.
pub proof fn effective_limit_is_bounded(requested: Option<u64>, ceiling: int)
    requires
        0 <= ceiling,
    ensures
        0 <= effective_limit(requested, ceiling) <= ceiling,
{
}

/// Under restricted mode, a decoded request for a summary, or one that names
/// the local search server, is turned down with a 400, whatever else it holds.
pub proof fn restricted_mode_refuses(doc: Json, query_type: QueryType, r: Result<QueryRequest, Refusal>)
    requires
        accepted(doc, query_type, true, r),
        query_type == QueryType::Summarize || backend_of(doc) == SearchBackends::LocalServer,
    ensures
        r matches Err(refusal) && status_of(refusal) == 400,
{
}

/// Under restricted mode, a request for a summary, or one for the local
/// search server, is answered with a 400 whatever the verdict and whatever
/// else the request holds.
pub proof fn restricted_mode_refuses_after_the_verdict(
    request: QueryRequest,
    query_type: QueryType,
    verdict: Verdict,
    settings: ServerSettings,
    outcome: Outcome,
)
    requires
        handled(request, query_type, verdict, settings, outcome),
        settings.restricted,
        query_type == QueryType::Summarize || request.backend == SearchBackends::LocalServer,
    ensures
        outcome matches Outcome::Reply(reply) && reply.status == 400,
{
}

/// Under restricted mode no search is ever planned for a summary or for the
/// local search server.
pub proof fn restricted_mode_plans_neither(
    request: QueryRequest,
    query_type: QueryType,
    verdict: Verdict,
    settings: ServerSettings,
    outcome: Outcome,
)
    requires
        handled(request, query_type, verdict, settings, outcome),
        settings.restricted,
    ensures
        outcome matches Outcome::Search(plan) ==> !plan.summarize && plan.config.search_engine
            != SearchBackends::LocalServer,
{
}

} // verus!
