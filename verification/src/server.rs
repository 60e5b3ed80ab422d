//! The server side of the protocol: one request in, one decision out.
//! `handle_message` dispatches a decoded request to the fixed handler set;
//! `process_line` runs the whole per-line pipeline; the `finish_*`
//! functions turn a provider outcome into the tool-call response.

use vstd::prelude::*;
use vstd::string::StringExecFns;
use crate::amap::{weather_report, weather_report_v, WeatherResponse, WeatherResponseV};
use crate::decode::{decode_request, json_document, parse_json};
use crate::protocol::{
    action_id, invalid_params_code, method_not_found_code, Action, ActionV, Method, Response,
    ResponseBody, ResponseBodyV, ResponseV, RequestFields, RequestFieldsV, method_of,
    parse_method,
};
use crate::serper::{format_results, format_results_v, SearchResult, SearchResultV};
use crate::text::str_eq_str;

verus! {

/// The request handler: holds the two provider credentials, immutable for
/// the life of the process, and no other state.
pub struct SimpleMcpServer {
    amap_key: String,
    serper_key: String,
}

pub struct SimpleMcpServerV {
    pub amap_key: Seq<char>,
    pub serper_key: Seq<char>,
}

impl View for SimpleMcpServer {
    type V = SimpleMcpServerV;

    closed spec fn view(&self) -> SimpleMcpServerV {
        SimpleMcpServerV { amap_key: self.amap_key@, serper_key: self.serper_key@ }
    }
}

/// The system message of the weather advisor prompt.
pub open spec fn weather_advisor_system_v() -> Seq<char> {
    "你是一个专业的天气顾问，请根据获取到的天气数据给出详细的穿衣建议。注意：\n1. 分析温度范围和温差\n2. 考虑天气现象（晴、阴、雨等）\n3. 考虑风力大小\n4. 给出具体的穿衣层次建议\n5. 如有必要，提醒是否需要携带雨具或防晒用品"@
}

/// The system message of the search analyzer prompt.
pub open spec fn search_analyzer_system_v() -> Seq<char> {
    "你是一个专业的信息分析师，请根据搜索结果给出准确、简洁的回答。"@
}

/// The static content behind the recent weather queries resource.
pub open spec fn weather_recent_v() -> Seq<char> {
    "{\"recent_queries\": [\"上海\", \"北京\", \"深圳\"]}"@
}

/// The static content behind the recent search queries resource.
pub open spec fn search_recent_v() -> Seq<char> {
    "{\"recent_queries\": [\"2025年编程语言排行榜\", \"MCP协议\", \"Rust开发\"]}"@
}

/// An immediate protocol-error reply.
pub open spec fn error_reply_v(id: Option<u64>, code: int, message: Seq<char>) -> ActionV {
    ActionV::Reply(ResponseV { id, body: ResponseBodyV::Error { code, message } })
}

/// The decision for a `tools/call` request: a missing or unknown tool
/// name and a missing required argument are protocol errors; otherwise
/// the matching provider is called with the credential held for it.
pub open spec fn tools_call_spec(server: SimpleMcpServerV, req: RequestFieldsV) -> ActionV {
    match req.params.name {
        None => error_reply_v(req.id, invalid_params_code(), "Missing tool name"@),
        Some(name) => if name == "get_weather"@ {
            match req.params.arguments.location {
                None => error_reply_v(
                    req.id,
                    invalid_params_code(),
                    "Missing location parameter"@,
                ),
                Some(location) => ActionV::CallWeather {
                    id: req.id,
                    location,
                    api_key: server.amap_key,
                },
            }
        } else if name == "search"@ {
            match req.params.arguments.query {
                None => error_reply_v(req.id, invalid_params_code(), "Missing query parameter"@),
                Some(query) => ActionV::CallSearch {
                    id: req.id,
                    query,
                    api_key: server.serper_key,
                },
            }
        } else {
            error_reply_v(req.id, invalid_params_code(), "Unknown tool: "@ + name)
        },
    }
}

/// The decision for a `resources/read` request: the two catalog URIs map
/// to their static contents; anything else is a protocol error.
pub open spec fn resources_read_spec(req: RequestFieldsV) -> ActionV {
    match req.params.uri {
        None => error_reply_v(req.id, invalid_params_code(), "Missing resource URI"@),
        Some(uri) => if uri == "weather://recent-queries"@ {
            ActionV::Reply(
                ResponseV {
                    id: req.id,
                    body: ResponseBodyV::ResourceRead { text: weather_recent_v() },
                },
            )
        } else if uri == "search://recent-queries"@ {
            ActionV::Reply(
                ResponseV {
                    id: req.id,
                    body: ResponseBodyV::ResourceRead { text: search_recent_v() },
                },
            )
        } else {
            error_reply_v(req.id, invalid_params_code(), "Unknown resource URI: "@ + uri)
        },
    }
}

/// The decision for a `prompts/get` request: each catalog prompt renders
/// its two-message template from its one required argument; a missing
/// name, an unknown name or a missing argument is a protocol error.
pub open spec fn prompts_get_spec(req: RequestFieldsV) -> ActionV {
    match req.params.name {
        None => error_reply_v(req.id, invalid_params_code(), "Missing prompt name"@),
        Some(name) => if name == "weather_advisor"@ {
            match req.params.arguments.weather_data {
                None => error_reply_v(
                    req.id,
                    invalid_params_code(),
                    "Missing weather_data parameter"@,
                ),
                Some(data) => ActionV::Reply(
                    ResponseV {
                        id: req.id,
                        body: ResponseBodyV::PromptGet {
                            description: "天气顾问专业分析"@,
                            system: weather_advisor_system_v(),
                            user: "请分析以下天气数据并给出建议：\n"@ + data,
                        },
                    },
                ),
            }
        } else if name == "search_analyzer"@ {
            match req.params.arguments.search_results {
                None => error_reply_v(
                    req.id,
                    invalid_params_code(),
                    "Missing search_results parameter"@,
                ),
                Some(data) => ActionV::Reply(
                    ResponseV {
                        id: req.id,
                        body: ResponseBodyV::PromptGet {
                            description: "搜索结果专业分析"@,
                            system: search_analyzer_system_v(),
                            user: "请分析以下搜索结果：\n"@ + data,
                        },
                    },
                ),
            }
        } else {
            error_reply_v(req.id, invalid_params_code(), "Unknown prompt: "@ + name)
        },
    }
}

/// The whole dispatch: a pure name-to-handler lookup over the fixed
/// method set, an unrecognized method answered with the method-not-found
/// error, and every decision carrying the request's identifier.
pub open spec fn handle_spec(server: SimpleMcpServerV, req: RequestFieldsV) -> ActionV {
    match method_of(req.method) {
        Method::Initialize => ActionV::Reply(
            ResponseV { id: req.id, body: ResponseBodyV::Initialize },
        ),
        Method::ToolsList => ActionV::Reply(
            ResponseV { id: req.id, body: ResponseBodyV::ToolsList },
        ),
        Method::ToolsCall => tools_call_spec(server, req),
        Method::ResourcesList => ActionV::Reply(
            ResponseV { id: req.id, body: ResponseBodyV::ResourcesList },
        ),
        Method::ResourcesRead => resources_read_spec(req),
        Method::PromptsList => ActionV::Reply(
            ResponseV { id: req.id, body: ResponseBodyV::PromptsList },
        ),
        Method::PromptsGet => prompts_get_spec(req),
        Method::Unknown => error_reply_v(req.id, method_not_found_code(), "Method not found"@),
    }
}

/// An immediate protocol-error reply.
fn err_action(id: Option<u64>, code: i64, message: String) -> (r: Action)
    ensures
        r@ == error_reply_v(id, code as int, message@),
{
    Action::Reply(Response { id, body: ResponseBody::Error { code, message } })
}

/// A prefixed message, such as an error naming its subject.
fn prefixed(prefix: &str, rest: &str) -> (r: String)
    ensures
        r@ == prefix@ + rest@,
{
    let mut s = prefix.to_owned();
    s.append(rest);
    s
}

/// What a tool call answers when the weather provider has returned:
/// success wraps the rendered report, failure wraps the provider's
/// message with `is_error` set — never a protocol-level error.
pub open spec fn weather_call_response_v(
    id: Option<u64>,
    outcome: Result<WeatherResponseV, Seq<char>>,
) -> ResponseV {
    match outcome {
        Ok(w) => ResponseV {
            id,
            body: ResponseBodyV::ToolCall {
                text: "天气信息获取成功：\n"@ + weather_report_v(w),
                is_error: false,
            },
        },
        Err(e) => ResponseV {
            id,
            body: ResponseBodyV::ToolCall { text: "Weather API error: "@ + e, is_error: true },
        },
    }
}

/// The view of a weather provider outcome.
pub open spec fn weather_outcome_v(outcome: Result<WeatherResponse, String>) -> Result<
    WeatherResponseV,
    Seq<char>,
> {
    match outcome {
        Ok(w) => Ok(w@),
        Err(e) => Err(e@),
    }
}

/// What a tool call answers when the search provider has returned:
/// success wraps the first three hits rendered, failure wraps the
/// provider's message with `is_error` set — never a protocol-level error.
pub open spec fn search_call_response_v(
    id: Option<u64>,
    outcome: Result<Seq<SearchResultV>, Seq<char>>,
) -> ResponseV {
    match outcome {
        Ok(results) => ResponseV {
            id,
            body: ResponseBodyV::ToolCall {
                text: "搜索结果：\n"@ + format_results_v(results, 3),
                is_error: false,
            },
        },
        Err(e) => ResponseV {
            id,
            body: ResponseBodyV::ToolCall { text: "Search API error: "@ + e, is_error: true },
        },
    }
}

/// The view of a search provider outcome.
pub open spec fn search_outcome_v(outcome: Result<Vec<SearchResult>, String>) -> Result<
    Seq<SearchResultV>,
    Seq<char>,
> {
    match outcome {
        Ok(results) => Ok(results@.map_values(|r: SearchResult| r@)),
        Err(e) => Err(e@),
    }
}

/// What a line produces: nothing (a malformed line), or a decision.
pub enum LineOutcome {
    Silent,
    Act(Action),
}

pub enum LineOutcomeV {
    Silent,
    Act(ActionV),
}

impl View for LineOutcome {
    type V = LineOutcomeV;

    open spec fn view(&self) -> LineOutcomeV {
        match self {
            LineOutcome::Silent => LineOutcomeV::Silent,
            LineOutcome::Act(a) => LineOutcomeV::Act(a@),
        }
    }
}

impl SimpleMcpServer {
    /// A server over the two provider credentials.
    pub fn new(amap_key: String, serper_key: String) -> (r: SimpleMcpServer)
        ensures
            r@ == (SimpleMcpServerV { amap_key: amap_key@, serper_key: serper_key@ }),
    {
        SimpleMcpServer { amap_key, serper_key }
    }

    /// Dispatches one decoded request. The decision is a pure function of
    /// the credentials and the request, and always carries the request's
    /// identifier.
    pub fn handle_message(&self, req: &RequestFields) -> (r: Action)
        ensures
            r@ == handle_spec(self@, req@),
            action_id(r@) == req@.id,
    {
        let method = parse_method(req.method.as_str());
        match method {
            Method::Initialize => Action::Reply(
                Response { id: req.id, body: ResponseBody::Initialize },
            ),
            Method::ToolsList => Action::Reply(
                Response { id: req.id, body: ResponseBody::ToolsList },
            ),
            Method::ToolsCall => self.handle_call_tool(req),
            Method::ResourcesList => Action::Reply(
                Response { id: req.id, body: ResponseBody::ResourcesList },
            ),
            Method::ResourcesRead => self.handle_read_resource(req),
            Method::PromptsList => Action::Reply(
                Response { id: req.id, body: ResponseBody::PromptsList },
            ),
            Method::PromptsGet => self.handle_get_prompt(req),
            Method::Unknown => err_action(req.id, -32601, "Method not found".to_owned()),
        }
    }

    fn handle_call_tool(&self, req: &RequestFields) -> (r: Action)
        requires
            method_of(req@.method) == Method::ToolsCall,
        ensures
            r@ == handle_spec(self@, req@),
    {
        match &req.params.name {
            None => err_action(req.id, -32602, "Missing tool name".to_owned()),
            Some(name) => if str_eq_str(name.as_str(), "get_weather") {
                match &req.params.arguments.location {
                    None => err_action(req.id, -32602, "Missing location parameter".to_owned()),
                    Some(location) => Action::CallWeather {
                        id: req.id,
                        location: location.clone(),
                        api_key: self.amap_key.clone(),
                    },
                }
            } else if str_eq_str(name.as_str(), "search") {
                match &req.params.arguments.query {
                    None => err_action(req.id, -32602, "Missing query parameter".to_owned()),
                    Some(query) => Action::CallSearch {
                        id: req.id,
                        query: query.clone(),
                        api_key: self.serper_key.clone(),
                    },
                }
            } else {
                err_action(req.id, -32602, prefixed("Unknown tool: ", name.as_str()))
            },
        }
    }

    fn handle_read_resource(&self, req: &RequestFields) -> (r: Action)
        requires
            method_of(req@.method) == Method::ResourcesRead,
        ensures
            r@ == handle_spec(self@, req@),
    {
        match &req.params.uri {
            None => err_action(req.id, -32602, "Missing resource URI".to_owned()),
            Some(uri) => if str_eq_str(uri.as_str(), "weather://recent-queries") {
                Action::Reply(
                    Response {
                        id: req.id,
                        body: ResponseBody::ResourceRead {
                            text: "{\"recent_queries\": [\"上海\", \"北京\", \"深圳\"]}".to_owned(),
                        },
                    },
                )
            } else if str_eq_str(uri.as_str(), "search://recent-queries") {
                Action::Reply(
                    Response {
                        id: req.id,
                        body: ResponseBody::ResourceRead {
                            text:
                                "{\"recent_queries\": [\"2025年编程语言排行榜\", \"MCP协议\", \"Rust开发\"]}".to_owned(),
                        },
                    },
                )
            } else {
                err_action(req.id, -32602, prefixed("Unknown resource URI: ", uri.as_str()))
            },
        }
    }

    fn handle_get_prompt(&self, req: &RequestFields) -> (r: Action)
        requires
            method_of(req@.method) == Method::PromptsGet,
        ensures
            r@ == handle_spec(self@, req@),
    {
        match &req.params.name {
            None => err_action(req.id, -32602, "Missing prompt name".to_owned()),
            Some(name) => if str_eq_str(name.as_str(), "weather_advisor") {
                match &req.params.arguments.weather_data {
                    None => err_action(
                        req.id,
                        -32602,
                        "Missing weather_data parameter".to_owned(),
                    ),
                    Some(data) => Action::Reply(
                        Response {
                            id: req.id,
                            body: ResponseBody::PromptGet {
                                description: "天气顾问专业分析".to_owned(),
                                system:
                                    "你是一个专业的天气顾问，请根据获取到的天气数据给出详细的穿衣建议。注意：\n1. 分析温度范围和温差\n2. 考虑天气现象（晴、阴、雨等）\n3. 考虑风力大小\n4. 给出具体的穿衣层次建议\n5. 如有必要，提醒是否需要携带雨具或防晒用品".to_owned(),
                                user: prefixed("请分析以下天气数据并给出建议：\n", data.as_str()),
                            },
                        },
                    ),
                }
            } else if str_eq_str(name.as_str(), "search_analyzer") {
                match &req.params.arguments.search_results {
                    None => err_action(
                        req.id,
                        -32602,
                        "Missing search_results parameter".to_owned(),
                    ),
                    Some(data) => Action::Reply(
                        Response {
                            id: req.id,
                            body: ResponseBody::PromptGet {
                                description: "搜索结果专业分析".to_owned(),
                                system:
                                    "你是一个专业的信息分析师，请根据搜索结果给出准确、简洁的回答。".to_owned(),
                                user: prefixed("请分析以下搜索结果：\n", data.as_str()),
                            },
                        },
                    ),
                }
            } else {
                err_action(req.id, -32602, prefixed("Unknown prompt: ", name.as_str()))
            },
        }
    }

    /// Runs the whole per-line pipeline: a line that is not one JSON
    /// document produces nothing, and every other line produces the
    /// dispatch decision for the request decoded from it.
    pub fn process_line(&self, line: &str) -> (r: LineOutcome)
        ensures
            (r is Silent) <==> !json_document(line@),
            (r@ matches LineOutcomeV::Act(a) ==> exists|req: RequestFieldsV|
                a == #[trigger] handle_spec(self@, req) && action_id(a) == req.id),
    {
        match parse_json(line) {
            None => LineOutcome::Silent,
            Some(v) => {
                let req = decode_request(&v);
                let action = self.handle_message(&req);
                proof {
                    assert(action@ == handle_spec(self@, req@));
                }
                LineOutcome::Act(action)
            },
        }
    }
}

/// Turns a weather provider outcome into the tool-call response.
pub fn finish_weather(id: Option<u64>, outcome: Result<WeatherResponse, String>) -> (r: Response)
    ensures
        r@ == weather_call_response_v(id, weather_outcome_v(outcome)),
{
    match outcome {
        Ok(w) => {
            let mut text = "天气信息获取成功：\n".to_owned();
            let report = weather_report(&w);
            text.append(report.as_str());
            Response { id, body: ResponseBody::ToolCall { text, is_error: false } }
        },
        Err(e) => {
            let text = prefixed("Weather API error: ", e.as_str());
            Response { id, body: ResponseBody::ToolCall { text, is_error: true } }
        },
    }
}

/// Turns a search provider outcome into the tool-call response.
pub fn finish_search(id: Option<u64>, outcome: Result<Vec<SearchResult>, String>) -> (r: Response)
    ensures
        r@ == search_call_response_v(id, search_outcome_v(outcome)),
{
    match outcome {
        Ok(results) => {
            let mut text = "搜索结果：\n".to_owned();
            let formatted = format_results(results.as_slice(), 3);
            text.append(formatted.as_str());
            Response { id, body: ResponseBody::ToolCall { text, is_error: false } }
        },
        Err(e) => {
            let text = prefixed("Search API error: ", e.as_str());
            Response { id, body: ResponseBody::ToolCall { text, is_error: true } }
        },
    }
}

/// Every decision — a reply, a provider call, an error — carries the
/// identifier of the request that caused it, whatever the request holds.
pub proof fn lemma_response_id_echoed(server: SimpleMcpServerV, req: RequestFieldsV)
    ensures
        action_id(handle_spec(server, req)) == req.id,
{
}

/// A `tools/call` naming a tool outside the catalog is answered with a
/// protocol error naming it — never a provider call, never silence.
pub proof fn lemma_unknown_tool_is_protocol_error(
    server: SimpleMcpServerV,
    req: RequestFieldsV,
    name: Seq<char>,
)
    requires
        method_of(req.method) == Method::ToolsCall,
        req.params.name == Some(name),
        name != "get_weather"@,
        name != "search"@,
    ensures
        handle_spec(server, req) == error_reply_v(
            req.id,
            invalid_params_code(),
            "Unknown tool: "@ + name,
        ),
{
}

/// A `tools/call` of the weather tool without its required location
/// argument is answered with a protocol error.
pub proof fn lemma_missing_location_is_protocol_error(
    server: SimpleMcpServerV,
    req: RequestFieldsV,
)
    requires
        method_of(req.method) == Method::ToolsCall,
        req.params.name == Some("get_weather"@),
        req.params.arguments.location is None,
    ensures
        handle_spec(server, req) == error_reply_v(
            req.id,
            invalid_params_code(),
            "Missing location parameter"@,
        ),
{
}

/// A failing weather provider is reported inside a successful response,
/// with the error flag set — never as a protocol-level error.
pub proof fn lemma_weather_failure_reports_in_band(id: Option<u64>, e: Seq<char>)
    ensures
        weather_call_response_v(id, Err(e)) == (ResponseV {
            id,
            body: ResponseBodyV::ToolCall { text: "Weather API error: "@ + e, is_error: true },
        }),
{
}

/// A search that returned no hits is still a success: the error flag is
/// clear and the content carries the no-results sentence.
pub proof fn lemma_empty_search_is_no_results(id: Option<u64>)
    ensures
        search_call_response_v(id, Ok(Seq::empty())) == (ResponseV {
            id,
            body: ResponseBodyV::ToolCall {
                text: "搜索结果：\n"@ + crate::serper::no_results_v(),
                is_error: false,
            },
        }),
{
    assert(format_results_v(Seq::empty(), 3) == crate::serper::no_results_v());
}

/// A request whose method is outside the method set is answered with the
/// method-not-found error code.
pub proof fn lemma_unknown_method_code(server: SimpleMcpServerV, req: RequestFieldsV)
    requires
        method_of(req.method) == Method::Unknown,
    ensures
        handle_spec(server, req) == error_reply_v(
            req.id,
            method_not_found_code(),
            "Method not found"@,
        ),
{
}

/// Whether two decisions are replies that carry the same body and echo
/// their own request's identifier.
pub open spec fn same_list_reply(
    a1: ActionV,
    a2: ActionV,
    r1: RequestFieldsV,
    r2: RequestFieldsV,
) -> bool {
    match (a1, a2) {
        (ActionV::Reply(p1), ActionV::Reply(p2)) => p1.body == p2.body && p1.id == r1.id
            && p2.id == r2.id,
        _ => false,
    }
}

/// The catalog listings are stable: any two requests for the same
/// listing method get replies with identical bodies, whatever else the
/// requests hold and in whatever order they come.
pub proof fn lemma_list_catalogs_stable(
    server: SimpleMcpServerV,
    r1: RequestFieldsV,
    r2: RequestFieldsV,
)
    requires
        method_of(r1.method) == method_of(r2.method),
        method_of(r1.method) == Method::ToolsList || method_of(r1.method)
            == Method::ResourcesList || method_of(r1.method) == Method::PromptsList,
    ensures
        same_list_reply(handle_spec(server, r1), handle_spec(server, r2), r1, r2),
{
}

} // verus!
