//! The wire-level data model: the fields a request carries, the response
//! shapes the server produces, and the method set it dispatches over.

use vstd::prelude::*;
use crate::text::str_eq_str;

verus! {

/// The view of an optional owned string.
pub open spec fn view_opt(o: Option<String>) -> Option<Seq<char>> {
    match o {
        Some(s) => Some(s@),
        None => None,
    }
}

/// The string-valued tool arguments a request may carry.
pub struct ArgFields {
    pub location: Option<String>,
    pub query: Option<String>,
    pub weather_data: Option<String>,
    pub search_results: Option<String>,
}

pub struct ArgFieldsV {
    pub location: Option<Seq<char>>,
    pub query: Option<Seq<char>>,
    pub weather_data: Option<Seq<char>>,
    pub search_results: Option<Seq<char>>,
}

impl View for ArgFields {
    type V = ArgFieldsV;

    open spec fn view(&self) -> ArgFieldsV {
        ArgFieldsV {
            location: view_opt(self.location),
            query: view_opt(self.query),
            weather_data: view_opt(self.weather_data),
            search_results: view_opt(self.search_results),
        }
    }
}

/// The string-valued parameters a request may carry.
pub struct ParamFields {
    pub name: Option<String>,
    pub uri: Option<String>,
    pub arguments: ArgFields,
}

pub struct ParamFieldsV {
    pub name: Option<Seq<char>>,
    pub uri: Option<Seq<char>>,
    pub arguments: ArgFieldsV,
}

impl View for ParamFields {
    type V = ParamFieldsV;

    open spec fn view(&self) -> ParamFieldsV {
        ParamFieldsV {
            name: view_opt(self.name),
            uri: view_opt(self.uri),
            arguments: self.arguments@,
        }
    }
}

/// One decoded request: the identifier (absent or not an unsigned integer
/// becomes `None`), the method name (absent or not a string becomes the
/// empty string), and the parameter fields the handlers read.
pub struct RequestFields {
    pub id: Option<u64>,
    pub method: String,
    pub params: ParamFields,
}

pub struct RequestFieldsV {
    pub id: Option<u64>,
    pub method: Seq<char>,
    pub params: ParamFieldsV,
}

impl View for RequestFields {
    type V = RequestFieldsV;

    open spec fn view(&self) -> RequestFieldsV {
        RequestFieldsV { id: self.id, method: self.method@, params: self.params@ }
    }
}

/// The method set the server dispatches over.
#[derive(PartialEq, Eq, Structural, Clone, Copy, Debug)]
pub enum Method {
    Initialize,
    ToolsList,
    ToolsCall,
    ResourcesList,
    ResourcesRead,
    PromptsList,
    PromptsGet,
    Unknown,
}

/// The method a name selects; any unrecognized name is `Unknown`.
pub open spec fn method_of(m: Seq<char>) -> Method {
    if m == "initialize"@ {
        Method::Initialize
    } else if m == "tools/list"@ {
        Method::ToolsList
    } else if m == "tools/call"@ {
        Method::ToolsCall
    } else if m == "resources/list"@ {
        Method::ResourcesList
    } else if m == "resources/read"@ {
        Method::ResourcesRead
    } else if m == "prompts/list"@ {
        Method::PromptsList
    } else if m == "prompts/get"@ {
        Method::PromptsGet
    } else {
        Method::Unknown
    }
}

/// Resolves a method name.
pub fn parse_method(m: &str) -> (r: Method)
    ensures
        r == method_of(m@),
{
    if str_eq_str(m, "initialize") {
        Method::Initialize
    } else if str_eq_str(m, "tools/list") {
        Method::ToolsList
    } else if str_eq_str(m, "tools/call") {
        Method::ToolsCall
    } else if str_eq_str(m, "resources/list") {
        Method::ResourcesList
    } else if str_eq_str(m, "resources/read") {
        Method::ResourcesRead
    } else if str_eq_str(m, "prompts/list") {
        Method::PromptsList
    } else if str_eq_str(m, "prompts/get") {
        Method::PromptsGet
    } else {
        Method::Unknown
    }
}

/// The error code for a method outside the server's method set.
pub open spec fn method_not_found_code() -> int {
    -32601
}

/// The error code for a structurally invalid invocation: a missing required
/// parameter, or a tool, resource or prompt name outside the catalogs.
pub open spec fn invalid_params_code() -> int {
    -32602
}

/// The payload of a response.
pub enum ResponseBody {
    Initialize,
    ToolsList,
    ToolCall { text: String, is_error: bool },
    ResourcesList,
    ResourceRead { text: String },
    PromptsList,
    PromptGet { description: String, system: String, user: String },
    Error { code: i64, message: String },
}

pub enum ResponseBodyV {
    Initialize,
    ToolsList,
    ToolCall { text: Seq<char>, is_error: bool },
    ResourcesList,
    ResourceRead { text: Seq<char> },
    PromptsList,
    PromptGet { description: Seq<char>, system: Seq<char>, user: Seq<char> },
    Error { code: int, message: Seq<char> },
}

impl View for ResponseBody {
    type V = ResponseBodyV;

    open spec fn view(&self) -> ResponseBodyV {
        match self {
            ResponseBody::Initialize => ResponseBodyV::Initialize,
            ResponseBody::ToolsList => ResponseBodyV::ToolsList,
            ResponseBody::ToolCall { text, is_error } => ResponseBodyV::ToolCall {
                text: text@,
                is_error: *is_error,
            },
            ResponseBody::ResourcesList => ResponseBodyV::ResourcesList,
            ResponseBody::ResourceRead { text } => ResponseBodyV::ResourceRead { text: text@ },
            ResponseBody::PromptsList => ResponseBodyV::PromptsList,
            ResponseBody::PromptGet { description, system, user } => ResponseBodyV::PromptGet {
                description: description@,
                system: system@,
                user: user@,
            },
            ResponseBody::Error { code, message } => ResponseBodyV::Error {
                code: *code as int,
                message: message@,
            },
        }
    }
}

/// One response: the echoed request identifier and a payload, exactly one
/// of a result or an error.
pub struct Response {
    pub id: Option<u64>,
    pub body: ResponseBody,
}

pub struct ResponseV {
    pub id: Option<u64>,
    pub body: ResponseBodyV,
}

impl View for Response {
    type V = ResponseV;

    open spec fn view(&self) -> ResponseV {
        ResponseV { id: self.id, body: self.body@ }
    }
}

/// What the server decides to do with one request: reply at once, or call
/// a provider first and reply from its outcome.
pub enum Action {
    Reply(Response),
    CallWeather { id: Option<u64>, location: String, api_key: String },
    CallSearch { id: Option<u64>, query: String, api_key: String },
}

pub enum ActionV {
    Reply(ResponseV),
    CallWeather { id: Option<u64>, location: Seq<char>, api_key: Seq<char> },
    CallSearch { id: Option<u64>, query: Seq<char>, api_key: Seq<char> },
}

impl View for Action {
    type V = ActionV;

    open spec fn view(&self) -> ActionV {
        match self {
            Action::Reply(r) => ActionV::Reply(r@),
            Action::CallWeather { id, location, api_key } => ActionV::CallWeather {
                id: *id,
                location: location@,
                api_key: api_key@,
            },
            Action::CallSearch { id, query, api_key } => ActionV::CallSearch {
                id: *id,
                query: query@,
                api_key: api_key@,
            },
        }
    }
}

/// The request identifier an action answers or will answer.
pub open spec fn action_id(a: ActionV) -> Option<u64> {
    match a {
        ActionV::Reply(r) => r.id,
        ActionV::CallWeather { id, .. } => id,
        ActionV::CallSearch { id, .. } => id,
    }
}

} // verus!
