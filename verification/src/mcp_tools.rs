//! The in-process variant of the tool server: the same catalogs and the
//! same tool dispatch, called directly rather than over the wire.

use vstd::prelude::*;
use vstd::string::StringExecFns;
use crate::amap::{weather_report, weather_report_v, WeatherResponse};
use crate::catalog::{
    prompts_catalog, prompts_catalog_v, resources_catalog, resources_catalog_v, tools_catalog,
    tools_catalog_v, McpPrompt, McpResource, McpTool,
};
use crate::protocol::{ArgFields, ArgFieldsV};
use crate::serper::{format_results, format_results_v, SearchResult};
use crate::server::{search_analyzer_system_v, weather_advisor_system_v, weather_recent_v};
use crate::text::str_eq_str;
use crate::tools::{push_fn_def, tool_of, tools_definition_v, ToolKind};

verus! {

/// What one tool call returns: the content to relay, and the system
/// message to pair with it where the tool succeeded.
pub struct McpToolResult {
    pub content: String,
    pub system_prompt: Option<String>,
}

/// The in-process tool server: the two provider credentials and the
/// three catalogs, all immutable after construction.
pub struct DeepSeekMcpTools {
    amap_key: String,
    serper_key: String,
    tools: Vec<McpTool>,
    resources: Vec<McpResource>,
    prompts: Vec<McpPrompt>,
}

/// The plan for one tool call: which provider to call, with what, and
/// with which credential.
pub enum ToolCallPlan {
    Weather { location: String, api_key: String },
    Search { query: String, api_key: String },
}

pub enum ToolCallPlanV {
    Weather { location: Seq<char>, api_key: Seq<char> },
    Search { query: Seq<char>, api_key: Seq<char> },
}

impl View for ToolCallPlan {
    type V = ToolCallPlanV;

    open spec fn view(&self) -> ToolCallPlanV {
        match self {
            ToolCallPlan::Weather { location, api_key } => ToolCallPlanV::Weather {
                location: location@,
                api_key: api_key@,
            },
            ToolCallPlan::Search { query, api_key } => ToolCallPlanV::Search {
                query: query@,
                api_key: api_key@,
            },
        }
    }
}

/// The view of a plan-or-error result.
pub open spec fn plan_result_v(r: Result<ToolCallPlan, String>) -> Result<
    ToolCallPlanV,
    Seq<char>,
> {
    match r {
        Ok(p) => Ok(p@),
        Err(e) => Err(e@),
    }
}

/// The decision for one tool call: a known tool with its required
/// argument plans a provider call; a missing argument or an unknown name
/// is an error.
pub open spec fn call_tool_plan_spec(
    amap_key: Seq<char>,
    serper_key: Seq<char>,
    name: Seq<char>,
    args: ArgFieldsV,
) -> Result<ToolCallPlanV, Seq<char>> {
    match tool_of(name) {
        Some(ToolKind::Weather) => match args.location {
            Some(location) => Ok(ToolCallPlanV::Weather { location, api_key: amap_key }),
            None => Err("Missing location parameter"@),
        },
        Some(ToolKind::Search) => match args.query {
            Some(query) => Ok(ToolCallPlanV::Search { query, api_key: serper_key }),
            None => Err("Missing query parameter"@),
        },
        None => Err("Unknown tool: "@ + name),
    }
}

/// The static content behind the recent search queries resource of this
/// variant.
pub open spec fn mcp_search_recent_v() -> Seq<char> {
    "{\"recent_queries\": [\"2025年编程语言排行榜\", \"天气查询\", \"MCP协议\"]}"@
}

/// The view of a string-or-error result.
pub open spec fn str_result_v(r: Result<String, String>) -> Result<Seq<char>, Seq<char>> {
    match r {
        Ok(s) => Ok(s@),
        Err(e) => Err(e@),
    }
}

/// What `read_resource` returns for each URI.
pub open spec fn read_resource_spec(uri: Seq<char>) -> Result<Seq<char>, Seq<char>> {
    if uri == "weather://recent-queries"@ {
        Ok(weather_recent_v())
    } else if uri == "search://recent-queries"@ {
        Ok(mcp_search_recent_v())
    } else {
        Err("Unknown resource URI: "@ + uri)
    }
}

/// What `get_prompt` returns: the system and user messages of the named
/// template, or the error naming what was missing or unknown.
pub open spec fn get_prompt_spec(name: Seq<char>, args: ArgFieldsV) -> Result<
    (Seq<char>, Seq<char>),
    Seq<char>,
> {
    if name == "weather_advisor"@ {
        match args.weather_data {
            Some(data) => Ok(
                (weather_advisor_system_v(), "请分析以下天气数据并给出建议：\n"@ + data),
            ),
            None => Err("Missing weather_data parameter"@),
        }
    } else if name == "search_analyzer"@ {
        match args.search_results {
            Some(data) => Ok(
                (search_analyzer_system_v(), "请分析以下搜索结果：\n"@ + data),
            ),
            None => Err("Missing search_results parameter"@),
        }
    } else {
        Err("Unknown prompt: "@ + name)
    }
}

/// Whether a two-message result agrees with what the prompt spec says.
pub open spec fn prompt_result_matches(
    r: Result<Vec<String>, String>,
    s: Result<(Seq<char>, Seq<char>), Seq<char>>,
) -> bool {
    match (r, s) {
        (Ok(v), Ok(p)) => v@.len() == 2 && v@[0]@ == p.0 && v@[1]@ == p.1,
        (Err(e), Err(m)) => e@ == m,
        _ => false,
    }
}

/// A prefixed message, such as an error naming its subject.
fn prefixed(prefix: &str, rest: &str) -> (r: String)
    ensures
        r@ == prefix@ + rest@,
{
    let mut s = prefix.to_owned();
    s.append(rest);
    s
}

impl DeepSeekMcpTools {
    /// The construction invariant: the catalogs held are the fixed ones.
    pub closed spec fn wf(self) -> bool {
        self.tools@.map_values(|t: McpTool| t@) == tools_catalog_v()
            && self.resources@.map_values(|r: McpResource| r@) == resources_catalog_v()
            && self.prompts@.map_values(|p: McpPrompt| p@) == prompts_catalog_v()
    }

    /// The weather credential held.
    pub closed spec fn amap_key_v(self) -> Seq<char> {
        self.amap_key@
    }

    /// The search credential held.
    pub closed spec fn serper_key_v(self) -> Seq<char> {
        self.serper_key@
    }

    /// An in-process tool server over the two provider credentials,
    /// holding the fixed catalogs.
    pub fn new(amap_key: String, serper_key: String) -> (r: DeepSeekMcpTools)
        ensures
            r.wf(),
            r.amap_key_v() == amap_key@,
            r.serper_key_v() == serper_key@,
    {
        let tools = tools_catalog();
        let resources = resources_catalog();
        let prompts = prompts_catalog();
        proof {
            assert(tools@.map_values(|t: McpTool| t@) =~= tools_catalog_v());
            assert(resources@.map_values(|r: McpResource| r@) =~= resources_catalog_v());
            assert(prompts@.map_values(|p: McpPrompt| p@) =~= prompts_catalog_v());
        }
        DeepSeekMcpTools { amap_key, serper_key, tools, resources, prompts }
    }

    /// The tool catalog, as held.
    pub fn list_tools(&self) -> (r: &[McpTool])
        requires
            self.wf(),
        ensures
            r@.map_values(|t: McpTool| t@) == tools_catalog_v(),
    {
        self.tools.as_slice()
    }

    /// The resource catalog, as held.
    pub fn list_resources(&self) -> (r: &[McpResource])
        requires
            self.wf(),
        ensures
            r@.map_values(|x: McpResource| x@) == resources_catalog_v(),
    {
        self.resources.as_slice()
    }

    /// The prompt catalog, as held.
    pub fn list_prompts(&self) -> (r: &[McpPrompt])
        requires
            self.wf(),
        ensures
            r@.map_values(|p: McpPrompt| p@) == prompts_catalog_v(),
    {
        self.prompts.as_slice()
    }

    /// Decides one tool call: which provider to call with which
    /// credential, or the error to return.
    pub fn call_tool_plan(&self, name: &str, args: &ArgFields) -> (r: Result<ToolCallPlan, String>)
        ensures
            plan_result_v(r) == call_tool_plan_spec(
                self.amap_key_v(),
                self.serper_key_v(),
                name@,
                args@,
            ),
    {
        if str_eq_str(name, "get_weather") {
            match &args.location {
                Some(location) => Ok(
                    ToolCallPlan::Weather {
                        location: location.clone(),
                        api_key: self.amap_key.clone(),
                    },
                ),
                None => Err("Missing location parameter".to_owned()),
            }
        } else if str_eq_str(name, "search") {
            match &args.query {
                Some(query) => Ok(
                    ToolCallPlan::Search { query: query.clone(), api_key: self.serper_key.clone() },
                ),
                None => Err("Missing query parameter".to_owned()),
            }
        } else {
            Err(prefixed("Unknown tool: ", name))
        }
    }

    /// Reads one catalog resource's static content.
    pub fn read_resource(&self, uri: &str) -> (r: Result<String, String>)
        ensures
            str_result_v(r) == read_resource_spec(uri@),
    {
        if str_eq_str(uri, "weather://recent-queries") {
            Ok("{\"recent_queries\": [\"上海\", \"北京\", \"深圳\"]}".to_owned())
        } else if str_eq_str(uri, "search://recent-queries") {
            Ok(
                "{\"recent_queries\": [\"2025年编程语言排行榜\", \"天气查询\", \"MCP协议\"]}".to_owned(),
            )
        } else {
            Err(prefixed("Unknown resource URI: ", uri))
        }
    }

    /// Renders one prompt template: the system message then the user
    /// message built from the required argument.
    pub fn get_prompt(&self, name: &str, args: &ArgFields) -> (r: Result<Vec<String>, String>)
        ensures
            prompt_result_matches(r, get_prompt_spec(name@, args@)),
    {
        if str_eq_str(name, "weather_advisor") {
            match &args.weather_data {
                Some(data) => {
                    let mut v: Vec<String> = Vec::new();
                    v.push(
                        "你是一个专业的天气顾问，请根据获取到的天气数据给出详细的穿衣建议。注意：\n1. 分析温度范围和温差\n2. 考虑天气现象（晴、阴、雨等）\n3. 考虑风力大小\n4. 给出具体的穿衣层次建议\n5. 如有必要，提醒是否需要携带雨具或防晒用品".to_owned(),
                    );
                    v.push(prefixed("请分析以下天气数据并给出建议：\n", data.as_str()));
                    Ok(v)
                },
                None => Err("Missing weather_data parameter".to_owned()),
            }
        } else if str_eq_str(name, "search_analyzer") {
            match &args.search_results {
                Some(data) => {
                    let mut v: Vec<String> = Vec::new();
                    v.push(
                        "你是一个专业的信息分析师，请根据搜索结果给出准确、简洁的回答。".to_owned(),
                    );
                    v.push(prefixed("请分析以下搜索结果：\n", data.as_str()));
                    Ok(v)
                },
                None => Err("Missing search_results parameter".to_owned()),
            }
        } else {
            Err(prefixed("Unknown prompt: ", name))
        }
    }

    /// The function definitions for the tools held, as one JSON array.
    pub fn get_mcp_tools_definition(&self) -> (r: String)
        requires
            self.wf(),
        ensures
            r@ == tools_definition_v(),
    {
        let mut s = String::new();
        s.append("[");
        proof {
            let m = self.tools@.map_values(|t: McpTool| t@);
            assert(m.len() == self.tools@.len());
            assert(m == tools_catalog_v());
            assert(self.tools@.len() == 2);
            assert(m[0] == self.tools@[0]@);
            assert(m[1] == self.tools@[1]@);
        }
        push_fn_def(&mut s, &self.tools[0]);
        s.append(",");
        push_fn_def(&mut s, &self.tools[1]);
        s.append("]");
        proof {
            assert(s@ =~= tools_definition_v());
        }
        s
    }
}

/// Turns a weather provider outcome into this variant's tool result:
/// success carries the rendered report and the advisor system message,
/// failure carries the provider's message and no system message.
pub fn weather_mcp_result(outcome: Result<WeatherResponse, String>) -> (r: McpToolResult)
    ensures
        (match outcome {
            Ok(w) => r.content@ == "天气信息获取成功：\n"@ + weather_report_v(w@) && (
            r.system_prompt matches Some(p) && p@ == weather_advisor_system_v()),
            Err(e) => r.content@ == "Weather API error: "@ + e@ && r.system_prompt is None,
        }),
{
    match outcome {
        Ok(w) => {
            let mut content = "天气信息获取成功：\n".to_owned();
            let report = weather_report(&w);
            content.append(report.as_str());
            McpToolResult {
                content,
                system_prompt: Some(
                    "你是一个专业的天气顾问，请根据获取到的天气数据给出详细的穿衣建议。注意：\n1. 分析温度范围和温差\n2. 考虑天气现象（晴、阴、雨等）\n3. 考虑风力大小\n4. 给出具体的穿衣层次建议\n5. 如有必要，提醒是否需要携带雨具或防晒用品".to_owned(),
                ),
            }
        },
        Err(e) => McpToolResult {
            content: prefixed("Weather API error: ", e.as_str()),
            system_prompt: None,
        },
    }
}

/// Turns a search provider outcome into this variant's tool result:
/// success carries the first three hits rendered and the analyzer system
/// message, failure the provider's message and no system message.
pub fn search_mcp_result(outcome: Result<Vec<SearchResult>, String>) -> (r: McpToolResult)
    ensures
        (match outcome {
            Ok(results) => r.content@ == "搜索结果：\n"@ + format_results_v(
                results@.map_values(|x: SearchResult| x@),
                3,
            ) && (r.system_prompt matches Some(p) && p@ == search_analyzer_system_v()),
            Err(e) => r.content@ == "Search API error: "@ + e@ && r.system_prompt is None,
        }),
{
    match outcome {
        Ok(results) => {
            let mut content = "搜索结果：\n".to_owned();
            let formatted = format_results(results.as_slice(), 3);
            content.append(formatted.as_str());
            McpToolResult {
                content,
                system_prompt: Some(
                    "你是一个专业的信息分析师，请根据搜索结果给出准确、简洁的回答。".to_owned(),
                ),
            }
        },
        Err(e) => McpToolResult {
            content: prefixed("Search API error: ", e.as_str()),
            system_prompt: None,
        },
    }
}

} // verus!
