//! The tool registry essence: which tool a name selects, the result the
//! tool handlers hand to the chat orchestration, and the tool definitions
//! sent to the model's API.

use vstd::prelude::*;
use vstd::string::StringExecFns;
use crate::amap::{weather_json, weather_json_v, WeatherResponse};
use crate::catalog::{search_tool_v, tools_catalog, weather_tool_v, McpTool, McpToolV};
use crate::emit::{push_schema, schema_json};
use crate::serper::{format_results, format_results_v, results_view, SearchResult};
use crate::server::{search_analyzer_system_v, weather_advisor_system_v};
use crate::text::{escaped, push_escaped, str_eq_str};

verus! {

/// What one tool invocation hands back to the chat orchestration: the
/// content to relay and the system message to pair with it.
pub struct ToolResult {
    pub content: String,
    pub system_prompt: String,
}

/// The tools a name can select.
#[derive(PartialEq, Eq, Structural, Clone, Copy, Debug)]
pub enum ToolKind {
    Weather,
    Search,
}

/// The tool a name selects, if any.
pub open spec fn tool_of(name: Seq<char>) -> Option<ToolKind> {
    if name == "get_weather"@ {
        Some(ToolKind::Weather)
    } else if name == "search"@ {
        Some(ToolKind::Search)
    } else {
        None
    }
}

/// Resolves a tool name against the registry.
pub fn tool_for_name(name: &str) -> (r: Option<ToolKind>)
    ensures
        r == tool_of(name@),
{
    if str_eq_str(name, "get_weather") {
        Some(ToolKind::Weather)
    } else if str_eq_str(name, "search") {
        Some(ToolKind::Search)
    } else {
        None
    }
}

/// The weather handler's result: the compact provider document and the
/// advisor system message.
pub fn weather_tool_result(w: &WeatherResponse) -> (r: ToolResult)
    ensures
        r.content@ == weather_json_v(w@),
        r.system_prompt@ == weather_advisor_system_v(),
{
    ToolResult {
        content: weather_json(w),
        system_prompt:
            "你是一个专业的天气顾问，请根据获取到的天气数据给出详细的穿衣建议。注意：\n1. 分析温度范围和温差\n2. 考虑天气现象（晴、阴、雨等）\n3. 考虑风力大小\n4. 给出具体的穿衣层次建议\n5. 如有必要，提醒是否需要携带雨具或防晒用品".to_owned(),
    }
}

/// The search handler's result: the first three hits rendered and the
/// analyzer system message.
pub fn search_tool_result(results: &[SearchResult]) -> (r: ToolResult)
    ensures
        r.content@ == format_results_v(results_view(results), 3),
        r.system_prompt@ == search_analyzer_system_v(),
{
    ToolResult {
        content: format_results(results, 3),
        system_prompt:
            "你是一个专业的信息分析师，请根据搜索结果给出准确、简洁的回答。".to_owned(),
    }
}

/// The function-definition rendering of one tool, as the model's API
/// takes it.
pub open spec fn fn_def_json(t: McpToolV) -> Seq<char> {
    "{\"type\":\"function\",\"function\":{\"name\":\""@ + escaped(t.name)
        + "\",\"description\":\""@ + escaped(t.description) + "\",\"parameters\":"@
        + schema_json(t.parameters) + "}}"@
}

/// The function-definition array for the whole registry.
pub open spec fn tools_definition_v() -> Seq<char> {
    "["@ + fn_def_json(weather_tool_v()) + ","@ + fn_def_json(search_tool_v()) + "]"@
}

/// Appends the function-definition rendering of one tool.
pub(crate) fn push_fn_def(s: &mut String, t: &McpTool)
    ensures
        final(s)@ == old(s)@ + fn_def_json(t@),
{
    s.append("{\"type\":\"function\",\"function\":{\"name\":\"");
    push_escaped(s, t.name.as_str());
    s.append("\",\"description\":\"");
    push_escaped(s, t.description.as_str());
    s.append("\",\"parameters\":");
    push_schema(s, &t.parameters);
    s.append("}}");
    assert(final(s)@ =~= old(s)@ + fn_def_json(t@));
}

/// The function definitions for the two registry tools, as one JSON
/// array.
pub fn get_tools_definition() -> (r: String)
    ensures
        r@ == tools_definition_v(),
{
    let tools = tools_catalog();
    let mut s = String::new();
    s.append("[");
    push_fn_def(&mut s, &tools[0]);
    s.append(",");
    push_fn_def(&mut s, &tools[1]);
    s.append("]");
    proof {
        assert(s@ =~= tools_definition_v());
    }
    s
}

} // verus!
