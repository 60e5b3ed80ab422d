//! The fixed catalogs the server exposes: two tools, two resources and two
//! prompts, immutable for the life of a process.

use vstd::prelude::*;

verus! {

/// Schema of a tool's input: one required string parameter.
pub struct ToolSchema {
    pub param_name: String,
    pub param_description: String,
}

pub struct ToolSchemaV {
    pub param_name: Seq<char>,
    pub param_description: Seq<char>,
}

impl View for ToolSchema {
    type V = ToolSchemaV;

    open spec fn view(&self) -> ToolSchemaV {
        ToolSchemaV { param_name: self.param_name@, param_description: self.param_description@ }
    }
}

/// A named, schema-described callable action.
pub struct McpTool {
    pub name: String,
    pub description: String,
    pub parameters: ToolSchema,
}

pub struct McpToolV {
    pub name: Seq<char>,
    pub description: Seq<char>,
    pub parameters: ToolSchemaV,
}

impl View for McpTool {
    type V = McpToolV;

    open spec fn view(&self) -> McpToolV {
        McpToolV {
            name: self.name@,
            description: self.description@,
            parameters: self.parameters@,
        }
    }
}

/// A named, URI-addressed readable data item.
pub struct McpResource {
    pub uri: String,
    pub name: String,
    pub description: String,
    pub mime_type: String,
}

pub struct McpResourceV {
    pub uri: Seq<char>,
    pub name: Seq<char>,
    pub description: Seq<char>,
    pub mime_type: Seq<char>,
}

impl View for McpResource {
    type V = McpResourceV;

    open spec fn view(&self) -> McpResourceV {
        McpResourceV {
            uri: self.uri@,
            name: self.name@,
            description: self.description@,
            mime_type: self.mime_type@,
        }
    }
}

/// One argument of a prompt template.
pub struct McpPromptArgument {
    pub name: String,
    pub description: String,
    pub required: bool,
}

pub struct McpPromptArgumentV {
    pub name: Seq<char>,
    pub description: Seq<char>,
    pub required: bool,
}

impl View for McpPromptArgument {
    type V = McpPromptArgumentV;

    open spec fn view(&self) -> McpPromptArgumentV {
        McpPromptArgumentV {
            name: self.name@,
            description: self.description@,
            required: self.required,
        }
    }
}

/// A named template producing a system and a user message.
pub struct McpPrompt {
    pub name: String,
    pub description: String,
    pub arguments: Vec<McpPromptArgument>,
}

pub struct McpPromptV {
    pub name: Seq<char>,
    pub description: Seq<char>,
    pub arguments: Seq<McpPromptArgumentV>,
}

impl View for McpPrompt {
    type V = McpPromptV;

    open spec fn view(&self) -> McpPromptV {
        McpPromptV {
            name: self.name@,
            description: self.description@,
            arguments: self.arguments@.map_values(|a: McpPromptArgument| a@),
        }
    }
}

/// The weather tool's descriptor.
pub open spec fn weather_tool_v() -> McpToolV {
    McpToolV {
        name: "get_weather"@,
        description: "获取指定城市的天气预报信息"@,
        parameters: ToolSchemaV {
            param_name: "location"@,
            param_description: "城市名称，例如：上海"@,
        },
    }
}

/// The search tool's descriptor.
pub open spec fn search_tool_v() -> McpToolV {
    McpToolV {
        name: "search"@,
        description: "使用Google搜索获取实时信息"@,
        parameters: ToolSchemaV { param_name: "query"@, param_description: "搜索查询词"@ },
    }
}

/// The tool catalog: exactly the weather tool then the search tool.
pub open spec fn tools_catalog_v() -> Seq<McpToolV> {
    seq![weather_tool_v(), search_tool_v()]
}

pub open spec fn weather_resource_v() -> McpResourceV {
    McpResourceV {
        uri: "weather://recent-queries"@,
        name: "Recent Weather Queries"@,
        description: "Recently queried weather locations"@,
        mime_type: "application/json"@,
    }
}

pub open spec fn search_resource_v() -> McpResourceV {
    McpResourceV {
        uri: "search://recent-queries"@,
        name: "Recent Search Queries"@,
        description: "Recently performed search queries"@,
        mime_type: "application/json"@,
    }
}

/// The resource catalog: the weather queries then the search queries.
pub open spec fn resources_catalog_v() -> Seq<McpResourceV> {
    seq![weather_resource_v(), search_resource_v()]
}

pub open spec fn weather_prompt_v() -> McpPromptV {
    McpPromptV {
        name: "weather_advisor"@,
        description: "专业的天气顾问提示模板"@,
        arguments: seq![
            McpPromptArgumentV {
                name: "weather_data"@,
                description: "天气数据JSON"@,
                required: true,
            },
        ],
    }
}

pub open spec fn search_prompt_v() -> McpPromptV {
    McpPromptV {
        name: "search_analyzer"@,
        description: "搜索结果分析师提示模板"@,
        arguments: seq![
            McpPromptArgumentV {
                name: "search_results"@,
                description: "搜索结果数据"@,
                required: true,
            },
        ],
    }
}

/// The prompt catalog: the weather advisor then the search analyzer.
pub open spec fn prompts_catalog_v() -> Seq<McpPromptV> {
    seq![weather_prompt_v(), search_prompt_v()]
}

/// Builds the tool catalog.
pub fn tools_catalog() -> (v: Vec<McpTool>)
    ensures
        v@.len() == 2,
        v@[0]@ == weather_tool_v(),
        v@[1]@ == search_tool_v(),
{
    let mut v: Vec<McpTool> = Vec::new();
    v.push(
        McpTool {
            name: "get_weather".to_owned(),
            description: "获取指定城市的天气预报信息".to_owned(),
            parameters: ToolSchema {
                param_name: "location".to_owned(),
                param_description: "城市名称，例如：上海".to_owned(),
            },
        },
    );
    v.push(
        McpTool {
            name: "search".to_owned(),
            description: "使用Google搜索获取实时信息".to_owned(),
            parameters: ToolSchema {
                param_name: "query".to_owned(),
                param_description: "搜索查询词".to_owned(),
            },
        },
    );
    v
}

/// Builds the resource catalog.
pub fn resources_catalog() -> (v: Vec<McpResource>)
    ensures
        v@.len() == 2,
        v@[0]@ == weather_resource_v(),
        v@[1]@ == search_resource_v(),
{
    let mut v: Vec<McpResource> = Vec::new();
    v.push(
        McpResource {
            uri: "weather://recent-queries".to_owned(),
            name: "Recent Weather Queries".to_owned(),
            description: "Recently queried weather locations".to_owned(),
            mime_type: "application/json".to_owned(),
        },
    );
    v.push(
        McpResource {
            uri: "search://recent-queries".to_owned(),
            name: "Recent Search Queries".to_owned(),
            description: "Recently performed search queries".to_owned(),
            mime_type: "application/json".to_owned(),
        },
    );
    v
}

/// Builds the prompt catalog.
pub fn prompts_catalog() -> (v: Vec<McpPrompt>)
    ensures
        v@.len() == 2,
        v@[0]@ == weather_prompt_v(),
        v@[1]@ == search_prompt_v(),
{
    let mut args_w: Vec<McpPromptArgument> = Vec::new();
    args_w.push(
        McpPromptArgument {
            name: "weather_data".to_owned(),
            description: "天气数据JSON".to_owned(),
            required: true,
        },
    );
    let mut args_s: Vec<McpPromptArgument> = Vec::new();
    args_s.push(
        McpPromptArgument {
            name: "search_results".to_owned(),
            description: "搜索结果数据".to_owned(),
            required: true,
        },
    );
    let mut v: Vec<McpPrompt> = Vec::new();
    v.push(
        McpPrompt {
            name: "weather_advisor".to_owned(),
            description: "专业的天气顾问提示模板".to_owned(),
            arguments: args_w,
        },
    );
    v.push(
        McpPrompt {
            name: "search_analyzer".to_owned(),
            description: "搜索结果分析师提示模板".to_owned(),
            arguments: args_s,
        },
    );
    proof {
        assert(v@[0]@.arguments =~= weather_prompt_v().arguments);
        assert(v@[1]@.arguments =~= search_prompt_v().arguments);
    }
    v
}

} // verus!
