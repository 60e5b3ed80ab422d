use deepseek_agent::amap::{
    weather_json, weather_report, weather_response_ok, Cast, Forecast, WeatherResponse,
};
use deepseek_agent::mcp_tools::{search_mcp_result, weather_mcp_result, DeepSeekMcpTools, ToolCallPlan};
use deepseek_agent::protocol::ArgFields;
use deepseek_agent::serper::{
    format_results, organic_to_results, OrganicResult, SearchParameters, SearchResponse,
    SearchResult,
};
use deepseek_agent::tools::{get_tools_definition, search_tool_result, tool_for_name, weather_tool_result, ToolKind};

fn sample_cast() -> Cast {
    Cast {
        date: "2025-01-01".to_string(),
        week: "3".to_string(),
        dayweather: "晴".to_string(),
        nightweather: "多云".to_string(),
        daytemp: "8".to_string(),
        nighttemp: "2".to_string(),
        daywind: "北".to_string(),
        nightwind: "北".to_string(),
        daypower: "1-3".to_string(),
        nightpower: "1-3".to_string(),
        daytemp_float: "8.0".to_string(),
        nighttemp_float: "2.0".to_string(),
    }
}

fn sample_weather() -> WeatherResponse {
    WeatherResponse {
        status: "1".to_string(),
        count: "1".to_string(),
        info: "OK".to_string(),
        infocode: "10000".to_string(),
        forecasts: vec![Forecast {
            city: "上海市".to_string(),
            adcode: "310000".to_string(),
            province: "上海".to_string(),
            reporttime: "2025-01-01 08:00:00".to_string(),
            casts: vec![sample_cast()],
        }],
    }
}

fn args() -> ArgFields {
    ArgFields { location: None, query: None, weather_data: None, search_results: None }
}

#[test]
fn format_results_empty_gives_sentinel() {
    let out = format_results(&[], 3);
    assert_eq!(out, "没有找到相关结果。");
}

#[test]
fn format_results_zero_max_gives_sentinel() {
    let results = vec![SearchResult {
        title: "t".to_string(),
        link: "l".to_string(),
        snippet: "s".to_string(),
    }];
    assert_eq!(format_results(&results, 0), "没有找到相关结果。");
}

#[test]
fn format_results_exact_rendering() {
    let results = vec![
        SearchResult {
            title: "Rust".to_string(),
            link: "https://a".to_string(),
            snippet: "lang".to_string(),
        },
        SearchResult {
            title: "Verus".to_string(),
            link: "https://b".to_string(),
            snippet: "proofs".to_string(),
        },
    ];
    let expected = "1. Rust\n   链接: https://a\n   摘要: lang\n\n2. Verus\n   链接: https://b\n   摘要: proofs\n";
    assert_eq!(format_results(&results, 3), expected);
}

#[test]
fn weather_report_is_indented_and_ordered() {
    let w = sample_weather();
    let report = weather_report(&w);
    let expected = "{\n  \"status\": \"1\",\n  \"count\": \"1\",\n  \"info\": \"OK\",\n  \"infocode\": \"10000\",\n  \"forecasts\": [\n    {\n      \"city\": \"上海市\",\n      \"adcode\": \"310000\",\n      \"province\": \"上海\",\n      \"reporttime\": \"2025-01-01 08:00:00\",\n      \"casts\": [\n        {\n          \"date\": \"2025-01-01\",\n          \"week\": \"3\",\n          \"dayweather\": \"晴\",\n          \"nightweather\": \"多云\",\n          \"daytemp\": \"8\",\n          \"nighttemp\": \"2\",\n          \"daywind\": \"北\",\n          \"nightwind\": \"北\",\n          \"daypower\": \"1-3\",\n          \"nightpower\": \"1-3\",\n          \"daytemp_float\": \"8.0\",\n          \"nighttemp_float\": \"2.0\"\n        }\n      ]\n    }\n  ]\n}";
    assert_eq!(report, expected);
    let parsed: serde_json::Value = serde_json::from_str(&report).unwrap();
    assert_eq!(parsed.get("status").unwrap().as_str().unwrap(), "1");
    let casts = parsed.get("forecasts").unwrap().as_array().unwrap()[0]
        .get("casts")
        .unwrap()
        .as_array()
        .unwrap();
    assert_eq!(casts[0].get("date").unwrap().as_str().unwrap(), "2025-01-01");
}

#[test]
fn weather_report_empty_forecasts() {
    let w = WeatherResponse {
        status: "1".to_string(),
        count: "0".to_string(),
        info: "OK".to_string(),
        infocode: "10000".to_string(),
        forecasts: Vec::new(),
    };
    let report = weather_report(&w);
    let expected = "{\n  \"status\": \"1\",\n  \"count\": \"0\",\n  \"info\": \"OK\",\n  \"infocode\": \"10000\",\n  \"forecasts\": []\n}";
    assert_eq!(report, expected);
}

#[test]
fn weather_json_is_compact_and_parses() {
    let w = sample_weather();
    let compact = weather_json(&w);
    assert!(!compact.contains('\n'));
    let parsed: serde_json::Value = serde_json::from_str(&compact).unwrap();
    assert_eq!(
        parsed.get("forecasts").unwrap().as_array().unwrap()[0]
            .get("city")
            .unwrap()
            .as_str()
            .unwrap(),
        "上海市"
    );
    let expected = "{\"status\":\"1\",\"count\":\"1\",\"info\":\"OK\",\"infocode\":\"10000\",\"forecasts\":[{\"city\":\"上海市\",\"adcode\":\"310000\",\"province\":\"上海\",\"reporttime\":\"2025-01-01 08:00:00\",\"casts\":[{\"date\":\"2025-01-01\",\"week\":\"3\",\"dayweather\":\"晴\",\"nightweather\":\"多云\",\"daytemp\":\"8\",\"nighttemp\":\"2\",\"daywind\":\"北\",\"nightwind\":\"北\",\"daypower\":\"1-3\",\"nightpower\":\"1-3\",\"daytemp_float\":\"8.0\",\"nighttemp_float\":\"2.0\"}]}]}";
    assert_eq!(compact, expected);
}

#[test]
fn weather_response_status_check() {
    assert!(weather_response_ok(&sample_weather()));
    let mut bad = sample_weather();
    bad.status = "0".to_string();
    assert!(!weather_response_ok(&bad));
}

#[test]
fn organic_results_keep_order_and_fields() {
    let resp = SearchResponse {
        search_parameters: SearchParameters {
            q: "q".to_string(),
            search_type: "search".to_string(),
        },
        organic: vec![
            OrganicResult {
                title: "a".to_string(),
                link: "la".to_string(),
                snippet: "sa".to_string(),
                position: 1,
            },
            OrganicResult {
                title: "b".to_string(),
                link: "lb".to_string(),
                snippet: "sb".to_string(),
                position: 2,
            },
        ],
    };
    let results = organic_to_results(&resp);
    assert_eq!(results.len(), 2);
    assert_eq!(results[0].title, "a");
    assert_eq!(results[1].link, "lb");
    assert_eq!(results[1].snippet, "sb");
}

#[test]
fn tool_names_resolve() {
    assert_eq!(tool_for_name("get_weather"), Some(ToolKind::Weather));
    assert_eq!(tool_for_name("search"), Some(ToolKind::Search));
    assert_eq!(tool_for_name("nope"), None);
}

#[test]
fn tools_definition_lists_both_functions() {
    let defs = get_tools_definition();
    let v: serde_json::Value = serde_json::from_str(&defs).unwrap();
    let arr = v.as_array().unwrap();
    assert_eq!(arr.len(), 2);
    assert_eq!(arr[0].get("type").unwrap().as_str().unwrap(), "function");
    assert_eq!(
        arr[0].get("function").unwrap().get("name").unwrap().as_str().unwrap(),
        "get_weather"
    );
    assert_eq!(
        arr[1].get("function").unwrap().get("name").unwrap().as_str().unwrap(),
        "search"
    );
}

#[test]
fn toolkit_catalogs_and_definition() {
    let t = DeepSeekMcpTools::new("ak".to_string(), "sk".to_string());
    assert_eq!(t.list_tools().len(), 2);
    assert_eq!(t.list_tools()[0].name, "get_weather");
    assert_eq!(t.list_resources().len(), 2);
    assert_eq!(t.list_prompts().len(), 2);
    assert_eq!(t.get_mcp_tools_definition(), get_tools_definition());
}

#[test]
fn toolkit_call_tool_plans() {
    let t = DeepSeekMcpTools::new("ak".to_string(), "sk".to_string());
    let mut a = args();
    a.location = Some("北京".to_string());
    match t.call_tool_plan("get_weather", &a) {
        Ok(ToolCallPlan::Weather { location, api_key }) => {
            assert_eq!(location, "北京");
            assert_eq!(api_key, "ak");
        },
        _ => panic!("expected a weather plan"),
    }
    assert_eq!(
        t.call_tool_plan("get_weather", &args()).err().unwrap(),
        "Missing location parameter"
    );
    let mut a = args();
    a.query = Some("rust".to_string());
    match t.call_tool_plan("search", &a) {
        Ok(ToolCallPlan::Search { query, api_key }) => {
            assert_eq!(query, "rust");
            assert_eq!(api_key, "sk");
        },
        _ => panic!("expected a search plan"),
    }
    assert_eq!(t.call_tool_plan("search", &args()).err().unwrap(), "Missing query parameter");
    assert_eq!(t.call_tool_plan("x", &args()).err().unwrap(), "Unknown tool: x");
}

#[test]
fn toolkit_read_resource() {
    let t = DeepSeekMcpTools::new("ak".to_string(), "sk".to_string());
    assert_eq!(
        t.read_resource("weather://recent-queries").unwrap(),
        "{\"recent_queries\": [\"上海\", \"北京\", \"深圳\"]}"
    );
    assert_eq!(
        t.read_resource("search://recent-queries").unwrap(),
        "{\"recent_queries\": [\"2025年编程语言排行榜\", \"天气查询\", \"MCP协议\"]}"
    );
    assert_eq!(t.read_resource("bad").err().unwrap(), "Unknown resource URI: bad");
}

#[test]
fn toolkit_weather_results() {
    let ok = weather_mcp_result(Ok(sample_weather()));
    assert!(ok.content.starts_with("天气信息获取成功：\n{\n  \"status\": \"1\""));
    assert!(ok.system_prompt.unwrap().contains("天气顾问"));
    let err = weather_mcp_result(Err("down".to_string()));
    assert_eq!(err.content, "Weather API error: down");
    assert!(err.system_prompt.is_none());
    let reg = weather_tool_result(&sample_weather());
    assert!(reg.content.starts_with("{\"status\":\"1\""));
    assert!(reg.system_prompt.contains("天气顾问"));
}

#[test]
fn toolkit_search_results() {
    let ok = search_mcp_result(Ok(Vec::new()));
    assert_eq!(ok.content, "搜索结果：\n没有找到相关结果。");
    assert!(ok.system_prompt.unwrap().contains("信息分析师"));
    let err = search_mcp_result(Err("down".to_string()));
    assert_eq!(err.content, "Search API error: down");
    assert!(err.system_prompt.is_none());
    let reg = search_tool_result(&[]);
    assert_eq!(reg.content, "没有找到相关结果。");
    assert!(reg.system_prompt.contains("信息分析师"));
}

#[test]
fn toolkit_get_prompt() {
    let t = DeepSeekMcpTools::new("ak".to_string(), "sk".to_string());
    let mut a = args();
    a.weather_data = Some("DATA".to_string());
    let messages = t.get_prompt("weather_advisor", &a).unwrap();
    assert_eq!(messages.len(), 2);
    assert!(messages[0].contains("天气顾问"));
    assert_eq!(messages[1], "请分析以下天气数据并给出建议：\nDATA");
    assert_eq!(
        t.get_prompt("weather_advisor", &args()).err().unwrap(),
        "Missing weather_data parameter"
    );
    let mut a = args();
    a.search_results = Some("R".to_string());
    let messages = t.get_prompt("search_analyzer", &a).unwrap();
    assert_eq!(messages[1], "请分析以下搜索结果：\nR");
    assert_eq!(t.get_prompt("nope", &args()).err().unwrap(), "Unknown prompt: nope");
}
