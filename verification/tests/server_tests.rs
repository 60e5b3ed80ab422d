use deepseek_agent::emit::response_line;
use deepseek_agent::protocol::{Action, Response, ResponseBody};
use deepseek_agent::serper::SearchResult;
use deepseek_agent::server::{finish_search, finish_weather, LineOutcome, SimpleMcpServer};

fn server() -> SimpleMcpServer {
    SimpleMcpServer::new("amap-key".to_string(), "serper-key".to_string())
}

fn reply_of(outcome: LineOutcome) -> Response {
    match outcome {
        LineOutcome::Act(Action::Reply(r)) => r,
        _ => panic!("expected an immediate reply"),
    }
}

fn parse(line: &str) -> serde_json::Value {
    serde_json::from_str::<serde_json::Value>(line).expect("response line must be valid JSON")
}

#[test]
fn tools_list_returns_two_descriptors() {
    let s = server();
    let out = s.process_line("{\"jsonrpc\":\"2.0\",\"id\":1,\"method\":\"tools/list\"}");
    let resp = reply_of(out);
    let line = response_line(&resp);
    let v = parse(&line);
    assert_eq!(v.get("jsonrpc").unwrap().as_str().unwrap(), "2.0");
    assert_eq!(v.get("id").unwrap().as_u64().unwrap(), 1);
    let tools = v.get("result").unwrap().get("tools").unwrap().as_array().unwrap();
    assert_eq!(tools.len(), 2);
    assert_eq!(tools[0].get("name").unwrap().as_str().unwrap(), "get_weather");
    assert_eq!(tools[1].get("name").unwrap().as_str().unwrap(), "search");
    let schema = tools[0].get("inputSchema").unwrap();
    assert_eq!(schema.get("type").unwrap().as_str().unwrap(), "object");
    assert_eq!(
        schema.get("required").unwrap().as_array().unwrap()[0].as_str().unwrap(),
        "location"
    );
}

#[test]
fn unknown_method_gives_method_not_found() {
    let s = server();
    let out = s.process_line("{\"jsonrpc\":\"2.0\",\"id\":7,\"method\":\"unknown_method\"}");
    let resp = reply_of(out);
    let line = response_line(&resp);
    let v = parse(&line);
    assert_eq!(v.get("id").unwrap().as_u64().unwrap(), 7);
    let err = v.get("error").unwrap();
    assert_eq!(err.get("code").unwrap().as_i64().unwrap(), -32601);
    assert_eq!(err.get("message").unwrap().as_str().unwrap(), "Method not found");
    assert!(v.get("result").is_none());
}

#[test]
fn malformed_line_is_silent_and_session_continues() {
    let s = server();
    assert!(matches!(s.process_line("{oops"), LineOutcome::Silent));
    assert!(matches!(s.process_line("not json at all"), LineOutcome::Silent));
    assert!(matches!(s.process_line(""), LineOutcome::Silent));
    assert!(matches!(s.process_line("   "), LineOutcome::Silent));
    let out = s.process_line("{\"jsonrpc\":\"2.0\",\"id\":2,\"method\":\"initialize\"}");
    let resp = reply_of(out);
    assert_eq!(resp.id, Some(2));
    assert!(matches!(resp.body, ResponseBody::Initialize));
}

#[test]
fn initialize_reports_server_info() {
    let s = server();
    let out = s.process_line(
        "{\"jsonrpc\":\"2.0\",\"id\":1,\"method\":\"initialize\",\"params\":{\"capabilities\":{}}}",
    );
    let line = response_line(&reply_of(out));
    let v = parse(&line);
    let result = v.get("result").unwrap();
    assert_eq!(result.get("protocolVersion").unwrap().as_str().unwrap(), "2024-11-05");
    let info = result.get("serverInfo").unwrap();
    assert_eq!(info.get("name").unwrap().as_str().unwrap(), "deepseek-agent");
    assert_eq!(info.get("version").unwrap().as_str().unwrap(), "0.4.0");
    assert!(result.get("capabilities").unwrap().get("tools").is_some());
}

#[test]
fn unknown_tool_gives_protocol_error() {
    let s = server();
    let out = s.process_line(
        "{\"jsonrpc\":\"2.0\",\"id\":3,\"method\":\"tools/call\",\"params\":{\"name\":\"nope\",\"arguments\":{}}}",
    );
    let line = response_line(&reply_of(out));
    let v = parse(&line);
    assert_eq!(v.get("id").unwrap().as_u64().unwrap(), 3);
    let err = v.get("error").unwrap();
    assert_eq!(err.get("code").unwrap().as_i64().unwrap(), -32602);
    assert_eq!(err.get("message").unwrap().as_str().unwrap(), "Unknown tool: nope");
}

#[test]
fn missing_tool_name_gives_protocol_error() {
    let s = server();
    let out = s.process_line(
        "{\"jsonrpc\":\"2.0\",\"id\":4,\"method\":\"tools/call\",\"params\":{\"arguments\":{}}}",
    );
    let line = response_line(&reply_of(out));
    let v = parse(&line);
    let err = v.get("error").unwrap();
    assert_eq!(err.get("message").unwrap().as_str().unwrap(), "Missing tool name");
}

#[test]
fn missing_location_gives_protocol_error() {
    let s = server();
    let out = s.process_line(
        "{\"jsonrpc\":\"2.0\",\"id\":5,\"method\":\"tools/call\",\"params\":{\"name\":\"get_weather\",\"arguments\":{}}}",
    );
    let line = response_line(&reply_of(out));
    let v = parse(&line);
    assert_eq!(v.get("id").unwrap().as_u64().unwrap(), 5);
    let err = v.get("error").unwrap();
    assert_eq!(err.get("code").unwrap().as_i64().unwrap(), -32602);
    assert_eq!(err.get("message").unwrap().as_str().unwrap(), "Missing location parameter");
}

#[test]
fn weather_call_with_location_plans_provider_call() {
    let s = server();
    let out = s.process_line(
        "{\"jsonrpc\":\"2.0\",\"id\":6,\"method\":\"tools/call\",\"params\":{\"name\":\"get_weather\",\"arguments\":{\"location\":\"上海\"}}}",
    );
    match out {
        LineOutcome::Act(Action::CallWeather { id, location, api_key }) => {
            assert_eq!(id, Some(6));
            assert_eq!(location, "上海");
            assert_eq!(api_key, "amap-key");
        },
        _ => panic!("expected a weather provider call"),
    }
}

#[test]
fn weather_failure_is_error_payload_not_protocol_error() {
    let resp = finish_weather(Some(6), Err("boom".to_string()));
    let line = response_line(&resp);
    let v = parse(&line);
    assert_eq!(v.get("id").unwrap().as_u64().unwrap(), 6);
    assert!(v.get("error").is_none());
    let result = v.get("result").unwrap();
    assert_eq!(result.get("isError").unwrap().as_bool().unwrap(), true);
    let content = result.get("content").unwrap().as_array().unwrap();
    assert_eq!(content.len(), 1);
    assert_eq!(content[0].get("type").unwrap().as_str().unwrap(), "text");
    assert_eq!(
        content[0].get("text").unwrap().as_str().unwrap(),
        "Weather API error: boom"
    );
}

#[test]
fn search_with_no_hits_reports_sentinel() {
    let s = server();
    let out = s.process_line(
        "{\"jsonrpc\":\"2.0\",\"id\":8,\"method\":\"tools/call\",\"params\":{\"name\":\"search\",\"arguments\":{\"query\":\"test\"}}}",
    );
    let id = match out {
        LineOutcome::Act(Action::CallSearch { id, query, api_key }) => {
            assert_eq!(query, "test");
            assert_eq!(api_key, "serper-key");
            id
        },
        _ => panic!("expected a search provider call"),
    };
    let resp = finish_search(id, Ok(Vec::new()));
    let line = response_line(&resp);
    let v = parse(&line);
    assert_eq!(v.get("id").unwrap().as_u64().unwrap(), 8);
    let result = v.get("result").unwrap();
    assert_eq!(result.get("isError").unwrap().as_bool().unwrap(), false);
    let text = result.get("content").unwrap().as_array().unwrap()[0]
        .get("text")
        .unwrap()
        .as_str()
        .unwrap()
        .to_string();
    assert_eq!(text, "搜索结果：\n没有找到相关结果。");
}

#[test]
fn search_hits_are_numbered_and_truncated() {
    let mut results = Vec::new();
    for k in 1..=4 {
        results.push(SearchResult {
            title: format!("t{}", k),
            link: format!("l{}", k),
            snippet: format!("s{}", k),
        });
    }
    let resp = finish_search(Some(9), Ok(results));
    let line = response_line(&resp);
    let v = parse(&line);
    let text = v
        .get("result")
        .unwrap()
        .get("content")
        .unwrap()
        .as_array()
        .unwrap()[0]
        .get("text")
        .unwrap()
        .as_str()
        .unwrap()
        .to_string();
    let expected = "搜索结果：\n1. t1\n   链接: l1\n   摘要: s1\n\n2. t2\n   链接: l2\n   摘要: s2\n\n3. t3\n   链接: l3\n   摘要: s3\n";
    assert_eq!(text, expected);
}

#[test]
fn response_id_echoes_request_id() {
    let s = server();
    for (id, line) in [
        (10u64, "{\"jsonrpc\":\"2.0\",\"id\":10,\"method\":\"tools/list\"}"),
        (11u64, "{\"jsonrpc\":\"2.0\",\"id\":11,\"method\":\"resources/list\"}"),
        (12u64, "{\"jsonrpc\":\"2.0\",\"id\":12,\"method\":\"prompts/list\"}"),
        (13u64, "{\"jsonrpc\":\"2.0\",\"id\":13,\"method\":\"no_such\"}"),
    ] {
        let resp = reply_of(s.process_line(line));
        assert_eq!(resp.id, Some(id));
    }
}

#[test]
fn missing_id_echoes_null() {
    let s = server();
    let resp = reply_of(s.process_line("{\"jsonrpc\":\"2.0\",\"method\":\"tools/list\"}"));
    assert_eq!(resp.id, None);
    let v = parse(&response_line(&resp));
    assert!(v.get("id").unwrap().is_null());
}

#[test]
fn catalogs_stable_across_repeated_calls() {
    let s = server();
    for method in ["tools/list", "resources/list", "prompts/list"] {
        let line = format!("{{\"jsonrpc\":\"2.0\",\"id\":1,\"method\":\"{}\"}}", method);
        let first = response_line(&reply_of(s.process_line(&line)));
        let second = response_line(&reply_of(s.process_line(&line)));
        assert_eq!(first, second);
    }
}

#[test]
fn resources_list_and_read() {
    let s = server();
    let v = parse(&response_line(&reply_of(s.process_line(
        "{\"jsonrpc\":\"2.0\",\"id\":1,\"method\":\"resources/list\"}",
    ))));
    let resources = v.get("result").unwrap().get("resources").unwrap().as_array().unwrap();
    assert_eq!(resources.len(), 2);
    assert_eq!(
        resources[0].get("uri").unwrap().as_str().unwrap(),
        "weather://recent-queries"
    );
    assert_eq!(
        resources[1].get("uri").unwrap().as_str().unwrap(),
        "search://recent-queries"
    );
    let v = parse(&response_line(&reply_of(s.process_line(
        "{\"jsonrpc\":\"2.0\",\"id\":2,\"method\":\"resources/read\",\"params\":{\"uri\":\"weather://recent-queries\"}}",
    ))));
    let contents = v.get("result").unwrap().get("contents").unwrap().as_array().unwrap();
    assert_eq!(
        contents[0].get("text").unwrap().as_str().unwrap(),
        "{\"recent_queries\": [\"上海\", \"北京\", \"深圳\"]}"
    );
    let v = parse(&response_line(&reply_of(s.process_line(
        "{\"jsonrpc\":\"2.0\",\"id\":3,\"method\":\"resources/read\",\"params\":{\"uri\":\"nope://x\"}}",
    ))));
    assert_eq!(
        v.get("error").unwrap().get("message").unwrap().as_str().unwrap(),
        "Unknown resource URI: nope://x"
    );
}

#[test]
fn prompts_list_and_get() {
    let s = server();
    let v = parse(&response_line(&reply_of(s.process_line(
        "{\"jsonrpc\":\"2.0\",\"id\":1,\"method\":\"prompts/list\"}",
    ))));
    let prompts = v.get("result").unwrap().get("prompts").unwrap().as_array().unwrap();
    assert_eq!(prompts.len(), 2);
    assert_eq!(prompts[0].get("name").unwrap().as_str().unwrap(), "weather_advisor");
    assert_eq!(prompts[1].get("name").unwrap().as_str().unwrap(), "search_analyzer");
    let args = prompts[0].get("arguments").unwrap().as_array().unwrap();
    assert_eq!(args.len(), 1);
    assert_eq!(args[0].get("name").unwrap().as_str().unwrap(), "weather_data");
    assert_eq!(args[0].get("required").unwrap().as_bool().unwrap(), true);

    let v = parse(&response_line(&reply_of(s.process_line(
        "{\"jsonrpc\":\"2.0\",\"id\":2,\"method\":\"prompts/get\",\"params\":{\"name\":\"weather_advisor\",\"arguments\":{\"weather_data\":\"DATA\"}}}",
    ))));
    let result = v.get("result").unwrap();
    assert_eq!(result.get("description").unwrap().as_str().unwrap(), "天气顾问专业分析");
    let messages = result.get("messages").unwrap().as_array().unwrap();
    assert_eq!(messages.len(), 2);
    assert_eq!(messages[0].get("role").unwrap().as_str().unwrap(), "system");
    assert_eq!(messages[1].get("role").unwrap().as_str().unwrap(), "user");
    assert_eq!(
        messages[1].get("content").unwrap().get("text").unwrap().as_str().unwrap(),
        "请分析以下天气数据并给出建议：\nDATA"
    );

    let v = parse(&response_line(&reply_of(s.process_line(
        "{\"jsonrpc\":\"2.0\",\"id\":3,\"method\":\"prompts/get\",\"params\":{\"name\":\"weather_advisor\",\"arguments\":{}}}",
    ))));
    assert_eq!(
        v.get("error").unwrap().get("message").unwrap().as_str().unwrap(),
        "Missing weather_data parameter"
    );

    let v = parse(&response_line(&reply_of(s.process_line(
        "{\"jsonrpc\":\"2.0\",\"id\":4,\"method\":\"prompts/get\",\"params\":{\"name\":\"nope\",\"arguments\":{}}}",
    ))));
    assert_eq!(
        v.get("error").unwrap().get("message").unwrap().as_str().unwrap(),
        "Unknown prompt: nope"
    );
}

#[test]
fn non_string_argument_counts_as_missing() {
    let s = server();
    let out = s.process_line(
        "{\"jsonrpc\":\"2.0\",\"id\":5,\"method\":\"tools/call\",\"params\":{\"name\":\"get_weather\",\"arguments\":{\"location\":5}}}",
    );
    let v = parse(&response_line(&reply_of(out)));
    assert_eq!(
        v.get("error").unwrap().get("message").unwrap().as_str().unwrap(),
        "Missing location parameter"
    );
}

#[test]
fn missing_query_gives_protocol_error() {
    let s = server();
    let out = s.process_line(
        "{\"jsonrpc\":\"2.0\",\"id\":21,\"method\":\"tools/call\",\"params\":{\"name\":\"search\"}}",
    );
    let v = parse(&response_line(&reply_of(out)));
    assert_eq!(
        v.get("error").unwrap().get("message").unwrap().as_str().unwrap(),
        "Missing query parameter"
    );
}

#[test]
fn tools_call_without_params_reports_missing_name() {
    let s = server();
    let out = s.process_line("{\"jsonrpc\":\"2.0\",\"id\":22,\"method\":\"tools/call\"}");
    let v = parse(&response_line(&reply_of(out)));
    assert_eq!(
        v.get("error").unwrap().get("message").unwrap().as_str().unwrap(),
        "Missing tool name"
    );
}

#[test]
fn string_id_echoes_null() {
    let s = server();
    let resp = reply_of(s.process_line(
        "{\"jsonrpc\":\"2.0\",\"id\":\"abc\",\"method\":\"tools/list\"}",
    ));
    assert_eq!(resp.id, None);
}

#[test]
fn large_id_renders_exactly() {
    let s = server();
    let resp = reply_of(s.process_line(
        "{\"jsonrpc\":\"2.0\",\"id\":18446744073709551615,\"method\":\"tools/list\"}",
    ));
    assert_eq!(resp.id, Some(u64::MAX));
    let line = response_line(&resp);
    assert!(line.starts_with("{\"jsonrpc\":\"2.0\",\"id\":18446744073709551615,"));
}

#[test]
fn search_analyzer_prompt_renders() {
    let s = server();
    let v = parse(&response_line(&reply_of(s.process_line(
        "{\"jsonrpc\":\"2.0\",\"id\":23,\"method\":\"prompts/get\",\"params\":{\"name\":\"search_analyzer\",\"arguments\":{\"search_results\":\"R\"}}}",
    ))));
    let result = v.get("result").unwrap();
    assert_eq!(result.get("description").unwrap().as_str().unwrap(), "搜索结果专业分析");
    let messages = result.get("messages").unwrap().as_array().unwrap();
    assert_eq!(
        messages[1].get("content").unwrap().get("text").unwrap().as_str().unwrap(),
        "请分析以下搜索结果：\nR"
    );
}

#[test]
fn weather_success_wraps_report() {
    let w = deepseek_agent::amap::WeatherResponse {
        status: "1".to_string(),
        count: "0".to_string(),
        info: "OK".to_string(),
        infocode: "10000".to_string(),
        forecasts: Vec::new(),
    };
    let resp = finish_weather(Some(30), Ok(w));
    let v = parse(&response_line(&resp));
    let result = v.get("result").unwrap();
    assert_eq!(result.get("isError").unwrap().as_bool().unwrap(), false);
    let text = result.get("content").unwrap().as_array().unwrap()[0]
        .get("text")
        .unwrap()
        .as_str()
        .unwrap()
        .to_string();
    assert_eq!(
        text,
        "天气信息获取成功：\n{\n  \"status\": \"1\",\n  \"count\": \"0\",\n  \"info\": \"OK\",\n  \"infocode\": \"10000\",\n  \"forecasts\": []\n}"
    );
}

#[test]
fn escaped_text_round_trips_through_response() {
    let resp = finish_weather(Some(1), Err("line1\nline2 \"quoted\" back\\slash\ttab".to_string()));
    let line = response_line(&resp);
    assert!(!line.contains('\n'));
    let v = parse(&line);
    let text = v
        .get("result")
        .unwrap()
        .get("content")
        .unwrap()
        .as_array()
        .unwrap()[0]
        .get("text")
        .unwrap()
        .as_str()
        .unwrap()
        .to_string();
    assert_eq!(text, "Weather API error: line1\nline2 \"quoted\" back\\slash\ttab");
}
