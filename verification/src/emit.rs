//! Response serialization: one response value to one JSON line, against
//! an exact character-level specification.

use vstd::prelude::*;
use vstd::string::StringExecFns;
use crate::catalog::{
    prompts_catalog, resources_catalog, search_prompt_v, search_resource_v, search_tool_v,
    tools_catalog, weather_prompt_v, weather_resource_v, weather_tool_v, McpPrompt,
    McpPromptArgumentV, McpPromptV, McpResource, McpResourceV, McpTool, McpToolV,
};
use crate::protocol::{Response, ResponseBody, ResponseBodyV, ResponseV};
use crate::text::{dec_str, escaped, push_dec, push_escaped};

verus! {

/// The JSON rendering of a boolean.
pub open spec fn bool_json(b: bool) -> Seq<char> {
    if b {
        "true"@
    } else {
        "false"@
    }
}

/// The JSON rendering of a signed integer.
pub open spec fn int_json(i: int) -> Seq<char> {
    if i >= 0 {
        dec_str(i as nat)
    } else {
        "-"@ + dec_str((-i) as nat)
    }
}

/// The JSON rendering of a response identifier: the echoed integer, or
/// `null` where the request carried none.
pub open spec fn id_json(id: Option<u64>) -> Seq<char> {
    match id {
        Some(n) => dec_str(n as nat),
        None => "null"@,
    }
}

/// The JSON rendering of a tool's input schema.
pub open spec fn schema_json(sch: crate::catalog::ToolSchemaV) -> Seq<char> {
    "{\"type\":\"object\",\"properties\":{\""@ + escaped(sch.param_name)
        + "\":{\"type\":\"string\",\"description\":\""@ + escaped(sch.param_description)
        + "\"}},\"required\":[\""@ + escaped(sch.param_name) + "\"]}"@
}

/// Appends the JSON rendering of a tool's input schema.
pub(crate) fn push_schema(s: &mut String, sch: &crate::catalog::ToolSchema)
    ensures
        final(s)@ == old(s)@ + schema_json(sch@),
{
    s.append("{\"type\":\"object\",\"properties\":{\"");
    push_escaped(s, sch.param_name.as_str());
    s.append("\":{\"type\":\"string\",\"description\":\"");
    push_escaped(s, sch.param_description.as_str());
    s.append("\"}},\"required\":[\"");
    push_escaped(s, sch.param_name.as_str());
    s.append("\"]}");
    assert(final(s)@ =~= old(s)@ + schema_json(sch@));
}

/// The JSON rendering of one tool descriptor.
pub open spec fn tool_json(t: McpToolV) -> Seq<char> {
    "{\"name\":\""@ + escaped(t.name) + "\",\"description\":\""@ + escaped(t.description)
        + "\",\"inputSchema\":"@ + schema_json(t.parameters) + "}"@
}

/// The JSON rendering of one resource descriptor.
pub open spec fn resource_json(r: McpResourceV) -> Seq<char> {
    "{\"uri\":\""@ + escaped(r.uri) + "\",\"name\":\""@ + escaped(r.name)
        + "\",\"description\":\""@ + escaped(r.description) + "\",\"mimeType\":\""@ + escaped(
        r.mime_type,
    ) + "\"}"@
}

/// The JSON rendering of one prompt argument descriptor.
pub open spec fn prompt_arg_json(a: McpPromptArgumentV) -> Seq<char> {
    "{\"name\":\""@ + escaped(a.name) + "\",\"description\":\""@ + escaped(a.description)
        + "\",\"required\":"@ + bool_json(a.required) + "}"@
}

/// The comma-separated JSON renderings of prompt arguments.
pub open spec fn prompt_args_json(args: Seq<McpPromptArgumentV>) -> Seq<char>
    decreases args.len(),
{
    if args.len() == 0 {
        Seq::empty()
    } else if args.len() == 1 {
        prompt_arg_json(args[0])
    } else {
        prompt_args_json(args.drop_last()) + ","@ + prompt_arg_json(args.last())
    }
}

/// The JSON rendering of one prompt descriptor.
pub open spec fn prompt_json(p: McpPromptV) -> Seq<char> {
    "{\"name\":\""@ + escaped(p.name) + "\",\"description\":\""@ + escaped(p.description)
        + "\",\"arguments\":["@ + prompt_args_json(p.arguments) + "]}"@
}

/// The JSON rendering of a result payload.
pub open spec fn result_json(body: ResponseBodyV) -> Seq<char> {
    match body {
        ResponseBodyV::Initialize =>
            "{\"protocolVersion\":\"2024-11-05\",\"capabilities\":{\"tools\":{},\"resources\":{},\"prompts\":{}},\"serverInfo\":{\"name\":\"deepseek-agent\",\"version\":\"0.4.0\"}}"@,
        ResponseBodyV::ToolsList => "{\"tools\":["@ + tool_json(weather_tool_v()) + ","@
            + tool_json(search_tool_v()) + "]}"@,
        ResponseBodyV::ToolCall { text, is_error } =>
            "{\"content\":[{\"type\":\"text\",\"text\":\""@ + escaped(text) + "\"}],\"isError\":"@
            + bool_json(is_error) + "}"@,
        ResponseBodyV::ResourcesList => "{\"resources\":["@ + resource_json(weather_resource_v())
            + ","@ + resource_json(search_resource_v()) + "]}"@,
        ResponseBodyV::ResourceRead { text } => "{\"contents\":[{\"type\":\"text\",\"text\":\""@
            + escaped(text) + "\"}]}"@,
        ResponseBodyV::PromptsList => "{\"prompts\":["@ + prompt_json(weather_prompt_v()) + ","@
            + prompt_json(search_prompt_v()) + "]}"@,
        ResponseBodyV::PromptGet { description, system, user } => "{\"description\":\""@
            + escaped(description)
            + "\",\"messages\":[{\"role\":\"system\",\"content\":{\"type\":\"text\",\"text\":\""@
            + escaped(system)
            + "\"}},{\"role\":\"user\",\"content\":{\"type\":\"text\",\"text\":\""@ + escaped(
            user,
        ) + "\"}}]}"@,
        ResponseBodyV::Error { code, message } => Seq::empty(),
    }
}

/// The JSON line for a response: the protocol marker, the echoed
/// identifier, and exactly one of a result or an error member.
pub open spec fn response_json(r: ResponseV) -> Seq<char> {
    "{\"jsonrpc\":\"2.0\",\"id\":"@ + id_json(r.id) + (match r.body {
        ResponseBodyV::Error { code, message } => ",\"error\":{\"code\":"@ + int_json(code)
            + ",\"message\":\""@ + escaped(message) + "\"}}"@,
        _ => ",\"result\":"@ + result_json(r.body) + "}"@,
    })
}

/// Appends the JSON rendering of a boolean.
fn push_bool(s: &mut String, b: bool)
    ensures
        final(s)@ == old(s)@ + bool_json(b),
{
    if b {
        s.append("true");
    } else {
        s.append("false");
    }
}

/// Appends the JSON rendering of a signed integer.
fn push_int(s: &mut String, i: i64)
    ensures
        final(s)@ == old(s)@ + int_json(i as int),
{
    if i >= 0 {
        push_dec(s, i as u64);
    } else {
        s.append("-");
        if i == i64::MIN {
            push_dec(s, 9223372036854775808u64);
        } else {
            push_dec(s, (-i) as u64);
        }
    }
}

/// Appends the JSON rendering of one tool descriptor.
fn push_tool(s: &mut String, t: &McpTool)
    ensures
        final(s)@ == old(s)@ + tool_json(t@),
{
    s.append("{\"name\":\"");
    push_escaped(s, t.name.as_str());
    s.append("\",\"description\":\"");
    push_escaped(s, t.description.as_str());
    s.append("\",\"inputSchema\":");
    push_schema(s, &t.parameters);
    s.append("}");
    assert(final(s)@ =~= old(s)@ + tool_json(t@));
}

/// Appends the JSON rendering of one resource descriptor.
fn push_resource(s: &mut String, r: &McpResource)
    ensures
        final(s)@ == old(s)@ + resource_json(r@),
{
    s.append("{\"uri\":\"");
    push_escaped(s, r.uri.as_str());
    s.append("\",\"name\":\"");
    push_escaped(s, r.name.as_str());
    s.append("\",\"description\":\"");
    push_escaped(s, r.description.as_str());
    s.append("\",\"mimeType\":\"");
    push_escaped(s, r.mime_type.as_str());
    s.append("\"}");
    assert(final(s)@ =~= old(s)@ + resource_json(r@));
}

/// Appends the JSON rendering of one prompt descriptor.
fn push_prompt(s: &mut String, p: &McpPrompt)
    ensures
        final(s)@ == old(s)@ + prompt_json(p@),
{
    let ghost vs = p.arguments@.map_values(|a: crate::catalog::McpPromptArgument| a@);
    s.append("{\"name\":\"");
    push_escaped(s, p.name.as_str());
    s.append("\",\"description\":\"");
    push_escaped(s, p.description.as_str());
    s.append("\",\"arguments\":[");
    let ghost head = s@;
    let n = p.arguments.len();
    let mut i: usize = 0;
    while i < n
        invariant
            n == p.arguments@.len(),
            vs == p.arguments@.map_values(|a: crate::catalog::McpPromptArgument| a@),
            i <= n,
            s@ == head + prompt_args_json(vs.take(i as int)),
        decreases n - i,
    {
        proof {
            assert(vs.take(i + 1 as int).drop_last() =~= vs.take(i as int));
            assert(vs.take(i + 1 as int).last() == vs[i as int]);
            assert(vs[i as int] == p.arguments@[i as int]@);
            if i == 0 {
                assert(prompt_args_json(vs.take(1)) == prompt_arg_json(vs[0]));
            }
        }
        if i > 0 {
            s.append(",");
        }
        let a = &p.arguments[i];
        s.append("{\"name\":\"");
        push_escaped(s, a.name.as_str());
        s.append("\",\"description\":\"");
        push_escaped(s, a.description.as_str());
        s.append("\",\"required\":");
        push_bool(s, a.required);
        s.append("}");
        proof {
            assert(s@ =~= head + prompt_args_json(vs.take(i + 1 as int)));
        }
        i += 1;
    }
    s.append("]}");
    proof {
        assert(vs.take(n as int) =~= vs);
        assert(final(s)@ =~= old(s)@ + prompt_json(p@));
    }
}

/// Appends the JSON rendering of a result payload.
fn push_result(s: &mut String, body: &ResponseBody)
    requires
        !(body@ matches ResponseBodyV::Error { .. }),
    ensures
        final(s)@ == old(s)@ + result_json(body@),
{
    match body {
        ResponseBody::Initialize => {
            s.append(
                "{\"protocolVersion\":\"2024-11-05\",\"capabilities\":{\"tools\":{},\"resources\":{},\"prompts\":{}},\"serverInfo\":{\"name\":\"deepseek-agent\",\"version\":\"0.4.0\"}}",
            );
        },
        ResponseBody::ToolsList => {
            let tools = tools_catalog();
            s.append("{\"tools\":[");
            push_tool(s, &tools[0]);
            s.append(",");
            push_tool(s, &tools[1]);
            s.append("]}");
            assert(final(s)@ =~= old(s)@ + result_json(body@));
        },
        ResponseBody::ToolCall { text, is_error } => {
            s.append("{\"content\":[{\"type\":\"text\",\"text\":\"");
            push_escaped(s, text.as_str());
            s.append("\"}],\"isError\":");
            push_bool(s, *is_error);
            s.append("}");
            assert(final(s)@ =~= old(s)@ + result_json(body@));
        },
        ResponseBody::ResourcesList => {
            let resources = resources_catalog();
            s.append("{\"resources\":[");
            push_resource(s, &resources[0]);
            s.append(",");
            push_resource(s, &resources[1]);
            s.append("]}");
            assert(final(s)@ =~= old(s)@ + result_json(body@));
        },
        ResponseBody::ResourceRead { text } => {
            s.append("{\"contents\":[{\"type\":\"text\",\"text\":\"");
            push_escaped(s, text.as_str());
            s.append("\"}]}");
            assert(final(s)@ =~= old(s)@ + result_json(body@));
        },
        ResponseBody::PromptsList => {
            let prompts = prompts_catalog();
            s.append("{\"prompts\":[");
            push_prompt(s, &prompts[0]);
            s.append(",");
            push_prompt(s, &prompts[1]);
            s.append("]}");
            assert(final(s)@ =~= old(s)@ + result_json(body@));
        },
        ResponseBody::PromptGet { description, system, user } => {
            s.append("{\"description\":\"");
            push_escaped(s, description.as_str());
            s.append(
                "\",\"messages\":[{\"role\":\"system\",\"content\":{\"type\":\"text\",\"text\":\"",
            );
            push_escaped(s, system.as_str());
            s.append("\"}},{\"role\":\"user\",\"content\":{\"type\":\"text\",\"text\":\"");
            push_escaped(s, user.as_str());
            s.append("\"}}]}");
            assert(final(s)@ =~= old(s)@ + result_json(body@));
        },
        ResponseBody::Error { .. } => {
            proof {
                assert(false);
            }
        },
    }
}

/// Serializes one response as one JSON line, without the newline.
pub fn response_line(r: &Response) -> (out: String)
    ensures
        out@ == response_json(r@),
{
    let mut s = String::new();
    s.append("{\"jsonrpc\":\"2.0\",\"id\":");
    match r.id {
        Some(n) => push_dec(&mut s, n),
        None => s.append("null"),
    }
    match &r.body {
        ResponseBody::Error { code, message } => {
            s.append(",\"error\":{\"code\":");
            push_int(&mut s, *code);
            s.append(",\"message\":\"");
            push_escaped(&mut s, message.as_str());
            s.append("\"}}");
        },
        other => {
            s.append(",\"result\":");
            push_result(&mut s, other);
            s.append("}");
        },
    }
    proof {
        assert(s@ =~= response_json(r@));
    }
    s
}

} // verus!
