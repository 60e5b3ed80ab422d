//! The client side of the protocol: a session that issues requests with
//! strictly increasing identifiers, serializes them as JSON lines, and
//! interprets the reply lines.

use vstd::prelude::*;
use vstd::string::StringExecFns;
use crate::decode::{json_document, parse_json, value_as_i64, value_as_str, value_get};
use crate::text::{dec_str, escaped, push_dec, push_escaped};

verus! {

/// The parameter shapes the client sends, one per convenience wrapper.
pub enum RequestParams {
    Initialize,
    Empty,
    ToolCall { name: String, arguments: Vec<(String, String)> },
    ResourceRead { uri: String },
    PromptGet { name: String, arguments: Vec<(String, String)> },
}

pub enum RequestParamsV {
    Initialize,
    Empty,
    ToolCall { name: Seq<char>, arguments: Seq<(Seq<char>, Seq<char>)> },
    ResourceRead { uri: Seq<char> },
    PromptGet { name: Seq<char>, arguments: Seq<(Seq<char>, Seq<char>)> },
}

/// The views of a list of string pairs.
pub open spec fn pairs_view(args: Seq<(String, String)>) -> Seq<(Seq<char>, Seq<char>)> {
    args.map_values(|p: (String, String)| (p.0@, p.1@))
}

impl View for RequestParams {
    type V = RequestParamsV;

    open spec fn view(&self) -> RequestParamsV {
        match self {
            RequestParams::Initialize => RequestParamsV::Initialize,
            RequestParams::Empty => RequestParamsV::Empty,
            RequestParams::ToolCall { name, arguments } => RequestParamsV::ToolCall {
                name: name@,
                arguments: pairs_view(arguments@),
            },
            RequestParams::ResourceRead { uri } => RequestParamsV::ResourceRead { uri: uri@ },
            RequestParams::PromptGet { name, arguments } => RequestParamsV::PromptGet {
                name: name@,
                arguments: pairs_view(arguments@),
            },
        }
    }
}

/// The JSON rendering of one `"key":"value"` member.
pub open spec fn pair_json(p: (Seq<char>, Seq<char>)) -> Seq<char> {
    "\""@ + escaped(p.0) + "\":\""@ + escaped(p.1) + "\""@
}

/// The comma-separated members of an arguments object.
pub open spec fn pair_items_json(args: Seq<(Seq<char>, Seq<char>)>) -> Seq<char>
    decreases args.len(),
{
    if args.len() == 0 {
        Seq::empty()
    } else if args.len() == 1 {
        pair_json(args[0])
    } else {
        pair_items_json(args.drop_last()) + ","@ + pair_json(args.last())
    }
}

/// The JSON rendering of an arguments object.
pub open spec fn args_json(args: Seq<(Seq<char>, Seq<char>)>) -> Seq<char> {
    "{"@ + pair_items_json(args) + "}"@
}

/// The JSON rendering of each parameter shape.
pub open spec fn params_json(p: RequestParamsV) -> Seq<char> {
    match p {
        RequestParamsV::Initialize =>
            "{\"protocolVersion\":\"2024-11-05\",\"capabilities\":{}}"@,
        RequestParamsV::Empty => "{}"@,
        RequestParamsV::ToolCall { name, arguments } => "{\"name\":\""@ + escaped(name)
            + "\",\"arguments\":"@ + args_json(arguments) + "}"@,
        RequestParamsV::ResourceRead { uri } => "{\"uri\":\""@ + escaped(uri) + "\"}"@,
        RequestParamsV::PromptGet { name, arguments } => "{\"name\":\""@ + escaped(name)
            + "\",\"arguments\":"@ + args_json(arguments) + "}"@,
    }
}

/// The JSON line for one request.
pub open spec fn request_json(id: u64, method: Seq<char>, params: RequestParamsV) -> Seq<char> {
    "{\"jsonrpc\":\"2.0\",\"id\":"@ + dec_str(id as nat) + ",\"method\":\""@ + escaped(method)
        + "\",\"params\":"@ + params_json(params) + "}"@
}

/// One client session's protocol state: the identifier handed out last,
/// zero before the first request.
pub struct ClientSession {
    request_id: u64,
}

pub struct ClientSessionV {
    pub request_id: u64,
}

impl View for ClientSession {
    type V = ClientSessionV;

    closed spec fn view(&self) -> ClientSessionV {
        ClientSessionV { request_id: self.request_id }
    }
}

/// One identifier allocation step: the identifier follows the one handed
/// out before, and the session remembers it.
pub open spec fn issues(pre: ClientSessionV, post: ClientSessionV, id: u64) -> bool {
    id == pre.request_id + 1 && post.request_id == id
}

/// In a trace of allocation steps from a fresh session, the k-th request
/// gets identifier k + 1: identifiers run 1, 2, 3, ... with no gap and no
/// repeat.
pub open spec fn session_trace(states: Seq<ClientSessionV>, ids: Seq<u64>) -> bool {
    states.len() == ids.len() + 1 && (forall|k: int|
        0 <= k < ids.len() ==> issues(states[k], states[k + 1], ids[k]))
}

/// Identifiers in a session trace from a fresh session are exactly
/// 1, 2, ..., in order: strictly increasing, no gaps, no repeats.
pub proof fn lemma_session_ids_consecutive(states: Seq<ClientSessionV>, ids: Seq<u64>, k: int)
    requires
        session_trace(states, ids),
        states[0].request_id == 0,
        0 <= k < ids.len(),
    ensures
        ids[k] == k + 1,
    decreases k,
{
    if k == 0 {
        assert(issues(states[0], states[1], ids[0]));
    } else {
        lemma_session_ids_consecutive(states, ids, k - 1);
        assert(issues(states[k - 1], states[k], ids[k - 1]));
        assert(issues(states[k], states[k + 1], ids[k]));
    }
}

impl ClientSession {
    /// A fresh session: no identifier handed out yet.
    pub fn new() -> (r: ClientSession)
        ensures
            r@.request_id == 0,
    {
        ClientSession { request_id: 0 }
    }

    /// The identifier handed out last, zero before the first request.
    pub fn current_id(&self) -> (r: u64)
        ensures
            r == self@.request_id,
    {
        self.request_id
    }

    /// Allocates the next request identifier.
    pub fn next_request_id(&mut self) -> (r: u64)
        requires
            old(self)@.request_id < u64::MAX,
        ensures
            issues(old(self)@, final(self)@, r),
    {
        self.request_id = self.request_id + 1;
        self.request_id
    }

    /// Allocates the next identifier and serializes one request line,
    /// without the newline.
    pub fn build_request(&mut self, method: &str, params: &RequestParams) -> (r: (u64, String))
        requires
            old(self)@.request_id < u64::MAX,
        ensures
            issues(old(self)@, final(self)@, r.0),
            r.1@ == request_json(r.0, method@, params@),
    {
        let id = self.next_request_id();
        let mut s = String::new();
        s.append("{\"jsonrpc\":\"2.0\",\"id\":");
        push_dec(&mut s, id);
        s.append(",\"method\":\"");
        push_escaped(&mut s, method);
        s.append("\",\"params\":");
        push_params(&mut s, params);
        s.append("}");
        proof {
            assert(s@ =~= request_json(id, method@, params@));
        }
        (id, s)
    }

    /// The request line for `initialize`.
    pub fn initialize_request(&mut self) -> (r: (u64, String))
        requires
            old(self)@.request_id < u64::MAX,
        ensures
            issues(old(self)@, final(self)@, r.0),
            r.1@ == request_json(r.0, "initialize"@, RequestParamsV::Initialize),
    {
        self.build_request("initialize", &RequestParams::Initialize)
    }

    /// The request line for `tools/list`.
    pub fn list_tools_request(&mut self) -> (r: (u64, String))
        requires
            old(self)@.request_id < u64::MAX,
        ensures
            issues(old(self)@, final(self)@, r.0),
            r.1@ == request_json(r.0, "tools/list"@, RequestParamsV::Empty),
    {
        self.build_request("tools/list", &RequestParams::Empty)
    }

    /// The request line for `tools/call`.
    pub fn call_tool_request(&mut self, name: String, arguments: Vec<(String, String)>) -> (r: (
        u64,
        String,
    ))
        requires
            old(self)@.request_id < u64::MAX,
        ensures
            issues(old(self)@, final(self)@, r.0),
            r.1@ == request_json(
                r.0,
                "tools/call"@,
                (RequestParamsV::ToolCall { name: name@, arguments: pairs_view(arguments@) }),
            ),
    {
        self.build_request("tools/call", &RequestParams::ToolCall { name, arguments })
    }

    /// The request line for `resources/list`.
    pub fn list_resources_request(&mut self) -> (r: (u64, String))
        requires
            old(self)@.request_id < u64::MAX,
        ensures
            issues(old(self)@, final(self)@, r.0),
            r.1@ == request_json(r.0, "resources/list"@, RequestParamsV::Empty),
    {
        self.build_request("resources/list", &RequestParams::Empty)
    }

    /// The request line for `resources/read`.
    pub fn read_resource_request(&mut self, uri: String) -> (r: (u64, String))
        requires
            old(self)@.request_id < u64::MAX,
        ensures
            issues(old(self)@, final(self)@, r.0),
            r.1@ == request_json(
                r.0,
                "resources/read"@,
                (RequestParamsV::ResourceRead { uri: uri@ }),
            ),
    {
        self.build_request("resources/read", &RequestParams::ResourceRead { uri })
    }

    /// The request line for `prompts/list`.
    pub fn list_prompts_request(&mut self) -> (r: (u64, String))
        requires
            old(self)@.request_id < u64::MAX,
        ensures
            issues(old(self)@, final(self)@, r.0),
            r.1@ == request_json(r.0, "prompts/list"@, RequestParamsV::Empty),
    {
        self.build_request("prompts/list", &RequestParams::Empty)
    }

    /// The request line for `prompts/get`.
    pub fn get_prompt_request(&mut self, name: String, arguments: Vec<(String, String)>) -> (r: (
        u64,
        String,
    ))
        requires
            old(self)@.request_id < u64::MAX,
        ensures
            issues(old(self)@, final(self)@, r.0),
            r.1@ == request_json(
                r.0,
                "prompts/get"@,
                (RequestParamsV::PromptGet { name: name@, arguments: pairs_view(arguments@) }),
            ),
    {
        self.build_request("prompts/get", &RequestParams::PromptGet { name, arguments })
    }
}

/// Appends the JSON rendering of a parameter shape.
fn push_params(s: &mut String, p: &RequestParams)
    ensures
        final(s)@ == old(s)@ + params_json(p@),
{
    match p {
        RequestParams::Initialize => {
            s.append("{\"protocolVersion\":\"2024-11-05\",\"capabilities\":{}}");
        },
        RequestParams::Empty => {
            s.append("{}");
        },
        RequestParams::ToolCall { name, arguments } => {
            s.append("{\"name\":\"");
            push_escaped(s, name.as_str());
            s.append("\",\"arguments\":");
            push_args(s, arguments);
            s.append("}");
            assert(final(s)@ =~= old(s)@ + params_json(p@));
        },
        RequestParams::ResourceRead { uri } => {
            s.append("{\"uri\":\"");
            push_escaped(s, uri.as_str());
            s.append("\"}");
            assert(final(s)@ =~= old(s)@ + params_json(p@));
        },
        RequestParams::PromptGet { name, arguments } => {
            s.append("{\"name\":\"");
            push_escaped(s, name.as_str());
            s.append("\",\"arguments\":");
            push_args(s, arguments);
            s.append("}");
            assert(final(s)@ =~= old(s)@ + params_json(p@));
        },
    }
}

/// Appends the JSON rendering of an arguments object.
fn push_args(s: &mut String, args: &Vec<(String, String)>)
    ensures
        final(s)@ == old(s)@ + args_json(pairs_view(args@)),
{
    let ghost vs = pairs_view(args@);
    s.append("{");
    let ghost head = s@;
    let n = args.len();
    let mut i: usize = 0;
    while i < n
        invariant
            n == args@.len(),
            vs == pairs_view(args@),
            i <= n,
            s@ == head + pair_items_json(vs.take(i as int)),
        decreases n - i,
    {
        proof {
            assert(vs.take(i + 1 as int).drop_last() =~= vs.take(i as int));
            assert(vs.take(i + 1 as int).last() == vs[i as int]);
            assert(vs[i as int] == (args@[i as int].0@, args@[i as int].1@));
            if i == 0 {
                assert(pair_items_json(vs.take(1)) == pair_json(vs[0]));
            }
        }
        if i > 0 {
            s.append(",");
        }
        s.append("\"");
        push_escaped(s, args[i].0.as_str());
        s.append("\":\"");
        push_escaped(s, args[i].1.as_str());
        s.append("\"");
        proof {
            assert(s@ =~= head + pair_items_json(vs.take(i + 1 as int)));
        }
        i += 1;
    }
    s.append("}");
    proof {
        assert(vs.take(n as int) =~= vs);
        assert(final(s)@ =~= old(s)@ + args_json(vs));
    }
}

/// How the client reads one reply line: not one JSON document, a reply
/// whose error member is present, or a result.
pub enum ClientReply {
    Malformed,
    ServerError { code: Option<i64>, message: Option<String> },
    Success,
}

pub enum ClientReplyV {
    Malformed,
    ServerError { code: Option<i64>, message: Option<Seq<char>> },
    Success,
}

impl View for ClientReply {
    type V = ClientReplyV;

    open spec fn view(&self) -> ClientReplyV {
        match self {
            ClientReply::Malformed => ClientReplyV::Malformed,
            ClientReply::ServerError { code, message } => ClientReplyV::ServerError {
                code: *code,
                message: match message {
                    Some(m) => Some(m@),
                    None => None,
                },
            },
            ClientReply::Success => ClientReplyV::Success,
        }
    }
}

/// Classifies one reply line: a line that is not one JSON document is
/// malformed; a reply with an `error` member surfaces its code and
/// message; anything else carries a result.
pub fn interpret_response(line: &str) -> (r: ClientReply)
    ensures
        (r is Malformed) <==> !json_document(line@),
{
    match parse_json(line) {
        None => ClientReply::Malformed,
        Some(v) => {
            match value_get(&v, "error") {
                Some(err) => {
                    let code = match value_get(err, "code") {
                        Some(c) => value_as_i64(c),
                        None => None,
                    };
                    let message = match value_get(err, "message") {
                        Some(m) => value_as_str(m),
                        None => None,
                    };
                    ClientReply::ServerError { code, message }
                },
                None => ClientReply::Success,
            }
        },
    }
}

} // verus!
