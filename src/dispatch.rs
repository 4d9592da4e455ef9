use vstd::prelude::*;
use crate::json::{Json, field, member, members, text_of, pick, distinct_keys, distinct_members, entry, object, string};
use crate::message::{Request, Response, RpcError, INTERNAL_ERROR, encodes};
use crate::tools::{
    ToolError, SpeechRequest, planned, prepare_call, call_result, catalogue, lists_tools, reports,
    confirmation,
};

verus! {

/// Why a request was not carried out. Every failure is answered alike: the
/// internal-error code, with the failure's text as the message.
#[derive(Debug, PartialEq)]
pub enum Failure {
    UnknownMethod(String),
    MissingParams,
    MissingToolName,
    Tool(ToolError),
}

impl Failure {
    pub open spec fn text(self) -> Seq<char> {
        match self {
            Failure::UnknownMethod(m) => "Unknown method: "@ + m@,
            Failure::MissingParams => "Missing params"@,
            Failure::MissingToolName => "Missing tool name"@,
            Failure::Tool(e) => e.text(),
        }
    }

    /// The message that a caller is answered with.
    pub fn message(self) -> (r: String)
        ensures
            r@ == self.text(),
    {
        match self {
            Failure::UnknownMethod(m) => {
                let mut r = String::from_str("Unknown method: ");
                r.append(m.as_str());
                r
            },
            Failure::MissingParams => String::from_str("Missing params"),
            Failure::MissingToolName => String::from_str("Missing tool name"),
            Failure::Tool(e) => e.message(),
        }
    }
}

/// A tool call that waits for the speech service: the id to answer with and
/// the job to run.
#[derive(Debug, PartialEq)]
pub struct PendingCall {
    pub id: Option<Json>,
    pub request: SpeechRequest,
}

/// What a request comes to: an answer now, or a speech job whose outcome
/// `complete` turns into the answer.
#[derive(Debug, PartialEq)]
pub enum Dispatch {
    Reply(Response),
    Invoke(PendingCall),
}

/// `r` is the answer with this id that reports failure `f`.
pub open spec fn failed_with(r: Response, id: Option<Json>, f: Failure) -> bool {
    &&& r.id == id
    &&& (r.outcome matches Err(e) && e.code == INTERNAL_ERROR && e.message@ == f.text()
        && e.data is None)
}

/// `r` is the successful answer with this id whose result `v` has property `p`.
pub open spec fn succeeded_with(r: Response, id: Option<Json>, p: spec_fn(Json) -> bool) -> bool {
    &&& r.id == id
    &&& (r.outcome matches Ok(v) && p(v))
}

/// The result of `initialize`: protocol version, capabilities and server
/// identity, all fixed.
pub open spec fn server_info(j: Json) -> bool {
    &&& j is Object
    &&& members(j).len() == 3
    &&& text_of(member(j, "protocolVersion"@)) == Some("2024-11-05"@)
    &&& (member(j, "capabilities"@) matches Some(c) && c is Object && members(c).len() == 1 && (member(
        c,
        "tools"@,
    ) matches Some(t) && t is Object && members(t).len() == 0))
    &&& (member(j, "serverInfo"@) matches Some(s) && s is Object && members(s).len() == 2 && text_of(
        member(s, "name"@),
    ) == Some("deepgram-mcp"@) && text_of(member(s, "version"@)) == Some("0.1.0"@))
}

/// The members of `arguments` where it is an object; none otherwise.
pub open spec fn arguments_of(arguments: Option<Json>) -> Seq<(String, Json)> {
    match arguments {
        Some(Json::Object(fields)) => fields@,
        _ => Seq::empty(),
    }
}

/// What `tools/call` with these parameters asks for: the speech job's text
/// and file name, or the failure. `params.name` must be a string;
/// `params.arguments` counts as empty unless it is an object.
pub open spec fn call_plan(params: Option<Json>) -> Result<(Seq<char>, Seq<char>), Failure> {
    match params {
        None => Err(Failure::MissingParams),
        Some(p) => match member(p, "name"@) {
            Some(Json::Str(name)) => match planned(name, arguments_of(member(p, "arguments"@))) {
                Ok(job) => Ok(job),
                Err(e) => Err(Failure::Tool(e)),
            },
            _ => Err(Failure::MissingToolName),
        },
    }
}

/// The methods that are served.
pub open spec fn is_known_method(m: Seq<char>) -> bool {
    m == "initialize"@ || m == "tools/list"@ || m == "tools/call"@
}

/// The id that the outcome of a dispatch answers with.
pub open spec fn dispatch_id(d: Dispatch) -> Option<Json> {
    match d {
        Dispatch::Reply(r) => r.id,
        Dispatch::Invoke(c) => c.id,
    }
}

/// `d` is what `request` comes to.
pub open spec fn answers(request: Request, d: Dispatch) -> bool {
    &&& dispatch_id(d) == request.id
    &&& request.method@ == "initialize"@ ==> (d matches Dispatch::Reply(r) && succeeded_with(
        r,
        request.id,
        |v: Json| server_info(v),
    ))
    &&& request.method@ == "tools/list"@ ==> (d matches Dispatch::Reply(r) && succeeded_with(
        r,
        request.id,
        |v: Json| lists_tools(v),
    ))
    &&& request.method@ == "tools/call"@ ==> match call_plan(request.params) {
        Ok((text, filename)) => (d matches Dispatch::Invoke(c) && c.request.text@ == text
            && c.request.filename@ == filename),
        Err(f) => (d matches Dispatch::Reply(r) && failed_with(r, request.id, f)),
    }
    &&& !is_known_method(request.method@) ==> (d matches Dispatch::Reply(r) && failed_with(
        r,
        request.id,
        Failure::UnknownMethod(request.method),
    ))
}

/// `r` is the answer to `call` once its job came to `outcome`.
pub open spec fn completes(call: PendingCall, outcome: Result<(), String>, r: Response) -> bool {
    match outcome {
        Ok(_) => succeeded_with(
            r,
            call.id,
            |v: Json| reports(v, confirmation(call.request.text@, call.request.filename@)),
        ),
        Err(why) => failed_with(r, call.id, Failure::Tool(ToolError::Failed(why))),
    }
}

/// The answer that reports failure `f`.
pub fn failure_response(id: Option<Json>, f: Failure) -> (r: Response)
    ensures
        failed_with(r, id, f),
{
    let message = f.message();
    Response { id, outcome: Err(RpcError { code: INTERNAL_ERROR, message, data: None }) }
}

/// The fixed result of `initialize`.
pub fn server_info_json() -> (r: Json)
    ensures
        server_info(r),
{
    let capabilities = object(vec![entry("tools", object(Vec::new()))]);
    let identity = vec![entry("name", string("deepgram-mcp")), entry("version", string("0.1.0"))];
    proof {
        reveal_strlit("name");
        reveal_strlit("version");
        assert(identity@[0].0@.len() != identity@[1].0@.len());
        assert(distinct_members(identity@));
    }
    let identity = object(identity);
    let fields = vec![
        entry("protocolVersion", string("2024-11-05")),
        entry("capabilities", capabilities),
        entry("serverInfo", identity),
    ];
    proof {
        reveal_strlit("protocolVersion");
        reveal_strlit("capabilities");
        reveal_strlit("serverInfo");
        assert(fields@[0].0@.len() != fields@[1].0@.len());
        assert(fields@[0].0@.len() != fields@[2].0@.len());
        assert(fields@[1].0@.len() != fields@[2].0@.len());
        assert(distinct_members(fields@));
    }
    object(fields)
}

fn plan_call(params: Option<Json>) -> (r: Result<SpeechRequest, Failure>)
    ensures
        match call_plan(params) {
            Ok((text, filename)) => (r matches Ok(q) && q.text@ == text && q.filename@ == filename),
            Err(f) => r == Err::<SpeechRequest, Failure>(f),
        },
{
    match params {
        None => Err(Failure::MissingParams),
        Some(Json::Object(fields)) => {
            let keys = vec![String::from_str("name"), String::from_str("arguments")];
            proof {
                reveal_strlit("name");
                reveal_strlit("arguments");
                assert(keys@[0]@.len() != keys@[1]@.len());
                assert(distinct_keys(keys@));
            }
            let mut got = pick(fields, &keys);
            let arguments = got.pop().unwrap();
            let name = got.pop().unwrap();
            match name {
                Some(Json::Str(name)) => {
                    let arguments = match arguments {
                        Some(Json::Object(a)) => a,
                        _ => Vec::new(),
                    };
                    assert(arguments@ == arguments_of(member(params->0, "arguments"@)));
                    match prepare_call(name, arguments) {
                        Ok(q) => Ok(q),
                        Err(e) => Err(Failure::Tool(e)),
                    }
                },
                _ => Err(Failure::MissingToolName),
            }
        },
        Some(_) => Err(Failure::MissingToolName),
    }
}

/// Routes a request to its handler by method name.
pub fn dispatch(request: Request) -> (r: Dispatch)
    ensures
        answers(request, r),
{
    let ghost req = request;
    let id = request.id;
    proof {
        reveal_strlit("initialize");
        reveal_strlit("tools/list");
        reveal_strlit("tools/call");
        assert("initialize"@[0] != "tools/list"@[0]);
        assert("initialize"@[0] != "tools/call"@[0]);
        assert("tools/list"@[6] != "tools/call"@[6]);
    }
    if request.method == String::from_str("initialize") {
        Dispatch::Reply(Response { id, outcome: Ok(server_info_json()) })
    } else if request.method == String::from_str("tools/list") {
        Dispatch::Reply(Response { id, outcome: Ok(catalogue()) })
    } else if request.method == String::from_str("tools/call") {
        match plan_call(request.params) {
            Ok(q) => Dispatch::Invoke(PendingCall { id, request: q }),
            Err(f) => Dispatch::Reply(failure_response(id, f)),
        }
    } else {
        Dispatch::Reply(failure_response(id, Failure::UnknownMethod(request.method)))
    }
}

/// The answer to a tool call, once its speech job came to `outcome`.
pub fn complete(call: PendingCall, outcome: Result<(), String>) -> (r: Response)
    ensures
        completes(call, outcome, r),
{
    match call_result(&call.request, outcome) {
        Ok(v) => Response { id: call.id, outcome: Ok(v) },
        Err(e) => failure_response(call.id, Failure::Tool(e)),
    }
}

/// The wire form of the answer to a request carries the request's `id`
/// exactly, and no `id` when the request had none; this holds whether the
/// request is answered at once or after its speech job.
pub proof fn lemma_id_echoed(
    request: Request,
    d: Dispatch,
    outcome: Result<(), String>,
    r: Response,
    j: Json,
)
    requires
        answers(request, d),
        match d {
            Dispatch::Reply(now) => r == now,
            Dispatch::Invoke(call) => completes(call, outcome, r),
        },
        encodes(j, r),
    ensures
        member(j, "id"@) == request.id,
{
}

/// A call of the speech tool whose arguments lack a string `text` is answered
/// with an error at once, and never runs a job.
pub proof fn lemma_call_without_text_fails(request: Request, d: Dispatch)
    requires
        answers(request, d),
        request.method@ == "tools/call"@,
        request.params matches Some(p) && text_of(member(p, "name"@)) == Some(
            "deepgram_text_to_speech"@,
        ) && text_of(field(arguments_of(member(p, "arguments"@)), "text"@)) is None,
    ensures
        d matches Dispatch::Reply(r) && failed_with(
            r,
            request.id,
            Failure::Tool(ToolError::MissingText),
        ),
{
}

} // verus!
