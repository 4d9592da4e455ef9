use deepgram_mcp::dispatch::{complete, dispatch, Dispatch, Failure, PendingCall};
use deepgram_mcp::json::{pick, Json};
use deepgram_mcp::message::{decode, DecodeFailure, Request, Response, RpcError, INTERNAL_ERROR};
use deepgram_mcp::session::{blank, Action, Input, Phase, Session};
use deepgram_mcp::tools::{call_result, catalogue, list_tools, prepare_call, SpeechRequest, ToolError};

fn s(t: &str) -> String {
    t.to_string()
}

fn js(t: &str) -> Json {
    Json::Str(s(t))
}

fn obj(fields: Vec<(&str, Json)>) -> Json {
    Json::Object(fields.into_iter().map(|(k, v)| (s(k), v)).collect())
}

fn get<'a>(j: &'a Json, key: &str) -> Option<&'a Json> {
    match j {
        Json::Object(fields) => fields.iter().rev().find(|(k, _)| k == key).map(|(_, v)| v),
        _ => None,
    }
}

fn request(id: Option<Json>, method: &str, params: Option<Json>) -> Request {
    Request { jsonrpc: s("2.0"), id, method: s(method), params }
}

fn reply(d: Dispatch) -> Response {
    match d {
        Dispatch::Reply(r) => r,
        Dispatch::Invoke(c) => panic!("expected an immediate answer, got a job {:?}", c),
    }
}

fn call_params(name: &str, arguments: Json) -> Option<Json> {
    Some(obj(vec![("name", js(name)), ("arguments", arguments)]))
}

fn error_message(r: &Response) -> String {
    match &r.outcome {
        Err(e) => {
            assert_eq!(e.code, -32603);
            e.message.clone()
        }
        Ok(v) => panic!("expected an error, got {:?}", v),
    }
}

#[test]
fn unknown_method_is_internal_error_naming_it() {
    let r = reply(dispatch(request(Some(Json::Number(s("1"))), "unknown/x", None)));
    let m = error_message(&r);
    assert!(m.contains("unknown/x"));
    assert_eq!(m, "Unknown method: unknown/x");
    assert_eq!(r.id, Some(Json::Number(s("1"))));
}

fn sample_id(k: usize) -> Option<Json> {
    match k {
        0 => Some(js("abc")),
        1 => Some(Json::Number(s("42"))),
        2 => Some(Json::Number(s("1.5"))),
        3 => Some(Json::Null),
        _ => None,
    }
}

#[test]
fn id_is_echoed_for_string_number_null_and_absent() {
    for k in 0..5 {
        for method in ["initialize", "tools/list", "unknown/x", "tools/call"] {
            let r = reply(dispatch(request(sample_id(k), method, None)));
            assert_eq!(r.id, sample_id(k));
            let j = r.into_json();
            assert_eq!(get(&j, "id"), sample_id(k).as_ref());
        }
    }
}

#[test]
fn absent_id_is_left_out_of_the_wire_form() {
    let j = reply(dispatch(request(None, "unknown/x", None))).into_json();
    assert!(get(&j, "id").is_none());
    let j = reply(dispatch(request(Some(Json::Null), "unknown/x", None))).into_json();
    assert_eq!(get(&j, "id"), Some(&Json::Null));
}

#[test]
fn wire_form_has_result_or_error_never_both() {
    let ok = reply(dispatch(request(Some(Json::Number(s("1"))), "initialize", None))).into_json();
    assert!(get(&ok, "result").is_some());
    assert!(get(&ok, "error").is_none());
    assert_eq!(get(&ok, "jsonrpc"), Some(&js("2.0")));
    let bad = reply(dispatch(request(Some(Json::Number(s("2"))), "nope", None))).into_json();
    assert!(get(&bad, "result").is_none());
    let e = get(&bad, "error").unwrap();
    assert_eq!(get(e, "code"), Some(&Json::Number(s("-32603"))));
    assert_eq!(get(e, "message"), Some(&js("Unknown method: nope")));
    assert_eq!(get(e, "data"), Some(&Json::Null));
}

#[test]
fn initialize_reports_fixed_metadata() {
    let r = reply(dispatch(request(Some(Json::Number(s("0"))), "initialize", None)));
    let v = r.outcome.unwrap();
    assert_eq!(get(&v, "protocolVersion"), Some(&js("2024-11-05")));
    let info = get(&v, "serverInfo").unwrap();
    assert_eq!(get(info, "name"), Some(&js("deepgram-mcp")));
    assert_eq!(get(info, "version"), Some(&js("0.1.0")));
    assert_eq!(get(get(&v, "capabilities").unwrap(), "tools"), Some(&Json::Object(vec![])));
}

#[test]
fn tools_list_has_one_speech_tool_with_text_required() {
    let r = reply(dispatch(request(Some(Json::Number(s("3"))), "tools/list", None)));
    let v = r.outcome.unwrap();
    let tools = match get(&v, "tools") {
        Some(Json::Array(items)) => items,
        other => panic!("no tool array: {:?}", other),
    };
    assert_eq!(tools.len(), 1);
    assert_eq!(get(&tools[0], "name"), Some(&js("deepgram_text_to_speech")));
    let schema = get(&tools[0], "inputSchema").unwrap();
    assert_eq!(get(schema, "required"), Some(&Json::Array(vec![js("text")])));
    let props = get(schema, "properties").unwrap();
    assert_eq!(get(get(props, "text").unwrap(), "type"), Some(&js("string")));
    assert!(get(props, "filename").is_some());
}

#[test]
fn list_tools_catalogue() {
    let tools = list_tools();
    assert_eq!(tools.len(), 1);
    assert_eq!(tools[0].name, "deepgram_text_to_speech");
    assert!(tools[0].description.contains("MP3"));
    let c = catalogue();
    assert!(matches!(get(&c, "tools"), Some(Json::Array(items)) if items.len() == 1));
}

#[test]
fn tool_call_success_mentions_text_and_default_filename() {
    let args = obj(vec![("text", js("hi"))]);
    let d = dispatch(request(Some(Json::Number(s("5"))), "tools/call", call_params("deepgram_text_to_speech", args)));
    let call = match d {
        Dispatch::Invoke(c) => c,
        Dispatch::Reply(r) => panic!("expected a job, got {:?}", r),
    };
    assert_eq!(call.request, SpeechRequest { text: s("hi"), filename: s("output.mp3") });
    let r = complete(call, Ok(()));
    assert_eq!(r.id, Some(Json::Number(s("5"))));
    let v = r.outcome.unwrap();
    let text = match get(&v, "content") {
        Some(Json::Array(items)) => {
            assert_eq!(get(&items[0], "type"), Some(&js("text")));
            get(&items[0], "text").cloned_text()
        }
        other => panic!("no content: {:?}", other),
    };
    assert!(text.contains("hi"));
    assert!(text.contains("output.mp3"));
    assert_eq!(text, "Successfully generated audio file 'output.mp3' from text: \"hi\"");
}

trait ClonedText {
    fn cloned_text(self) -> String;
}

impl ClonedText for Option<&Json> {
    fn cloned_text(self) -> String {
        match self {
            Some(Json::Str(t)) => t.clone(),
            other => panic!("not a string: {:?}", other),
        }
    }
}

#[test]
fn tool_call_service_failure_is_reported() {
    let args = obj(vec![("text", js("hi"))]);
    let d = dispatch(request(Some(js("r")), "tools/call", call_params("deepgram_text_to_speech", args)));
    let call = match d {
        Dispatch::Invoke(c) => c,
        Dispatch::Reply(r) => panic!("expected a job, got {:?}", r),
    };
    let r = complete(call, Err(s("503")));
    assert_eq!(r.id, Some(js("r")));
    assert!(error_message(&r).contains("503"));
}

#[test]
fn tool_call_uses_given_filename() {
    let args = obj(vec![("text", js("hello")), ("filename", js("a.mp3")), ("extra", Json::Bool(true))]);
    match dispatch(request(None, "tools/call", call_params("deepgram_text_to_speech", args))) {
        Dispatch::Invoke(c) => assert_eq!(c.request, SpeechRequest { text: s("hello"), filename: s("a.mp3") }),
        Dispatch::Reply(r) => panic!("expected a job, got {:?}", r),
    }
}

#[test]
fn tool_call_without_text_fails() {
    let r = reply(dispatch(request(Some(Json::Number(s("6"))), "tools/call", call_params("deepgram_text_to_speech", obj(vec![])))));
    assert_eq!(error_message(&r), "Missing 'text' parameter");
    let r = reply(dispatch(request(None, "tools/call", call_params("deepgram_text_to_speech", obj(vec![("text", Json::Number(s("3")))])))));
    assert_eq!(error_message(&r), "Missing 'text' parameter");
}

#[test]
fn tool_call_protocol_failures() {
    let r = reply(dispatch(request(None, "tools/call", None)));
    assert_eq!(error_message(&r), "Missing params");
    let r = reply(dispatch(request(None, "tools/call", Some(obj(vec![("arguments", obj(vec![]))])))));
    assert_eq!(error_message(&r), "Missing tool name");
    let r = reply(dispatch(request(None, "tools/call", Some(Json::Array(vec![])))));
    assert_eq!(error_message(&r), "Missing tool name");
    let r = reply(dispatch(request(None, "tools/call", call_params("other", obj(vec![("text", js("x"))])))));
    assert_eq!(error_message(&r), "Unknown tool: other");
}

#[test]
fn missing_arguments_count_as_empty() {
    let r = reply(dispatch(request(None, "tools/call", Some(obj(vec![("name", js("deepgram_text_to_speech"))])))));
    assert_eq!(error_message(&r), "Missing 'text' parameter");
}

#[test]
fn prepare_and_finish_tool_calls() {
    let e = prepare_call(s("x"), vec![]).unwrap_err();
    assert_eq!(e, ToolError::UnknownTool(s("x")));
    assert_eq!(e.message(), "Unknown tool: x");
    let q = prepare_call(s("deepgram_text_to_speech"), vec![(s("text"), js("a")), (s("text"), js("b"))]).unwrap();
    assert_eq!(q.text, "b");
    let r = call_result(&q, Err(s("Deepgram API error: quota")));
    assert_eq!(r, Err(ToolError::Failed(s("Deepgram API error: quota"))));
    assert_eq!(Failure::Tool(ToolError::MissingText).message(), "Missing 'text' parameter");
}

#[test]
fn pending_call_keeps_id() {
    let call = PendingCall { id: Some(js("k")), request: SpeechRequest { text: s("t"), filename: s("f.mp3") } };
    let r = complete(call, Ok(()));
    assert_eq!(r.id, Some(js("k")));
}

#[test]
fn decode_accepts_requests_and_reports_shape_errors() {
    let r = decode(obj(vec![("jsonrpc", js("2.0")), ("id", Json::Number(s("7"))), ("method", js("tools/list")), ("extra", Json::Null)])).unwrap();
    assert_eq!(r, request(Some(Json::Number(s("7"))), "tools/list", None));
    let r = decode(obj(vec![("jsonrpc", js("2.0")), ("method", js("m")), ("params", Json::Null)])).unwrap();
    assert_eq!(r.id, None);
    assert_eq!(r.params, None);
    assert_eq!(decode(Json::Array(vec![])), Err(DecodeFailure::NotAnObject));
    assert_eq!(decode(obj(vec![("method", js("m"))])), Err(DecodeFailure::MissingVersion));
    assert_eq!(decode(obj(vec![("jsonrpc", Json::Bool(true)), ("method", js("m"))])), Err(DecodeFailure::InvalidVersion));
    assert_eq!(decode(obj(vec![("jsonrpc", js("2.0"))])), Err(DecodeFailure::MissingMethod));
    assert_eq!(decode(obj(vec![("jsonrpc", js("2.0")), ("method", Json::Number(s("1")))])), Err(DecodeFailure::InvalidMethod));
    assert_eq!(DecodeFailure::MissingMethod.message(), "missing field `method`");
}

#[test]
fn pick_takes_last_duplicate() {
    let fields = vec![(s("a"), js("1")), (s("b"), js("2")), (s("a"), js("3"))];
    let got = pick(fields, &vec![s("a"), s("c"), s("b")]);
    assert_eq!(got, vec![Some(js("3")), None, Some(js("2"))]);
}

#[test]
fn integers_encode_as_decimal_text() {
    assert_eq!(Json::integer(-32603), Json::Number(s("-32603")));
    assert_eq!(Json::integer(0), Json::Number(s("0")));
    assert_eq!(Json::integer(i64::MIN), Json::Number(s("-9223372036854775808")));
    assert_eq!(Json::integer(i64::MAX), Json::Number(s("9223372036854775807")));
    let e = RpcError { code: INTERNAL_ERROR, message: s("m"), data: Some(js("d")) }.into_json();
    assert_eq!(get(&e, "data"), Some(&js("d")));
}

fn line(text: &str, parsed: Result<Json, String>) -> Input {
    Input::Line { text: s(text), parsed }
}

#[test]
fn malformed_line_is_reported_and_loop_goes_on() {
    let mut session = Session::new();
    let a = session.step(line("not json\n", Err(s("expected ident at line 1 column 2"))));
    assert_eq!(a, Action::Report(s("Failed to parse request: expected ident at line 1 column 2")));
    assert!(session.is_open());
    let a = session.step(line("[1]\n", Ok(Json::Array(vec![]))));
    assert_eq!(a, Action::Report(s("Failed to parse request: expected a JSON object")));
    assert!(session.is_open());
}

#[test]
fn blank_lines_are_skipped() {
    let mut session = Session::new();
    for text in ["\n", "", "   \t\r\n", "\u{a0}\u{3000}"] {
        assert!(blank(text));
        assert_eq!(session.step(line(text, Err(s("EOF while parsing a value")))), Action::Skip);
        assert_eq!(session.phase, Phase::Open);
    }
    assert!(!blank(" x "));
}

#[test]
fn end_after_requests_answers_each_in_order() {
    let mut session = Session::new();
    let mut handled = Vec::new();
    for (i, m) in ["initialize", "tools/list", "bogus"].iter().enumerate() {
        let j = obj(vec![("jsonrpc", js("2.0")), ("id", Json::Number(i.to_string())), ("method", js(m))]);
        match session.step(line("{...}\n", Ok(j))) {
            Action::Handle(r) => handled.push(reply(dispatch(r))),
            other => panic!("expected a request, got {:?}", other),
        }
    }
    assert_eq!(session.step(Input::End), Action::Stop);
    assert_eq!(session.phase, Phase::Closed);
    assert!(!session.is_open());
    assert_eq!(handled.len(), 3);
    for (i, r) in handled.iter().enumerate() {
        assert_eq!(r.id, Some(Json::Number(i.to_string())));
    }
    assert!(handled[2].outcome.is_err());
}

#[test]
fn read_failure_breaks_the_session() {
    let mut session = Session::new();
    assert_eq!(session.step(Input::Failed(s("bad utf-8"))), Action::Abort(s("Failed to read line: bad utf-8")));
    assert_eq!(session.phase, Phase::Broken);
}
