use vstd::prelude::*;
use crate::json::{Json, field, member, members, text_of, pick, distinct_keys, distinct_members, entry, object, string};

verus! {

/// What a tool invocation can fail with.
#[derive(Debug, PartialEq)]
pub enum ToolError {
    /// No tool has this name.
    UnknownTool(String),
    /// The required `text` argument is absent or not a string.
    MissingText,
    /// The speech service or the file write failed; the text says why.
    Failed(String),
}

impl ToolError {
    pub open spec fn text(self) -> Seq<char> {
        match self {
            ToolError::UnknownTool(name) => "Unknown tool: "@ + name@,
            ToolError::MissingText => "Missing 'text' parameter"@,
            ToolError::Failed(why) => why@,
        }
    }

    /// The message that a caller is answered with.
    pub fn message(self) -> (r: String)
        ensures
            r@ == self.text(),
    {
        match self {
            ToolError::UnknownTool(name) => {
                let mut m = String::from_str("Unknown tool: ");
                m.append(name.as_str());
                m
            },
            ToolError::MissingText => String::from_str("Missing 'text' parameter"),
            ToolError::Failed(why) => why,
        }
    }
}

/// A tool that callers can invoke: its name, what it does, and a JSON Schema
/// of its arguments.
#[derive(Debug, PartialEq)]
pub struct ToolDescriptor {
    pub name: String,
    pub description: String,
    pub input_schema: Json,
}

/// The one tool of the catalogue.
pub open spec fn speech_tool_name() -> Seq<char> {
    "deepgram_text_to_speech"@
}

/// Where no file name is given, the audio goes here.
pub open spec fn default_filename() -> Seq<char> {
    "output.mp3"@
}

/// `j` describes a string argument with this description.
pub open spec fn string_property(j: Json, description: Seq<char>) -> bool {
    &&& j is Object
    &&& members(j).len() == 2
    &&& text_of(member(j, "type"@)) == Some("string"@)
    &&& text_of(member(j, "description"@)) == Some(description)
}

/// The argument schema of the speech tool: an object with a string `text`,
/// which is required, and a string `filename`, which is not.
pub open spec fn speech_schema(s: Json) -> bool {
    &&& s is Object
    &&& members(s).len() == 3
    &&& text_of(member(s, "type"@)) == Some("object"@)
    &&& (member(s, "properties"@) matches Some(p) && p is Object && members(p).len() == 2 && (member(
        p,
        "text"@,
    ) matches Some(t) && string_property(t, "The text to convert to speech"@)) && (member(
        p,
        "filename"@,
    ) matches Some(f) && string_property(
        f,
        "The filename for the output audio file (optional, defaults to 'output.mp3')"@,
    )))
    &&& (member(s, "required"@) matches Some(Json::Array(req)) && req@.len() == 1 && text_of(
        Some(req@[0]),
    ) == Some("text"@))
}

fn string_property_json(description: &str) -> (r: Json)
    ensures
        string_property(r, description@),
{
    let fields = vec![entry("type", string("string")), entry("description", string(description))];
    proof {
        reveal_strlit("type");
        reveal_strlit("description");
        assert(fields@[0].0@.len() != fields@[1].0@.len());
        assert(distinct_members(fields@));
    }
    object(fields)
}

fn speech_schema_json() -> (r: Json)
    ensures
        speech_schema(r),
{
    let properties = vec![
        entry("text", string_property_json("The text to convert to speech")),
        entry(
            "filename",
            string_property_json(
                "The filename for the output audio file (optional, defaults to 'output.mp3')",
            ),
        ),
    ];
    proof {
        reveal_strlit("text");
        reveal_strlit("filename");
        assert(properties@[0].0@.len() != properties@[1].0@.len());
        assert(distinct_members(properties@));
    }
    let properties = object(properties);
    let required = Json::Array(vec![string("text")]);
    let fields = vec![
        entry("type", string("object")),
        entry("properties", properties),
        entry("required", required),
    ];
    proof {
        reveal_strlit("type");
        reveal_strlit("properties");
        reveal_strlit("required");
        assert("properties"@[0] != "required"@[0]);
        assert(distinct_members(fields@));
    }
    object(fields)
}

/// The catalogue of tools, in a fixed order: the one speech tool, whose
/// `text` argument is required.
pub fn list_tools() -> (r: Vec<ToolDescriptor>)
    ensures
        r@.len() == 1,
        r@[0].name@ == speech_tool_name(),
        r@[0].description@
            == "Generate an audio file from text using Deepgram's text-to-speech API. The audio will be saved as an MP3 file."@,
        speech_schema(r@[0].input_schema),
{
    vec![
        ToolDescriptor {
            name: String::from_str("deepgram_text_to_speech"),
            description: String::from_str(
                "Generate an audio file from text using Deepgram's text-to-speech API. The audio will be saved as an MP3 file.",
            ),
            input_schema: speech_schema_json(),
        },
    ]
}

/// `j` is the wire form of tool `t`.
pub open spec fn describes(j: Json, t: ToolDescriptor) -> bool {
    &&& j is Object
    &&& members(j).len() == 3
    &&& text_of(member(j, "name"@)) == Some(t.name@)
    &&& text_of(member(j, "description"@)) == Some(t.description@)
    &&& member(j, "inputSchema"@) == Some(t.input_schema)
}

/// `j` is the wire form of the speech tool's descriptor.
pub open spec fn describes_speech_tool(j: Json) -> bool {
    &&& j is Object
    &&& members(j).len() == 3
    &&& text_of(member(j, "name"@)) == Some(speech_tool_name())
    &&& text_of(member(j, "description"@)) == Some(
        "Generate an audio file from text using Deepgram's text-to-speech API. The audio will be saved as an MP3 file."@,
    )
    &&& (member(j, "inputSchema"@) matches Some(s) && speech_schema(s))
}

/// `j` is the answer to a listing: `{tools: [...]}` with the speech tool alone.
pub open spec fn lists_tools(j: Json) -> bool {
    &&& j is Object
    &&& members(j).len() == 1
    &&& (member(j, "tools"@) matches Some(Json::Array(items)) && items@.len() == 1
        && describes_speech_tool(items@[0]))
}

/// The catalogue in its wire form, `{tools: [...]}`, in catalogue order.
pub fn catalogue() -> (r: Json)
    ensures
        lists_tools(r),
{
    let mut tools = list_tools();
    let ghost all = tools@;
    let mut items: Vec<Json> = Vec::new();
    while tools.len() > 0
        invariant
            items@.len() + tools@.len() == all.len(),
            tools@ == all.subrange(items@.len() as int, all.len() as int),
            forall|i: int| 0 <= i < items@.len() ==> describes(#[trigger] items@[i], all[i]),
        decreases tools@.len(),
    {
        let t = tools.remove(0);
        items.push(t.into_json());
    }
    let fields = vec![entry("tools", Json::Array(items))];
    assert(describes(items@[0], all[0]));
    object(fields)
}

impl ToolDescriptor {
    /// The wire form of this descriptor.
    pub fn into_json(self) -> (r: Json)
        ensures
            describes(r, self),
    {
        let fields = vec![
            entry("name", Json::Str(self.name)),
            entry("description", Json::Str(self.description)),
            entry("inputSchema", self.input_schema),
        ];
        proof {
            reveal_strlit("name");
            reveal_strlit("description");
            reveal_strlit("inputSchema");
            assert(fields@[0].0@.len() != fields@[1].0@.len());
            assert(fields@[1].0@[0] != fields@[2].0@[0]);
            assert(distinct_members(fields@));
        }
        object(fields)
    }
}

/// A speech job for the outside service: the text to speak and the file
/// that receives the audio.
#[derive(Debug, PartialEq)]
pub struct SpeechRequest {
    pub text: String,
    pub filename: String,
}

/// What invoking tool `name` with `arguments` asks for: the text and the
/// file name of the speech job, or why there is none. Arguments other than
/// `text` and `filename` are ignored; a `filename` that is not a string counts
/// as absent.
pub open spec fn planned(name: String, arguments: Seq<(String, Json)>) -> Result<
    (Seq<char>, Seq<char>),
    ToolError,
> {
    if name@ != speech_tool_name() {
        Err(ToolError::UnknownTool(name))
    } else {
        match text_of(field(arguments, "text"@)) {
            None => Err(ToolError::MissingText),
            Some(t) => Ok(
                (
                    t,
                    match text_of(field(arguments, "filename"@)) {
                        Some(f) => f,
                        None => default_filename(),
                    },
                ),
            ),
        }
    }
}

/// Looks the tool up and reads its arguments.
pub fn prepare_call(name: String, arguments: Vec<(String, Json)>) -> (r: Result<
    SpeechRequest,
    ToolError,
>)
    ensures
        match planned(name, arguments@) {
            Ok((t, f)) => (r matches Ok(q) && q.text@ == t && q.filename@ == f),
            Err(e) => r == Err::<SpeechRequest, ToolError>(e),
        },
{
    if name != String::from_str("deepgram_text_to_speech") {
        return Err(ToolError::UnknownTool(name));
    }
    let keys = vec![String::from_str("text"), String::from_str("filename")];
    proof {
        reveal_strlit("text");
        reveal_strlit("filename");
        assert(keys@[0]@.len() != keys@[1]@.len());
        assert(distinct_keys(keys@));
    }
    let mut got = pick(arguments, &keys);
    let filename = got.pop().unwrap();
    let text = got.pop().unwrap();
    match text {
        Some(Json::Str(text)) => {
            let filename = match filename {
                Some(Json::Str(f)) => f,
                _ => String::from_str("output.mp3"),
            };
            Ok(SpeechRequest { text, filename })
        },
        _ => Err(ToolError::MissingText),
    }
}

/// The confirmation that a finished speech job reports.
pub open spec fn confirmation(text: Seq<char>, filename: Seq<char>) -> Seq<char> {
    "Successfully generated audio file '"@ + filename + "' from text: \""@ + text + "\""@
}

/// `j` is a tool result of one text item that reads `message`.
pub open spec fn reports(j: Json, message: Seq<char>) -> bool {
    &&& j is Object
    &&& members(j).len() == 1
    &&& (member(j, "content"@) matches Some(Json::Array(items)) && items@.len() == 1 && items@[0] is Object
        && members(items@[0]).len() == 2 && text_of(member(items@[0], "type"@)) == Some("text"@)
        && text_of(member(items@[0], "text"@)) == Some(message))
}

/// The result of a speech job, given what the outside service and the file
/// write came to: `Ok` when both succeeded, else the text of their failure.
pub fn call_result(request: &SpeechRequest, outcome: Result<(), String>) -> (r: Result<
    Json,
    ToolError,
>)
    ensures
        match outcome {
            Ok(_) => (r matches Ok(j) && reports(j, confirmation(request.text@, request.filename@))),
            Err(why) => r == Err::<Json, ToolError>(ToolError::Failed(why)),
        },
{
    match outcome {
        Err(why) => Err(ToolError::Failed(why)),
        Ok(_) => {
            let mut message = String::from_str("Successfully generated audio file '");
            message.append(request.filename.as_str());
            message.append("' from text: \"");
            message.append(request.text.as_str());
            message.append("\"");
            let item_fields = vec![entry("type", string("text")), entry("text", Json::Str(message))];
            proof {
                reveal_strlit("type");
                reveal_strlit("text");
                assert(item_fields@[0].0@[1] != item_fields@[1].0@[1]);
                assert(distinct_members(item_fields@));
            }
            let item = object(item_fields);
            let fields = vec![entry("content", Json::Array(vec![item]))];
            let j = object(fields);
            Ok(j)
        },
    }
}

} // verus!
