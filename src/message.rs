use vstd::prelude::*;
use crate::json::{Json, field, member, members, text_of, decimal, pick, distinct_keys};

verus! {

/// The error code that every failed request is answered with: "internal error".
pub const INTERNAL_ERROR: i64 = -32603;

/// An inbound call. `id` is kept exactly as it came, an explicit `null`
/// included; `None` means that the message had no `id` member.
#[derive(Debug, PartialEq)]
pub struct Request {
    pub jsonrpc: String,
    pub id: Option<Json>,
    pub method: String,
    pub params: Option<Json>,
}

/// The error object of a failed call.
#[derive(Debug, PartialEq)]
pub struct RpcError {
    pub code: i64,
    pub message: String,
    pub data: Option<Json>,
}

/// An answer: the request's `id`, and either a result or an error.
#[derive(Debug, PartialEq)]
pub struct Response {
    pub id: Option<Json>,
    pub outcome: Result<Json, RpcError>,
}

/// Why a line's JSON value is not a request.
#[derive(Debug, PartialEq, Eq)]
pub enum DecodeFailure {
    NotAnObject,
    MissingVersion,
    InvalidVersion,
    MissingMethod,
    InvalidMethod,
}

impl DecodeFailure {
    pub open spec fn text(self) -> Seq<char> {
        match self {
            DecodeFailure::NotAnObject => "expected a JSON object"@,
            DecodeFailure::MissingVersion => "missing field `jsonrpc`"@,
            DecodeFailure::InvalidVersion => "field `jsonrpc` is not a string"@,
            DecodeFailure::MissingMethod => "missing field `method`"@,
            DecodeFailure::InvalidMethod => "field `method` is not a string"@,
        }
    }

    /// A diagnostic for the operator.
    pub fn message(&self) -> (r: String)
        ensures
            r@ == self.text(),
    {
        match self {
            DecodeFailure::NotAnObject => String::from_str("expected a JSON object"),
            DecodeFailure::MissingVersion => String::from_str("missing field `jsonrpc`"),
            DecodeFailure::InvalidVersion => String::from_str("field `jsonrpc` is not a string"),
            DecodeFailure::MissingMethod => String::from_str("missing field `method`"),
            DecodeFailure::InvalidMethod => String::from_str("field `method` is not a string"),
        }
    }
}

/// `params: null` counts as no parameters.
pub open spec fn without_null(p: Option<Json>) -> Option<Json> {
    match p {
        Some(Json::Null) => None,
        _ => p,
    }
}

/// The request that a JSON value stands for, or why it stands for none:
/// an object with string members `jsonrpc` and `method`, and optional `id`
/// and `params`; other members are ignored.
pub open spec fn decoded(j: Json) -> Result<Request, DecodeFailure> {
    match j {
        Json::Object(fields) => match field(fields@, "jsonrpc"@) {
            None => Err(DecodeFailure::MissingVersion),
            Some(Json::Str(version)) => match field(fields@, "method"@) {
                None => Err(DecodeFailure::MissingMethod),
                Some(Json::Str(method)) => Ok(
                    Request {
                        jsonrpc: version,
                        id: field(fields@, "id"@),
                        method,
                        params: without_null(field(fields@, "params"@)),
                    },
                ),
                Some(_) => Err(DecodeFailure::InvalidMethod),
            },
            Some(_) => Err(DecodeFailure::InvalidVersion),
        },
        _ => Err(DecodeFailure::NotAnObject),
    }
}

/// Reads a request out of a JSON value.
pub fn decode(j: Json) -> (r: Result<Request, DecodeFailure>)
    ensures
        r == decoded(j),
{
    match j {
        Json::Object(fields) => {
            let keys = vec![
                String::from_str("jsonrpc"),
                String::from_str("id"),
                String::from_str("method"),
                String::from_str("params"),
            ];
            proof {
                reveal_strlit("jsonrpc");
                reveal_strlit("id");
                reveal_strlit("method");
                reveal_strlit("params");
                assert(keys@[0]@.len() == 7 && keys@[1]@.len() == 2);
                assert(keys@[2]@[0] != keys@[3]@[0]);
                assert(distinct_keys(keys@));
            }
            let mut got = pick(fields, &keys);
            let params = got.pop().unwrap();
            let method = got.pop().unwrap();
            let id = got.pop().unwrap();
            let version = got.pop().unwrap();
            match version {
                None => Err(DecodeFailure::MissingVersion),
                Some(Json::Str(version)) => match method {
                    None => Err(DecodeFailure::MissingMethod),
                    Some(Json::Str(method)) => {
                        let params = match params {
                            Some(Json::Null) => None,
                            p => p,
                        };
                        Ok(Request { jsonrpc: version, id, method, params })
                    },
                    Some(_) => Err(DecodeFailure::InvalidMethod),
                },
                Some(_) => Err(DecodeFailure::InvalidVersion),
            }
        },
        _ => Err(DecodeFailure::NotAnObject),
    }
}

/// `j` is the wire form of error `e`: `{code, message, data}`, with `data`
/// written as `null` when absent.
pub open spec fn encodes_error(j: Json, e: RpcError) -> bool {
    &&& j is Object
    &&& members(j).len() == 3
    &&& member(j, "code"@) matches Some(Json::Number(c)) && c@ == decimal(e.code as int)
    &&& text_of(member(j, "message"@)) == Some(e.message@)
    &&& member(j, "data"@) == Some(
        match e.data {
            Some(d) => d,
            None => Json::Null,
        },
    )
}

/// `j` is the wire form of response `r`: `jsonrpc` is `"2.0"`; `id` is there
/// exactly when the request had one, and is the same value; `result` is there
/// on success, `error` on failure, and never both.
pub open spec fn encodes(j: Json, r: Response) -> bool {
    &&& j is Object
    &&& members(j).len() == if r.id is Some { 3nat } else { 2nat }
    &&& text_of(member(j, "jsonrpc"@)) == Some("2.0"@)
    &&& member(j, "id"@) == r.id
    &&& match r.outcome {
        Ok(v) => member(j, "result"@) == Some(v) && member(j, "error"@) is None,
        Err(e) => member(j, "result"@) is None && (member(j, "error"@) matches Some(ej)
            && encodes_error(ej, e)),
    }
}

impl RpcError {
    /// The wire form of this error.
    pub fn into_json(self) -> (r: Json)
        ensures
            encodes_error(r, self),
    {
        let ghost e = self;
        let mut fields: Vec<(String, Json)> = Vec::new();
        fields.push((String::from_str("code"), Json::integer(self.code)));
        fields.push((String::from_str("message"), Json::Str(self.message)));
        let data = match self.data {
            Some(d) => d,
            None => Json::Null,
        };
        fields.push((String::from_str("data"), data));
        proof {
            reveal_strlit("code");
            reveal_strlit("message");
            reveal_strlit("data");
            reveal_with_fuel(field, 4);
            assert(fields@.drop_last().drop_last().drop_last() =~= Seq::<(String, Json)>::empty());
            assert("code"@[0] != "data"@[0]);
        }
        Json::Object(fields)
    }
}

impl Response {
    /// The wire form of this response, as one JSON object.
    pub fn into_json(self) -> (r: Json)
        ensures
            encodes(r, self),
    {
        let ghost resp = self;
        let mut fields: Vec<(String, Json)> = Vec::new();
        fields.push((String::from_str("jsonrpc"), Json::Str(String::from_str("2.0"))));
        let ghost f1 = fields@;
        match self.id {
            Some(id) => fields.push((String::from_str("id"), id)),
            None => {},
        }
        let ghost f2 = fields@;
        assert(resp.id is Some ==> f2.drop_last() =~= f1);
        assert(resp.id is None ==> f2 =~= f1);
        match self.outcome {
            Ok(v) => fields.push((String::from_str("result"), v)),
            Err(e) => fields.push((String::from_str("error"), e.into_json())),
        }
        assert(fields@.last().0@ == "result"@ || fields@.last().0@ == "error"@);
        assert(fields@.drop_last() =~= f2);
        assert(f1.drop_last() =~= Seq::<(String, Json)>::empty());
        let r = Json::Object(fields);
        proof {
            reveal_strlit("jsonrpc");
            reveal_strlit("id");
            reveal_strlit("result");
            reveal_strlit("error");
            reveal_strlit("2.0");
            reveal_with_fuel(field, 4);
            assert(f1[0].0@ == "jsonrpc"@);
            assert(field(f1, "jsonrpc"@) == Some(f1[0].1));
            assert(field(f2, "jsonrpc"@) == Some(f1[0].1));
            assert(field(fields@, "jsonrpc"@) == Some(f1[0].1));
            assert(text_of(member(r, "jsonrpc"@)) == Some("2.0"@));
            assert(field(f1, "id"@) is None);
            assert(field(f2, "id"@) == resp.id);
            assert(fields@.last().0@ == "result"@ || fields@.last().0@ == "error"@);
            assert(fields@.last().0@ != "id"@);
            assert(field(fields@, "id"@) == resp.id);
            assert(field(f1, "result"@) is None && field(f1, "error"@) is None);
            assert("id"@.len() != "result"@.len() && "id"@.len() != "error"@.len());
            assert(resp.id is Some ==> f2.last().0@ == "id"@);
            assert(field(f2, "result"@) is None && field(f2, "error"@) is None);
        }
        r
    }
}

/// A response never carries both a result and an error, nor neither.
pub proof fn lemma_result_xor_error(j: Json, r: Response)
    requires
        encodes(j, r),
    ensures
        member(j, "result"@) is Some != member(j, "error"@) is Some,
{
}

} // verus!
