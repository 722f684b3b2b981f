//! The response envelope and its builder. The envelope owns the wire-format
//! invariants: the constant `"jsonrpc":"2.0"` tag, the correlation id that is
//! omitted entirely (never written as null) when absent, and exactly one of
//! the `result` / `error` members. The builder binds one request's id and
//! finishes the envelope from the caller's outcome.

use vstd::prelude::*;

use crate::json::Json;
use crate::text::push_escaped;
use crate::text::push_i64_digits;
use crate::text::push_u64_digits;
use crate::text::spec_escape;
use crate::text::spec_i64_digits;
use crate::text::spec_u64_digits;

verus! {

/// The protocol version tag; the wire knows exactly one, `"2.0"`.
pub enum Version {
    V2,
}

/// One JSON-RPC error: a numeric code, a short message, and optional
/// structured diagnostic data that is omitted from the wire when absent.
pub struct Error {
    pub code: i64,
    pub message: String,
    pub data: Option<Json>,
}

/// The outcome carried by a response: exactly one of a success payload or
/// an error, never both and never neither.
pub enum Content {
    Success(Json),
    Failure(Error),
}

/// One JSON-RPC response: version tag, optional correlation id, outcome.
pub struct Response {
    pub jsonrpc: Version,
    pub id: Option<u64>,
    pub content: Content,
}

/// A finished transport reply: status, content type, and the body text,
/// ready for a transport adapter to write out.
pub struct Reply {
    pub status: u16,
    pub content_type: String,
    pub body: String,
}

/// The id member of the wire object: empty when the id is absent,
/// `,"id":<n>` when it is present.
pub open spec fn spec_id_part(id: Option<u64>) -> Seq<char> {
    match id {
        Option::None => Seq::empty(),
        Option::Some(i) => ",\"id\":"@ + spec_u64_digits(i as nat),
    }
}

/// The data member of an error object: empty when absent, `,"data":<v>`
/// when present.
pub open spec fn spec_data_part(data: Option<Json>) -> Seq<char> {
    match data {
        Option::None => Seq::empty(),
        Option::Some(j) => ",\"data\":"@ + j@,
    }
}

/// The error object on the wire: `{"code":<c>,"message":"<m>"}`, with the
/// message escaped and the data member appended only when present.
pub open spec fn spec_error_json(e: Error) -> Seq<char> {
    "{\"code\":"@ + spec_i64_digits(e.code as int) + ",\"message\":\""@ + spec_escape(e.message@)
        + "\""@ + spec_data_part(e.data) + "}"@
}

/// The outcome member of the wire object: `,"result":<payload>` for a
/// success, `,"error":<object>` for a failure.
pub open spec fn spec_content_part(c: Content) -> Seq<char> {
    match c {
        Content::Success(p) => ",\"result\":"@ + p@,
        Content::Failure(e) => ",\"error\":"@ + spec_error_json(e),
    }
}

/// The whole wire object: `{"jsonrpc":"2.0"` then the id member (when
/// present), then exactly one outcome member, then `}`.
pub open spec fn spec_response_json(r: Response) -> Seq<char> {
    "{\"jsonrpc\":\"2.0\""@ + spec_id_part(r.id) + spec_content_part(r.content) + "}"@
}

/// The wire object of a success response with payload text `payload`.
pub open spec fn spec_success_json(id: Option<u64>, payload: Seq<char>) -> Seq<char> {
    "{\"jsonrpc\":\"2.0\""@ + spec_id_part(id) + ",\"result\":"@ + payload + "}"@
}

/// The wire object of an error response carrying `e`.
pub open spec fn spec_error_response_json(id: Option<u64>, e: Error) -> Seq<char> {
    "{\"jsonrpc\":\"2.0\""@ + spec_id_part(id) + ",\"error\":"@ + spec_error_json(e) + "}"@
}

fn push_error_json(e: &Error, out: &mut String)
    ensures
        final(out)@ == old(out)@ + spec_error_json(*e),
{
    out.append("{\"code\":");
    push_i64_digits(e.code, out);
    out.append(",\"message\":\"");
    push_escaped(e.message.as_str(), out);
    out.append("\"");
    match &e.data {
        Option::None => {},
        Option::Some(j) => {
            out.append(",\"data\":");
            out.append(j.text.as_str());
        },
    }
    out.append("}");
    proof {
        assert(out@ =~= old(out)@ + spec_error_json(*e));
    }
}

impl Response {
    /// Packages a success payload under the given correlation id; always
    /// succeeds, whatever the payload text is.
    pub fn new_success(id: Option<u64>, payload: Json) -> (r: Response)
        ensures
            r.jsonrpc == Version::V2,
            r.id == id,
            r.content == Content::Success(payload),
    {
        Response { jsonrpc: Version::V2, id, content: Content::Success(payload) }
    }

    /// Packages an error under the given correlation id; always succeeds.
    pub fn new_error(id: Option<u64>, error: Error) -> (r: Response)
        ensures
            r.jsonrpc == Version::V2,
            r.id == id,
            r.content == Content::Failure(error),
    {
        Response { jsonrpc: Version::V2, id, content: Content::Failure(error) }
    }

    /// Renders the envelope as UTF-8 JSON text, exactly as
    /// `spec_response_json` lays it out: keys in the order `jsonrpc`, `id`
    /// (only when present), then the single outcome member.
    pub fn serialize(&self) -> (r: String)
        ensures
            r@ == spec_response_json(*self),
    {
        let mut out = String::new();
        out.append("{\"jsonrpc\":\"2.0\"");
        match &self.id {
            Option::None => {},
            Option::Some(i) => {
                out.append(",\"id\":");
                push_u64_digits(*i, &mut out);
            },
        }
        match &self.content {
            Content::Success(p) => {
                out.append(",\"result\":");
                out.append(p.text.as_str());
            },
            Content::Failure(e) => {
                out.append(",\"error\":");
                push_error_json(e, &mut out);
            },
        }
        out.append("}");
        proof {
            assert(out@ =~= spec_response_json(*self));
        }
        out
    }

    /// Wraps the serialized envelope in a transport reply: status 200 and
    /// content type `application/json`, for success and error outcomes
    /// alike, as JSON-RPC reports errors inside the body.
    pub fn into_reply(self) -> (r: Reply)
        ensures
            r.status == 200,
            r.content_type@ == "application/json"@,
            r.body@ == spec_response_json(self),
    {
        let body = self.serialize();
        Reply { status: 200, content_type: String::from_str("application/json"), body }
    }
}

/// Binds one request's correlation id, so that handler code finishes the
/// response with a single call and cannot forget the id or emit both
/// outcome members.
pub struct Builder {
    id: Option<u64>,
}

impl Builder {
    /// The id this builder was bound to.
    pub closed spec fn spec_id(&self) -> Option<u64> {
        self.id
    }

    /// Binds the correlation id of the inbound request, verbatim.
    pub fn new(id: Option<u64>) -> (r: Builder)
        ensures
            r.spec_id() == id,
    {
        Builder { id }
    }

    /// Builds, serializes and wraps a success response for the payload.
    pub fn success(self, content: Json) -> (r: Reply)
        ensures
            r.status == 200,
            r.content_type@ == "application/json"@,
            r.body@ == spec_success_json(self.spec_id(), content@),
    {
        let reply = Response::new_success(self.id, content).into_reply();
        proof {
            assert(reply.body@ =~= spec_success_json(self.spec_id(), content@));
        }
        reply
    }

    /// Builds, serializes and wraps an error response for the error.
    pub fn error(self, error: Error) -> (r: Reply)
        ensures
            r.status == 200,
            r.content_type@ == "application/json"@,
            r.body@ == spec_error_response_json(self.spec_id(), error),
    {
        let ghost e = error;
        let reply = Response::new_error(self.id, error).into_reply();
        proof {
            assert(reply.body@ =~= spec_error_response_json(self.spec_id(), e));
        }
        reply
    }

    /// Dispatches on the outcome: a success payload becomes a success
    /// response, an error becomes an error response. The primary entry
    /// point for handler code, which then needs no branch of its own.
    pub fn result(self, outcome: Result<Json, Error>) -> (r: Reply)
        ensures
            r.status == 200,
            r.content_type@ == "application/json"@,
            (match outcome {
                Result::Ok(p) => r.body@ == spec_success_json(self.spec_id(), p@),
                Result::Err(e) => r.body@ == spec_error_response_json(self.spec_id(), e),
            }),
    {
        match outcome {
            Result::Ok(payload) => self.success(payload),
            Result::Err(error) => self.error(error),
        }
    }
}

impl Error {
    /// Builds an application error from a caller-supplied code, message and
    /// optional diagnostic data.
    pub fn custom(code: i64, message: String, data: Option<Json>) -> (r: Error)
        ensures
            r.code == code,
            r.message == message,
            r.data == data,
    {
        Error { code, message, data }
    }

    /// The standard protocol error for unparsable request text.
    pub fn parse_error() -> (r: Error)
        ensures
            r.code == -32700,
            r.message@ == "Parse error"@,
            r.data is None,
    {
        Error { code: -32700, message: String::from_str("Parse error"), data: Option::None }
    }

    /// The standard protocol error for a structurally invalid request.
    pub fn invalid_request() -> (r: Error)
        ensures
            r.code == -32600,
            r.message@ == "Invalid Request"@,
            r.data is None,
    {
        Error { code: -32600, message: String::from_str("Invalid Request"), data: Option::None }
    }

    /// The standard protocol error for an unknown method name.
    pub fn method_not_found() -> (r: Error)
        ensures
            r.code == -32601,
            r.message@ == "Method not found"@,
            r.data is None,
    {
        Error { code: -32601, message: String::from_str("Method not found"), data: Option::None }
    }

    /// The standard protocol error for ill-formed method parameters.
    pub fn invalid_params() -> (r: Error)
        ensures
            r.code == -32602,
            r.message@ == "Invalid params"@,
            r.data is None,
    {
        Error { code: -32602, message: String::from_str("Invalid params"), data: Option::None }
    }

    /// The standard protocol error for an internal server fault.
    pub fn internal_error() -> (r: Error)
        ensures
            r.code == -32603,
            r.message@ == "Internal error"@,
            r.data is None,
    {
        Error { code: -32603, message: String::from_str("Internal error"), data: Option::None }
    }
}

} // verus!
