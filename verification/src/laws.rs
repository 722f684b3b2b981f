//! The library-wide laws of the wire format, stated and proved over the
//! same spec functions that the builder's and envelope's contracts use.

use vstd::prelude::*;

use crate::res::Content;
use crate::res::Error;
use crate::res::Response;
use crate::res::spec_content_part;
use crate::res::spec_data_part;
use crate::res::spec_error_json;
use crate::res::spec_error_response_json;
use crate::res::spec_id_part;
use crate::res::spec_response_json;
use crate::res::spec_success_json;
use crate::text::lemma_escape_plain;
use crate::text::plain_char;
use crate::text::spec_escape;
use crate::text::spec_i64_digits;
use crate::text::spec_u64_digits;

verus! {

/// A success response that carries an id is exactly the object
/// `{"jsonrpc":"2.0","id":<id>,"result":<payload>}`: a reader that parses
/// it back finds the version `"2.0"`, the id it sent, and its payload.
pub proof fn lemma_success_wire_form(id: u64, payload: Seq<char>)
    ensures
        spec_success_json(Some(id), payload) == "{\"jsonrpc\":\"2.0\",\"id\":"@
            + spec_u64_digits(id as nat) + ",\"result\":"@ + payload + "}"@,
{
    reveal_strlit("{\"jsonrpc\":\"2.0\"");
    reveal_strlit(",\"id\":");
    reveal_strlit("{\"jsonrpc\":\"2.0\",\"id\":");
    assert(("{\"jsonrpc\":\"2.0\""@ + ",\"id\":"@) =~= "{\"jsonrpc\":\"2.0\",\"id\":"@);
    assert(spec_success_json(Some(id), payload) =~= "{\"jsonrpc\":\"2.0\",\"id\":"@
        + spec_u64_digits(id as nat) + ",\"result\":"@ + payload + "}"@);
}

/// An error response that carries an id is exactly the object
/// `{"jsonrpc":"2.0","id":<id>,"error":{"code":<c>,"message":"<m>"...}}`:
/// a reader that parses it back finds the error's code and message.
pub proof fn lemma_error_wire_form(id: u64, e: Error)
    ensures
        spec_error_response_json(Some(id), e) == "{\"jsonrpc\":\"2.0\",\"id\":"@
            + spec_u64_digits(id as nat) + ",\"error\":{\"code\":"@
            + spec_i64_digits(e.code as int) + ",\"message\":\""@ + spec_escape(e.message@)
            + "\""@ + spec_data_part(e.data) + "}}"@,
{
    reveal_strlit("{\"jsonrpc\":\"2.0\"");
    reveal_strlit(",\"id\":");
    reveal_strlit("{\"jsonrpc\":\"2.0\",\"id\":");
    reveal_strlit(",\"error\":");
    reveal_strlit("{\"code\":");
    reveal_strlit(",\"error\":{\"code\":");
    reveal_strlit("}");
    reveal_strlit("}}");
    assert(("{\"jsonrpc\":\"2.0\""@ + ",\"id\":"@) =~= "{\"jsonrpc\":\"2.0\",\"id\":"@);
    assert((",\"error\":"@ + "{\"code\":"@) =~= ",\"error\":{\"code\":"@);
    assert(("}"@ + "}"@) =~= "}}"@);
    assert(spec_error_response_json(Some(id), e) =~= "{\"jsonrpc\":\"2.0\",\"id\":"@
        + spec_u64_digits(id as nat) + ",\"error\":{\"code\":"@ + spec_i64_digits(e.code as int)
        + ",\"message\":\""@ + spec_escape(e.message@) + "\""@ + spec_data_part(e.data) + "}}"@);
}

/// A success response without an id is exactly the object
/// `{"jsonrpc":"2.0","result":<payload>}`: the id key is absent from the
/// output entirely, not written as null, whatever the payload is.
pub proof fn lemma_notification_omits_id(payload: Seq<char>)
    ensures
        spec_success_json(None, payload) == "{\"jsonrpc\":\"2.0\",\"result\":"@ + payload + "}"@,
{
    reveal_strlit("{\"jsonrpc\":\"2.0\"");
    reveal_strlit(",\"result\":");
    reveal_strlit("{\"jsonrpc\":\"2.0\",\"result\":");
    assert(("{\"jsonrpc\":\"2.0\""@ + ",\"result\":"@) =~= "{\"jsonrpc\":\"2.0\",\"result\":"@);
    assert(spec_success_json(None, payload) =~= "{\"jsonrpc\":\"2.0\",\"result\":"@ + payload
        + "}"@);
}

/// `result` and `error` are mutually exclusive: every envelope's wire form
/// carries exactly one outcome member after the version tag and id — the
/// `result` member when the content is a success, the `error` member when
/// it is a failure, and there is no third shape.
pub proof fn lemma_single_outcome(r: Response)
    ensures
        r.content is Success ==> spec_response_json(r) == "{\"jsonrpc\":\"2.0\""@ + spec_id_part(
            r.id,
        ) + ",\"result\":"@ + r.content->Success_0@ + "}"@,
        r.content is Failure ==> spec_response_json(r) == "{\"jsonrpc\":\"2.0\""@ + spec_id_part(
            r.id,
        ) + ",\"error\":"@ + spec_error_json(r.content->Failure_0) + "}"@,
        (r.content is Success) <==> !(r.content is Failure),
{
    match r.content {
        Content::Success(p) => {
            assert(spec_content_part(r.content) == ",\"result\":"@ + p@);
        },
        Content::Failure(e) => {
            assert(spec_content_part(r.content) == ",\"error\":"@ + spec_error_json(e));
        },
    }
}

/// An error whose message holds no character that JSON escaping touches
/// carries that message verbatim on the wire, between the quotes of the
/// `message` member.
pub proof fn lemma_plain_message_verbatim(e: Error)
    requires
        forall|i: int| 0 <= i < e.message@.len() ==> plain_char(e.message@[i]),
    ensures
        spec_error_json(e) == "{\"code\":"@ + spec_i64_digits(e.code as int) + ",\"message\":\""@
            + e.message@ + "\""@ + spec_data_part(e.data) + "}"@,
{
    lemma_escape_plain(e.message@);
}

/// The five standard protocol errors serialize to exactly their documented
/// code and message: the whole error object on the wire is the fixed text
/// below, so no construction elsewhere can change what they look like.
pub proof fn lemma_standard_errors_wire_form(e: Error)
    requires
        e.data is None,
    ensures
        e.code == -32700 && e.message@ == "Parse error"@ ==> spec_error_json(e)
            == "{\"code\":-32700,\"message\":\"Parse error\"}"@,
        e.code == -32600 && e.message@ == "Invalid Request"@ ==> spec_error_json(e)
            == "{\"code\":-32600,\"message\":\"Invalid Request\"}"@,
        e.code == -32601 && e.message@ == "Method not found"@ ==> spec_error_json(e)
            == "{\"code\":-32601,\"message\":\"Method not found\"}"@,
        e.code == -32602 && e.message@ == "Invalid params"@ ==> spec_error_json(e)
            == "{\"code\":-32602,\"message\":\"Invalid params\"}"@,
        e.code == -32603 && e.message@ == "Internal error"@ ==> spec_error_json(e)
            == "{\"code\":-32603,\"message\":\"Internal error\"}"@,
{
    reveal_with_fuel(spec_u64_digits, 6);
    reveal_strlit("{\"code\":");
    reveal_strlit(",\"message\":\"");
    reveal_strlit("\"");
    reveal_strlit("}");
    if e.code == -32700 && e.message@ == "Parse error"@ {
        reveal_strlit("Parse error");
        reveal_strlit("{\"code\":-32700,\"message\":\"Parse error\"}");
        lemma_escape_plain(e.message@);
        assert(spec_u64_digits(32700nat) =~= seq!['3', '2', '7', '0', '0']);
        assert(spec_error_json(e) =~= "{\"code\":-32700,\"message\":\"Parse error\"}"@);
    }
    if e.code == -32600 && e.message@ == "Invalid Request"@ {
        reveal_strlit("Invalid Request");
        reveal_strlit("{\"code\":-32600,\"message\":\"Invalid Request\"}");
        lemma_escape_plain(e.message@);
        assert(spec_u64_digits(32600nat) =~= seq!['3', '2', '6', '0', '0']);
        assert(spec_error_json(e) =~= "{\"code\":-32600,\"message\":\"Invalid Request\"}"@);
    }
    if e.code == -32601 && e.message@ == "Method not found"@ {
        reveal_strlit("Method not found");
        reveal_strlit("{\"code\":-32601,\"message\":\"Method not found\"}");
        lemma_escape_plain(e.message@);
        assert(spec_u64_digits(32601nat) =~= seq!['3', '2', '6', '0', '1']);
        assert(spec_error_json(e) =~= "{\"code\":-32601,\"message\":\"Method not found\"}"@);
    }
    if e.code == -32602 && e.message@ == "Invalid params"@ {
        reveal_strlit("Invalid params");
        reveal_strlit("{\"code\":-32602,\"message\":\"Invalid params\"}");
        lemma_escape_plain(e.message@);
        assert(spec_u64_digits(32602nat) =~= seq!['3', '2', '6', '0', '2']);
        assert(spec_error_json(e) =~= "{\"code\":-32602,\"message\":\"Invalid params\"}"@);
    }
    if e.code == -32603 && e.message@ == "Internal error"@ {
        reveal_strlit("Internal error");
        reveal_strlit("{\"code\":-32603,\"message\":\"Internal error\"}");
        lemma_escape_plain(e.message@);
        assert(spec_u64_digits(32603nat) =~= seq!['3', '2', '6', '0', '3']);
        assert(spec_error_json(e) =~= "{\"code\":-32603,\"message\":\"Internal error\"}"@);
    }
}

} // verus!
