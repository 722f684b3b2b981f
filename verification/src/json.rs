//! The payload carried by a response: a value that is already encoded as
//! JSON text. The envelope splices it into the wire output verbatim, which
//! keeps the envelope's shape independent of any particular payload type.

use vstd::prelude::*;

use crate::text::push_escaped;
use crate::text::push_i64_digits;
use crate::text::push_u64_digits;
use crate::text::spec_escape;
use crate::text::spec_i64_digits;
use crate::text::spec_u64_digits;

verus! {

/// An already-encoded JSON value. Its view is the encoded text; the
/// constructors below produce correctly encoded scalars, and `from_text`
/// accepts the output of any JSON encoder for compound payloads.
pub struct Json {
    pub text: String,
}

impl View for Json {
    type V = Seq<char>;

    open spec fn view(&self) -> Seq<char> {
        self.text@
    }
}

impl Json {
    /// Wraps text that is already JSON, as an outside encoder produced it.
    /// The caller vouches that the text is one well-formed JSON value.
    pub fn from_text(text: String) -> (r: Json)
        ensures
            r@ == text@,
    {
        Json { text }
    }

    /// The JSON number for an unsigned integer.
    pub fn of_u64(n: u64) -> (r: Json)
        ensures
            r@ == spec_u64_digits(n as nat),
    {
        let mut out = String::new();
        push_u64_digits(n, &mut out);
        proof {
            assert(out@ =~= spec_u64_digits(n as nat));
        }
        Json { text: out }
    }

    /// The JSON number for a signed integer.
    pub fn of_i64(n: i64) -> (r: Json)
        ensures
            r@ == spec_i64_digits(n as int),
    {
        let mut out = String::new();
        push_i64_digits(n, &mut out);
        proof {
            assert(out@ =~= spec_i64_digits(n as int));
        }
        Json { text: out }
    }

    /// The JSON string literal holding `s`, with escaping applied.
    pub fn of_str(s: &str) -> (r: Json)
        ensures
            r@ == seq!['"'] + spec_escape(s@) + seq!['"'],
    {
        let mut out = String::new();
        out.append("\"");
        push_escaped(s, &mut out);
        out.append("\"");
        proof {
            reveal_strlit("\"");
            assert(out@ =~= seq!['"'] + spec_escape(s@) + seq!['"']);
        }
        Json { text: out }
    }

    /// The JSON `null` value.
    pub fn null() -> (r: Json)
        ensures
            r@ == "null"@,
    {
        Json { text: String::from_str("null") }
    }

    /// A JSON boolean.
    pub fn of_bool(b: bool) -> (r: Json)
        ensures
            r@ == (if b {
                "true"@
            } else {
                "false"@
            }),
    {
        if b {
            Json { text: String::from_str("true") }
        } else {
            Json { text: String::from_str("false") }
        }
    }
}

} // verus!
