//! JSON error payloads for the host.
//!
//! A failure message is wrapped in a fixed JSON envelope; double quotes
//! inside the message are replaced by single quotes so the result is
//! always a well-formed JSON string literal.

use vstd::prelude::*;
use vstd::string::{StrSliceExecFns, StringExecFns};

verus! {

/// One character of the sanitized message: a double quote becomes a
/// single quote, everything else is kept.
pub open spec fn sanitize_char(c: char) -> char {
    if c == '"' {
        '\''
    } else {
        c
    }
}

/// The message with every double quote replaced by a single quote.
pub open spec fn sanitized(m: Seq<char>) -> Seq<char> {
    m.map_values(|c: char| sanitize_char(c))
}

/// The full error payload for a message: the fixed envelope around the
/// sanitized message.
pub open spec fn error_json_text(m: Seq<char>) -> Seq<char> {
    "{\"status\":\"error\",\"message\":\""@ + sanitized(m) + "\"}"@
}

/// Renders `msg` as a JSON error object, quoting it safely.
pub fn error_json(msg: &str) -> (r: String)
    ensures
        r@ == error_json_text(msg@),
{
    let mut out: String = String::from_str("{\"status\":\"error\",\"message\":\"");
    let len: usize = msg.unicode_len();
    let mut i: usize = 0;
    while i < len
        invariant
            i <= len,
            len == msg@.len(),
            out@ == "{\"status\":\"error\",\"message\":\""@ + sanitized(msg@.subrange(0, i as int)),
        decreases len - i,
    {
        let c: char = msg.get_char(i);
        if c == '"' {
            out.append("'");
            proof {
                reveal_strlit("'");
            }
        } else {
            let piece: &str = msg.substring_char(i, i + 1);
            out.append(piece);
        }
        proof {
            let prefix = "{\"status\":\"error\",\"message\":\""@;
            assert(sanitized(msg@.subrange(0, i + 1 as int))
                =~= sanitized(msg@.subrange(0, i as int)).push(sanitize_char(msg@[i as int])));
            assert(out@ =~= prefix + sanitized(msg@.subrange(0, i + 1 as int)));
        }
        i += 1;
    }
    proof {
        assert(msg@.subrange(0, len as int) =~= msg@);
    }
    let r: String = out.concat("\"}");
    proof {
        assert(r@ =~= error_json_text(msg@));
    }
    r
}

} // verus!
