//! The event record produced by a completed timer, and its serialization
//! as one JSON object literal of the Chrome Trace Event format.

use vstd::prelude::*;
use crate::text::{int_rep, push_char, push_int};

verus! {

/// One completed timed region: its display label, start and end timestamps
/// in microseconds, and the identity of the thread that ran it.
#[derive(Debug)]
pub struct ProfileResult {
    pub name: String,
    pub start: i64,
    pub end: i64,
    pub thread_id: u32,
}

/// Label sanitization: a double quote becomes an apostrophe, so the written
/// JSON string stays well formed; no other character is changed.
pub open spec fn sanitize_char(c: char) -> char {
    if c == '"' {
        '\''
    } else {
        c
    }
}

/// A label as it is written to the trace: every character sanitized.
pub open spec fn sanitized(s: Seq<char>) -> Seq<char> {
    s.map_values(|c: char| sanitize_char(c))
}

/// The JSON object for one event, with the fixed keys of the trace format:
/// `cat` is always "function", `ph` is always "X" (a complete event), and
/// `pid` is always 0.
pub open spec fn event_json(name: Seq<char>, dur: int, tid: int, ts: int) -> Seq<char> {
    "{\"cat\":\"function\",\"dur\":"@ + int_rep(dur) + ",\"name\":\""@ + sanitized(name)
        + "\",\"ph\":\"X\",\"pid\":0,\"tid\":"@ + int_rep(tid) + ",\"ts\":"@ + int_rep(ts) + "}"@
}

/// The serialized form of one record: the duration is the difference of its
/// end and start timestamps.
pub open spec fn profile_json(r: ProfileResult) -> Seq<char> {
    event_json(r.name@, r.end - r.start, r.thread_id as int, r.start as int)
}

/// Law: a sanitized label never contains a double quote, so the two quotes
/// delimiting the written name are the only ones in it and the name stays a
/// well-formed JSON string.
pub proof fn lemma_sanitized_no_quote(s: Seq<char>, i: int)
    requires
        0 <= i < sanitized(s).len(),
    ensures
        sanitized(s)[i] != '"',
{
    assert(sanitized(s)[i] == sanitize_char(s[i]));
}

fn push_sanitized(out: &mut String, s: &str)
    ensures
        final(out)@ == old(out)@ + sanitized(s@),
{
    let n: usize = s.unicode_len();
    let mut i: usize = 0;
    while i < n
        invariant
            n == s@.len(),
            i <= n,
            out@ == old(out)@ + sanitized(s@.take(i as int)),
        decreases n - i,
    {
        let c = s.get_char(i);
        if c == '"' {
            push_char(out, '\'');
        } else {
            push_char(out, c);
        }
        proof {
            assert(out@ =~= old(out)@ + sanitized(s@.take(i + 1)));
        }
        i = i + 1;
    }
    proof {
        assert(s@.take(n as int) =~= s@);
    }
}

/// Serializes one record as a single JSON object literal.
pub fn format_profile(result: &ProfileResult) -> (r: String)
    ensures
        r@ == profile_json(*result),
{
    let mut out = String::new();
    out.append("{\"cat\":\"function\",\"dur\":");
    let dur: i128 = (result.end as i128) - (result.start as i128);
    push_int(&mut out, dur);
    out.append(",\"name\":\"");
    push_sanitized(&mut out, result.name.as_str());
    out.append("\",\"ph\":\"X\",\"pid\":0,\"tid\":");
    push_int(&mut out, result.thread_id as i128);
    out.append(",\"ts\":");
    push_int(&mut out, result.start as i128);
    out.append("}");
    proof {
        assert(out@ =~= profile_json(*result));
    }
    out
}

} // verus!
