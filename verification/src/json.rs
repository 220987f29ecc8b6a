//! The persistent metadata document: a pretty-printed JSON rendering of
//! a task's plan, produced by verified code. The exact text is pinned by
//! the spec functions here; the process around the library only writes
//! the finished string to disk.

use vstd::prelude::*;
use vstd::string::StringExecFns;
use crate::hashing::hex_digit_char;
use crate::metadata::{DownloadMetadata, SegmentMetadata};
use crate::text::{dec_of, u64_to_string};

verus! {

/// How one character appears inside a JSON string literal: quote and
/// backslash are escaped, the common control characters get their short
/// escapes, other control characters appear as `\u00XX`, and everything
/// else stands for itself.
pub open spec fn escape_char(c: char) -> Seq<char> {
    if c == '"' {
        seq!['\\', '"']
    } else if c == '\\' {
        seq!['\\', '\\']
    } else if c == '\n' {
        seq!['\\', 'n']
    } else if c == '\r' {
        seq!['\\', 'r']
    } else if c == '\t' {
        seq!['\\', 't']
    } else if (c as int) < 32 {
        seq!['\\', 'u', '0', '0', hex_digit_char(c as int / 16), hex_digit_char(c as int % 16)]
    } else {
        seq![c]
    }
}

/// A string's characters, each escaped for JSON.
pub open spec fn json_escaped(s: Seq<char>) -> Seq<char>
    decreases s.len(),
{
    if s.len() == 0 {
        Seq::<char>::empty()
    } else {
        json_escaped(s.drop_last()) + escape_char(s.last())
    }
}

/// A JSON string literal: the escaped characters between quotes.
pub open spec fn json_string_of(s: Seq<char>) -> Seq<char> {
    seq!['"'] + json_escaped(s) + seq!['"']
}

/// An optional string field: a JSON string or `null`.
pub open spec fn json_opt_string(o: Option<String>) -> Seq<char> {
    match o {
        None => "null"@,
        Some(s) => json_string_of(s@),
    }
}

/// One segment record as it appears inside the document's array.
pub open spec fn segment_json(s: SegmentMetadata) -> Seq<char> {
    "    {\n      \"segment_id\": "@ + dec_of(s.segment_id as nat) + ",\n      \"start\": "@
        + dec_of(s.start as nat) + ",\n      \"end\": "@ + dec_of(s.end as nat)
        + ",\n      \"downloaded\": "@ + dec_of(s.downloaded as nat)
        + ",\n      \"part_path\": "@ + json_string_of(s.part_path@) + "\n    }"@
}

/// The segment records joined with commas, in order.
pub open spec fn segments_json(segs: Seq<SegmentMetadata>) -> Seq<char>
    decreases segs.len(),
{
    if segs.len() == 0 {
        Seq::<char>::empty()
    } else if segs.len() == 1 {
        segment_json(segs[0])
    } else {
        segments_json(segs.drop_last()) + ",\n"@ + segment_json(segs.last())
    }
}

/// The whole persistent document for one task.
pub open spec fn metadata_json(m: DownloadMetadata) -> Seq<char> {
    "{\n  \"url\": "@ + json_string_of(m.url@) + ",\n  \"output_path\": "@ + json_string_of(
        m.output_path@,
    ) + ",\n  \"total_size\": "@ + dec_of(m.total_size as nat) + ",\n  \"etag\": "@
        + json_opt_string(m.etag) + ",\n  \"last_modified\": "@ + json_opt_string(m.last_modified)
        + ",\n  \"segments\": [\n"@ + segments_json(m.segments@) + "\n  ]\n}"@
}

/// Relies on `String::push`: appends exactly one character.
#[verifier::external_body]
fn push_char(s: &mut String, c: char)
    ensures
        final(s)@ == old(s)@.push(c),
{
    s.push(c);
}

/// The sixteen hex digit characters as one-character string slices.
fn hex_digit_str(d: u32) -> (s: &'static str)
    requires
        d < 16,
    ensures
        s@ =~= seq![hex_digit_char(d as int)],
{
    proof {
        reveal_strlit("0");
        reveal_strlit("1");
        reveal_strlit("2");
        reveal_strlit("3");
        reveal_strlit("4");
        reveal_strlit("5");
        reveal_strlit("6");
        reveal_strlit("7");
        reveal_strlit("8");
        reveal_strlit("9");
        reveal_strlit("a");
        reveal_strlit("b");
        reveal_strlit("c");
        reveal_strlit("d");
        reveal_strlit("e");
        reveal_strlit("f");
    }
    if d == 0 {
        "0"
    } else if d == 1 {
        "1"
    } else if d == 2 {
        "2"
    } else if d == 3 {
        "3"
    } else if d == 4 {
        "4"
    } else if d == 5 {
        "5"
    } else if d == 6 {
        "6"
    } else if d == 7 {
        "7"
    } else if d == 8 {
        "8"
    } else if d == 9 {
        "9"
    } else if d == 10 {
        "a"
    } else if d == 11 {
        "b"
    } else if d == 12 {
        "c"
    } else if d == 13 {
        "d"
    } else if d == 14 {
        "e"
    } else {
        "f"
    }
}

/// Appends one character's JSON escape to `out`.
fn append_escaped_char(out: &mut String, c: char)
    ensures
        final(out)@ == old(out)@ + escape_char(c),
{
    if c == '"' {
        out.append("\\\"");
        proof {
            reveal_strlit("\\\"");
            assert(out@ =~= old(out)@ + escape_char(c));
        }
    } else if c == '\\' {
        out.append("\\\\");
        proof {
            reveal_strlit("\\\\");
            assert(out@ =~= old(out)@ + escape_char(c));
        }
    } else if c == '\n' {
        out.append("\\n");
        proof {
            reveal_strlit("\\n");
            assert(out@ =~= old(out)@ + escape_char(c));
        }
    } else if c == '\r' {
        out.append("\\r");
        proof {
            reveal_strlit("\\r");
            assert(out@ =~= old(out)@ + escape_char(c));
        }
    } else if c == '\t' {
        out.append("\\t");
        proof {
            reveal_strlit("\\t");
            assert(out@ =~= old(out)@ + escape_char(c));
        }
    } else {
        let code: u32 = c as u32;
        if code < 32 {
            out.append("\\u00");
            out.append(hex_digit_str(code / 16));
            out.append(hex_digit_str(code % 16));
            proof {
                reveal_strlit("\\u00");
                assert(out@ =~= old(out)@ + escape_char(c));
            }
        } else {
            push_char(out, c);
            proof {
                assert(out@ =~= old(out)@ + escape_char(c));
            }
        }
    }
}

/// Appends a JSON string literal for `s` to `out`.
fn append_json_string(out: &mut String, s: &str)
    ensures
        final(out)@ == old(out)@ + json_string_of(s@),
{
    out.append("\"");
    proof {
        reveal_strlit("\"");
    }
    let len: usize = s.unicode_len();
    let mut i: usize = 0;
    proof {
        assert(json_escaped(s@.take(0)) =~= Seq::<char>::empty());
        assert(out@ =~= old(out)@ + seq!['"'] + json_escaped(s@.take(0)));
    }
    while i < len
        invariant
            i <= len,
            len == s@.len(),
            out@ == old(out)@ + seq!['"'] + json_escaped(s@.take(i as int)),
        decreases len - i,
    {
        let c: char = s.get_char(i);
        append_escaped_char(out, c);
        proof {
            assert(s@.take(i + 1).drop_last() =~= s@.take(i as int));
            assert(s@.take(i + 1).last() == c);
            assert(out@ =~= old(out)@ + seq!['"'] + json_escaped(s@.take(i + 1)));
        }
        i = i + 1;
    }
    out.append("\"");
    proof {
        assert(s@.take(len as int) =~= s@);
        assert(out@ =~= old(out)@ + json_string_of(s@));
    }
}

/// Appends a JSON string or `null` for an optional field.
fn append_json_opt(out: &mut String, o: &Option<String>)
    ensures
        final(out)@ == old(out)@ + json_opt_string(*o),
{
    match o {
        None => {
            out.append("null");
            proof {
                reveal_strlit("null");
            }
        },
        Some(s) => append_json_string(out, s.as_str()),
    }
}

/// Appends one segment record.
fn append_segment_json(out: &mut String, s: &SegmentMetadata)
    ensures
        final(out)@ == old(out)@ + segment_json(*s),
{
    out.append("    {\n      \"segment_id\": ");
    let a = u64_to_string(s.segment_id as u64);
    out.append(a.as_str());
    out.append(",\n      \"start\": ");
    let b = u64_to_string(s.start);
    out.append(b.as_str());
    out.append(",\n      \"end\": ");
    let c = u64_to_string(s.end);
    out.append(c.as_str());
    out.append(",\n      \"downloaded\": ");
    let d = u64_to_string(s.downloaded);
    out.append(d.as_str());
    out.append(",\n      \"part_path\": ");
    append_json_string(out, s.part_path.as_str());
    out.append("\n    }");
    proof {
        assert(out@ =~= old(out)@ + segment_json(*s));
    }
}

/// Renders a task's plan as its persistent JSON document.
pub fn to_json(m: &DownloadMetadata) -> (r: String)
    ensures
        r@ == metadata_json(*m),
{
    let mut out = String::new();
    out.append("{\n  \"url\": ");
    append_json_string(&mut out, m.url.as_str());
    out.append(",\n  \"output_path\": ");
    append_json_string(&mut out, m.output_path.as_str());
    out.append(",\n  \"total_size\": ");
    let ts = u64_to_string(m.total_size);
    out.append(ts.as_str());
    out.append(",\n  \"etag\": ");
    append_json_opt(&mut out, &m.etag);
    out.append(",\n  \"last_modified\": ");
    append_json_opt(&mut out, &m.last_modified);
    out.append(",\n  \"segments\": [\n");
    let ghost head = out@;
    let mut i: usize = 0;
    while i < m.segments.len()
        invariant
            i <= m.segments@.len(),
            out@ == head + segments_json(m.segments@.take(i as int)),
        decreases m.segments@.len() - i,
    {
        if i > 0 {
            out.append(",\n");
            proof {
                reveal_strlit(",\n");
            }
        }
        append_segment_json(&mut out, &m.segments[i]);
        proof {
            assert(m.segments@.take(i + 1).drop_last() =~= m.segments@.take(i as int));
            assert(m.segments@.take(i + 1).last() == m.segments@[i as int]);
            if i == 0 {
                assert(segments_json(m.segments@.take(0)) =~= Seq::<char>::empty());
                assert(segments_json(m.segments@.take(1)) == segment_json(m.segments@[0]));
            }
            assert(out@ =~= head + segments_json(m.segments@.take(i + 1)));
        }
        i = i + 1;
    }
    proof {
        assert(m.segments@.take(m.segments@.len() as int) =~= m.segments@);
    }
    out.append("\n  ]\n}");
    proof {
        assert(out@ =~= metadata_json(*m));
    }
    out
}

} // verus!
