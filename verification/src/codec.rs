//! Serialization of the record collection as the response body.
//!
//! The response is one JSON object with a single `embryo_list` member whose
//! value is the ordered record collection; each record is an object with its
//! `url` and `resume` members, their values escaped as JSON string literals.

use vstd::prelude::*;
use vstd::string::StrSliceExecFns;
use crate::record::{Record, RecordV, records_view};

verus! {

/// The lower-case hexadecimal digit for a value below sixteen.
pub open spec fn lower_hex_digit(d: u32) -> char {
    if d == 0 {
        '0'
    } else if d == 1 {
        '1'
    } else if d == 2 {
        '2'
    } else if d == 3 {
        '3'
    } else if d == 4 {
        '4'
    } else if d == 5 {
        '5'
    } else if d == 6 {
        '6'
    } else if d == 7 {
        '7'
    } else if d == 8 {
        '8'
    } else if d == 9 {
        '9'
    } else if d == 10 {
        'a'
    } else if d == 11 {
        'b'
    } else if d == 12 {
        'c'
    } else if d == 13 {
        'd'
    } else if d == 14 {
        'e'
    } else {
        'f'
    }
}

/// How one character appears inside a JSON string literal: quotes and
/// backslashes get a backslash, the named control characters their short
/// escapes, other control characters a `\u00XX` escape, and everything else
/// stands as itself.
pub open spec fn json_escaped_char(c: char) -> Seq<char> {
    if c == '"' {
        seq!['\\', '"']
    } else if c == '\\' {
        seq!['\\', '\\']
    } else if c == '\u{8}' {
        seq!['\\', 'b']
    } else if c == '\u{c}' {
        seq!['\\', 'f']
    } else if c == '\n' {
        seq!['\\', 'n']
    } else if c == '\r' {
        seq!['\\', 'r']
    } else if c == '\t' {
        seq!['\\', 't']
    } else if (c as u32) < 0x20 {
        seq!['\\', 'u', '0', '0', lower_hex_digit((c as u32) / 16), lower_hex_digit((c as u32) % 16)]
    } else {
        seq![c]
    }
}

/// A whole string escaped for a JSON string literal.
pub open spec fn json_escaped(s: Seq<char>) -> Seq<char>
    decreases s.len(),
{
    if s.len() == 0 {
        Seq::<char>::empty()
    } else {
        json_escaped(s.drop_last()) + json_escaped_char(s.last())
    }
}

/// One record serialized as a JSON object with its `url` and `resume`.
pub open spec fn record_json(rv: RecordV) -> Seq<char> {
    "{\"url\":\""@ + json_escaped(rv.url) + "\",\"resume\":\""@ + json_escaped(rv.resume) + "\"}"@
}

/// The records serialized in order, separated by commas.
pub open spec fn records_json(rs: Seq<RecordV>) -> Seq<char>
    decreases rs.len(),
{
    if rs.len() == 0 {
        Seq::<char>::empty()
    } else if rs.len() == 1 {
        record_json(rs[0])
    } else {
        records_json(rs.drop_last()) + ","@ + record_json(rs.last())
    }
}

/// The whole response body for a record collection.
pub open spec fn embryo_list_json(rs: Seq<RecordV>) -> Seq<char> {
    "{\"embryo_list\": ["@ + records_json(rs) + "]}"@
}

/// Relies on `String::push`: appends exactly the one character.
#[verifier::external_body]
fn push_char(out: &mut String, c: char)
    ensures
        final (out)@ == old(out)@ + seq![c],
{
    out.push(c);
}

/// Appends one character of a hexadecimal escape.
fn push_lower_hex_digit(out: &mut String, d: u32)
    requires
        d < 16,
    ensures
        final (out)@ == old(out)@ + seq![lower_hex_digit(d)],
{
    let c: char = if d == 0 {
        '0'
    } else if d == 1 {
        '1'
    } else if d == 2 {
        '2'
    } else if d == 3 {
        '3'
    } else if d == 4 {
        '4'
    } else if d == 5 {
        '5'
    } else if d == 6 {
        '6'
    } else if d == 7 {
        '7'
    } else if d == 8 {
        '8'
    } else if d == 9 {
        '9'
    } else if d == 10 {
        'a'
    } else if d == 11 {
        'b'
    } else if d == 12 {
        'c'
    } else if d == 13 {
        'd'
    } else if d == 14 {
        'e'
    } else {
        'f'
    };
    push_char(out, c);
}

/// Appends the string escaped for a JSON string literal.
fn append_json_escaped(out: &mut String, s: &str)
    ensures
        final (out)@ == old(out)@ + json_escaped(s@),
{
    let n = s.unicode_len();
    let mut i: usize = 0;
    while i < n
        invariant
            n == s@.len(),
            i <= n,
            out@ == old(out)@ + json_escaped(s@.take(i as int)),
        decreases n - i,
    {
        let c = s.get_char(i);
        if c == '"' {
            push_char(out, '\\');
            push_char(out, '"');
        } else if c == '\\' {
            push_char(out, '\\');
            push_char(out, '\\');
        } else if c == '\u{8}' {
            push_char(out, '\\');
            push_char(out, 'b');
        } else if c == '\u{c}' {
            push_char(out, '\\');
            push_char(out, 'f');
        } else if c == '\n' {
            push_char(out, '\\');
            push_char(out, 'n');
        } else if c == '\r' {
            push_char(out, '\\');
            push_char(out, 'r');
        } else if c == '\t' {
            push_char(out, '\\');
            push_char(out, 't');
        } else {
            let u = c as u32;
            if u < 0x20 {
                push_char(out, '\\');
                push_char(out, 'u');
                push_char(out, '0');
                push_char(out, '0');
                push_lower_hex_digit(out, u / 16);
                push_lower_hex_digit(out, u % 16);
            } else {
                push_char(out, c);
            }
        }
        proof {
            assert(s@.take(i + 1).drop_last() =~= s@.take(i as int));
            assert(s@.take(i + 1).last() == s@[i as int]);
            assert(out@ =~= old(out)@ + json_escaped(s@.take(i + 1)));
        }
        i += 1;
    }
    proof {
        assert(s@.take(n as int) =~= s@);
    }
}

/// Appends one record serialized as a JSON object.
fn append_record_json(out: &mut String, rec: &Record)
    ensures
        final (out)@ == old(out)@ + record_json(rec@),
{
    append_literal(out, "{\"url\":\"");
    append_json_escaped(out, rec.url.as_str());
    append_literal(out, "\",\"resume\":\"");
    append_json_escaped(out, rec.resume.as_str());
    append_literal(out, "\"}");
    proof {
        assert(out@ =~= old(out)@ + record_json(rec@));
    }
}

/// Appends a string slice.
fn append_literal(out: &mut String, s: &str)
    ensures
        final (out)@ == old(out)@ + s@,
{
    vstd::string::StringExecFns::append(out, s);
}

/// Serializes the record collection as the response body.  An empty
/// collection serializes to exactly `{"embryo_list": []}`.
pub fn serialize_embryo_list(records: &Vec<Record>) -> (r: String)
    ensures
        r@ == embryo_list_json(records_view(records@)),
{
    let mut out = String::new();
    append_literal(&mut out, "{\"embryo_list\": [");
    let n = records.len();
    let mut i: usize = 0;
    while i < n
        invariant
            n == records@.len(),
            i <= n,
            out@ == "{\"embryo_list\": ["@ + records_json(records_view(records@).take(i as int)),
        decreases n - i,
    {
        if i > 0 {
            append_literal(&mut out, ",");
        }
        append_record_json(&mut out, &records[i]);
        proof {
            let rv = records_view(records@);
            assert(rv[i as int] == records@[i as int]@);
            assert(rv.take(i + 1).drop_last() =~= rv.take(i as int));
            assert(rv.take(i + 1).last() == rv[i as int]);
            assert(out@ =~= "{\"embryo_list\": ["@ + records_json(rv.take(i + 1)));
        }
        i += 1;
    }
    append_literal(&mut out, "]}");
    proof {
        assert(records_view(records@).take(n as int) =~= records_view(records@));
        assert(out@ =~= embryo_list_json(records_view(records@)));
    }
    out
}

} // verus!
