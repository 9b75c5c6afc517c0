//! The JSON form of a parameter struct: an object with one member per field,
//! keyed by the field's own (snake case) name, in declared order. String
//! literals are written by `serde_json`; numbers, `true`, `false` and `null`
//! are their decimal digits and words.
use vstd::prelude::*;
use vstd::string::*;

use crate::error::BaseError;
use crate::path::{scalar_string, scalar_text};
use crate::query::{Field, ParamValue, Scalar};
use crate::text::push_char;

verus! {

/// The lower-case hexadecimal digit of `d`.
pub open spec fn lower_hex(d: u32) -> char {
    if d < 10 {
        (48 + d) as u8 as char
    } else {
        (87 + d) as u8 as char
    }
}

/// How `serde_json` writes one character inside a string literal.
pub open spec fn escape_char(c: char) -> Seq<char> {
    if c == '"' {
        seq!['\\', '"']
    } else if c == '\\' {
        seq!['\\', '\\']
    } else if c == '\n' {
        seq!['\\', 'n']
    } else if c == '\r' {
        seq!['\\', 'r']
    } else if c == '\t' {
        seq!['\\', 't']
    } else if c == '\x08' {
        seq!['\\', 'b']
    } else if c == '\x0c' {
        seq!['\\', 'f']
    } else if (c as u32) < 32 {
        seq!['\\', 'u', '0', '0', lower_hex((c as u32) / 16), lower_hex((c as u32) % 16)]
    } else {
        seq![c]
    }
}

pub open spec fn escape(s: Seq<char>) -> Seq<char>
    decreases s.len(),
{
    if s.len() == 0 {
        seq![]
    } else {
        escape(s.drop_last()) + escape_char(s.last())
    }
}

/// What `serde_json` writes for the string `s`: a JSON string literal.
pub open spec fn json_quoted(s: Seq<char>) -> Seq<char> {
    seq!['"'] + escape(s) + seq!['"']
}

/// Relies on `serde_json::to_string` on a string slice: it writes the
/// escaped string between quotes into a buffer and cannot fail; an error
/// would come back as its message.
#[verifier::external_body]
fn json_quote(s: &str) -> (r: Result<String, String>)
    ensures
        r is Ok,
        r matches Ok(q) ==> q@ == json_quoted(s@),
{
    serde_json::to_string(s).map_err(|e| e.to_string())
}

pub open spec fn json_scalar(s: Scalar) -> Seq<char> {
    match s {
        Scalar::Text(t) => json_quoted(t@),
        _ => scalar_text(s),
    }
}

/// The elements of a JSON array, separated by commas.
pub open spec fn json_elements(xs: Seq<Scalar>) -> Seq<char>
    decreases xs.len(),
{
    if xs.len() == 0 {
        seq![]
    } else if xs.len() == 1 {
        json_scalar(xs[0])
    } else {
        json_elements(xs.drop_last()).push(',') + json_scalar(xs.last())
    }
}

/// A pair as a JSON array of two elements.
pub open spec fn json_pair(p: (Scalar, Scalar)) -> Seq<char> {
    seq!['['] + json_scalar(p.0) + seq![','] + json_scalar(p.1) + seq![']']
}

/// The pairs of a JSON array, separated by commas.
pub open spec fn json_pairs(ps: Seq<(Scalar, Scalar)>) -> Seq<char>
    decreases ps.len(),
{
    if ps.len() == 0 {
        seq![]
    } else if ps.len() == 1 {
        json_pair(ps[0])
    } else {
        json_pairs(ps.drop_last()).push(',') + json_pair(ps.last())
    }
}

pub open spec fn json_value(v: ParamValue) -> Seq<char> {
    match v {
        ParamValue::Absent => seq!['n', 'u', 'l', 'l'],
        ParamValue::One(s) => json_scalar(s),
        ParamValue::Many(xs) => seq!['['] + json_elements(xs@) + seq![']'],
        ParamValue::Pairs(ps) => seq!['['] + json_pairs(ps@) + seq![']'],
    }
}

pub open spec fn json_member(f: Field) -> Seq<char> {
    json_quoted(f.name@).push(':') + json_value(f.value)
}

/// The members of a JSON object, separated by commas.
pub open spec fn json_members(fields: Seq<Field>) -> Seq<char>
    decreases fields.len(),
{
    if fields.len() == 0 {
        seq![]
    } else if fields.len() == 1 {
        json_member(fields[0])
    } else {
        json_members(fields.drop_last()).push(',') + json_member(fields.last())
    }
}

/// The JSON object of a parameter struct.
pub open spec fn json_object(fields: Seq<Field>) -> Seq<char> {
    seq!['{'] + json_members(fields) + seq!['}']
}

/// Appends `s` as a JSON string literal.
fn push_json_string(out: &mut String, s: &str) -> (r: Result<(), BaseError>)
    ensures
        r is Ok,
        final(out)@ == old(out)@ + json_quoted(s@),
{
    match json_quote(s) {
        Ok(q) => {
            out.append(q.as_str());
            Ok(())
        },
        Err(e) => Err(BaseError::JsonSerialize(e)),
    }
}

fn push_json_scalar(out: &mut String, s: &Scalar) -> (r: Result<(), BaseError>)
    ensures
        r is Ok,
        final(out)@ == old(out)@ + json_scalar(*s),
{
    match s {
        Scalar::Text(t) => push_json_string(out, t.as_str()),
        _ => {
            let t = scalar_string(s);
            out.append(t.as_str());
            Ok(())
        },
    }
}

fn push_json_pair(out: &mut String, p: &(Scalar, Scalar)) -> (r: Result<(), BaseError>)
    ensures
        r is Ok,
        final(out)@ == old(out)@ + json_pair(*p),
{
    push_char(out, '[');
    match push_json_scalar(out, &p.0) {
        Ok(()) => {},
        Err(e) => {
            return Err(e);
        },
    }
    push_char(out, ',');
    match push_json_scalar(out, &p.1) {
        Ok(()) => {},
        Err(e) => {
            return Err(e);
        },
    }
    push_char(out, ']');
    assert(out@ =~= old(out)@ + json_pair(*p));
    Ok(())
}

fn push_json_value(out: &mut String, v: &ParamValue) -> (r: Result<(), BaseError>)
    ensures
        r is Ok,
        final(out)@ == old(out)@ + json_value(*v),
{
    match v {
        ParamValue::Absent => {
            push_char(out, 'n');
            push_char(out, 'u');
            push_char(out, 'l');
            push_char(out, 'l');
        },
        ParamValue::One(s) => {
            return push_json_scalar(out, s);
        },
        ParamValue::Many(xs) => {
            push_char(out, '[');
            let ghost start = out@;
            let mut j: usize = 0;
            while j < xs.len()
                invariant
                    j <= xs@.len(),
                    out@ == start + json_elements(xs@.take(j as int)),
                decreases xs@.len() - j,
            {
                assert(xs@.take(j + 1).drop_last() =~= xs@.take(j as int));
                assert(xs@.take(j + 1).last() == xs@[j as int]);
                if j > 0 {
                    push_char(out, ',');
                }
                match push_json_scalar(out, &xs[j]) {
                    Ok(()) => {},
                    Err(e) => {
                        return Err(e);
                    },
                }
                j += 1;
                assert(out@ =~= start + json_elements(xs@.take(j as int)));
            }
            assert(xs@.take(j as int) =~= xs@);
            push_char(out, ']');
        },
        ParamValue::Pairs(ps) => {
            push_char(out, '[');
            let ghost start = out@;
            let mut j: usize = 0;
            while j < ps.len()
                invariant
                    j <= ps@.len(),
                    out@ == start + json_pairs(ps@.take(j as int)),
                decreases ps@.len() - j,
            {
                assert(ps@.take(j + 1).drop_last() =~= ps@.take(j as int));
                assert(ps@.take(j + 1).last() == ps@[j as int]);
                if j > 0 {
                    push_char(out, ',');
                }
                match push_json_pair(out, &ps[j]) {
                    Ok(()) => {},
                    Err(e) => {
                        return Err(e);
                    },
                }
                j += 1;
                assert(out@ =~= start + json_pairs(ps@.take(j as int)));
            }
            assert(ps@.take(j as int) =~= ps@);
            push_char(out, ']');
        },
    }
    assert(out@ =~= old(out)@ + json_value(*v));
    Ok(())
}

/// The JSON text of a parameter struct.
pub fn json_body(fields: &Vec<Field>) -> (r: Result<String, BaseError>)
    ensures
        r matches Ok(t) && t@ == json_object(fields@),
{
    let mut out = String::new();
    push_char(&mut out, '{');
    let ghost start = out@;
    let mut i: usize = 0;
    while i < fields.len()
        invariant
            i <= fields@.len(),
            out@ == start + json_members(fields@.take(i as int)),
        decreases fields@.len() - i,
    {
        assert(fields@.take(i + 1).drop_last() =~= fields@.take(i as int));
        assert(fields@.take(i + 1).last() == fields@[i as int]);
        if i > 0 {
            push_char(&mut out, ',');
        }
        match push_json_string(&mut out, fields[i].name.as_str()) {
            Ok(()) => {},
            Err(e) => {
                return Err(e);
            },
        }
        push_char(&mut out, ':');
        match push_json_value(&mut out, &fields[i].value) {
            Ok(()) => {},
            Err(e) => {
                return Err(e);
            },
        }
        i += 1;
        assert(out@ =~= start + json_members(fields@.take(i as int)));
    }
    assert(fields@.take(i as int) =~= fields@);
    push_char(&mut out, '}');
    assert(out@ =~= json_object(fields@));
    Ok(out)
}

} // verus!
