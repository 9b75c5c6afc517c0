//! Parameter values and their query-string form.
//!
//! A parameter struct is a list of named fields. Its query string holds, in
//! the order the fields are declared, what `serde_qs` writes for each field
//! under the field's name in kebab case: `key=value` for a single value,
//! `key[i]=value` for each element of a list, `key[i][j]=value` for lists of
//! pairs, and nothing for an absent optional value. The fields' parts are
//! joined by `&`.
use vstd::prelude::*;
use vstd::string::*;
use vstd::utf8::*;

use crate::error::BaseError;
use crate::path::{scalar_string, scalar_text};
use crate::text::{decimal, push_char};

verus! {

/// One plain value.
#[derive(Debug, Clone, PartialEq, Eq)]
pub enum Scalar {
    Bool(bool),
    UInt(u64),
    Text(String),
}

/// The value of one parameter.
#[derive(Debug, Clone, PartialEq, Eq)]
pub enum ParamValue {
    /// An optional parameter that holds nothing.
    Absent,
    One(Scalar),
    Many(Vec<Scalar>),
    /// A list of pairs, such as tag kinds and names.
    Pairs(Vec<(Scalar, Scalar)>),
}

/// One field of a parameter struct.
#[derive(Debug, Clone, PartialEq, Eq)]
pub struct Field {
    pub name: String,
    pub value: ParamValue,
}

/// Bytes that `serde_qs` writes as they are: ASCII letters and digits and
/// `*-._`.
pub open spec fn is_unreserved(b: u8) -> bool {
    ||| 48 <= b <= 57
    ||| 65 <= b <= 90
    ||| 97 <= b <= 122
    ||| b == 42
    ||| b == 45
    ||| b == 46
    ||| b == 95
}

/// The upper-case hexadecimal digit of `d`.
pub open spec fn hex_digit(d: u8) -> char {
    if d < 10 {
        (48 + d) as u8 as char
    } else {
        (55 + d) as u8 as char
    }
}

/// How `serde_qs` writes one byte: as it is, `+` for a space, or `%XX`.
pub open spec fn encode_byte(b: u8) -> Seq<char> {
    if is_unreserved(b) {
        seq![b as char]
    } else if b == 32 {
        seq!['+']
    } else {
        seq!['%', hex_digit(b / 16), hex_digit(b % 16)]
    }
}

/// How `serde_qs` writes a byte string.
pub open spec fn encode(bytes: Seq<u8>) -> Seq<char>
    decreases bytes.len(),
{
    if bytes.len() == 0 {
        seq![]
    } else {
        encode(bytes.drop_last()) + encode_byte(bytes.last())
    }
}

/// How `serde_qs` writes a key or a value: its UTF-8 bytes, encoded.
pub open spec fn qs_encode(s: Seq<char>) -> Seq<char> {
    encode(encode_utf8(s))
}

/// The decimal digits of `i`.
pub open spec fn decimal_text(i: nat) -> Seq<char> {
    decimal(i).map_values(|b: u8| b as char)
}

/// The key of element `i` of a list under `key`: `key[i]`.
pub open spec fn index_key(key: Seq<char>, i: nat) -> Seq<char> {
    qs_encode(key).push('[') + decimal_text(i).push(']')
}

/// Parts joined by `&`.
pub open spec fn amp_join(parts: Seq<Seq<char>>) -> Seq<char>
    decreases parts.len(),
{
    if parts.len() == 0 {
        seq![]
    } else if parts.len() == 1 {
        parts[0]
    } else {
        amp_join(parts.drop_last()).push('&') + parts.last()
    }
}

/// What `serde_qs` writes for a map of `key` to the string `value`:
/// `key=value`.
pub open spec fn qs_single(key: Seq<char>, value: Seq<char>) -> Seq<char> {
    qs_encode(key).push('=') + qs_encode(value)
}

/// What `serde_qs` writes for a map of `key` to a list of strings:
/// `key[0]=v0&key[1]=v1...`, nothing for an empty list.
pub open spec fn qs_list(key: Seq<char>, values: Seq<Seq<char>>) -> Seq<char> {
    amp_join(
        Seq::new(values.len(), |i: int| index_key(key, i as nat).push('=') + qs_encode(values[i])),
    )
}

/// The two entries of pair `i` of a list under `key`:
/// `key[i][0]=a&key[i][1]=b`.
pub open spec fn qs_pair_entry(key: Seq<char>, i: nat, p: (Seq<char>, Seq<char>)) -> Seq<char> {
    index_key(key, i) + seq!['[', '0', ']', '='] + qs_encode(p.0) + seq!['&'] + index_key(key, i)
        + seq!['[', '1', ']', '='] + qs_encode(p.1)
}

/// What `serde_qs` writes for a map of `key` to a list of string pairs,
/// nothing for an empty list.
pub open spec fn qs_pair_list(key: Seq<char>, values: Seq<(Seq<char>, Seq<char>)>) -> Seq<char> {
    amp_join(Seq::new(values.len(), |i: int| qs_pair_entry(key, i as nat, values[i])))
}

/// Relies on `serde_qs::to_string` on a one-entry map from `key` to `value`:
/// it writes `key=value`, both percent-encoded, into a buffer and cannot fail
/// on strings; an error would come back as its message.
#[verifier::external_body]
fn qs_single_text(key: &str, value: &str) -> (r: Result<String, String>)
    ensures
        r is Ok,
        r matches Ok(t) ==> t@ == qs_single(key@, value@),
{
    let mut m = std::collections::BTreeMap::new();
    m.insert(key, value);
    serde_qs::to_string(&m).map_err(|e| e.to_string())
}

/// Relies on `serde_qs::to_string` on a one-entry map from `key` to a list:
/// one `key[i]=value` per element, and it cannot fail on strings; an error
/// would come back as its message.
#[verifier::external_body]
fn qs_list_text(key: &str, values: &Vec<String>) -> (r: Result<String, String>)
    ensures
        r is Ok,
        r matches Ok(t) ==> t@ == qs_list(key@, values@.map_values(|v: String| v@)),
{
    let mut m = std::collections::BTreeMap::new();
    m.insert(key, values);
    serde_qs::to_string(&m).map_err(|e| e.to_string())
}

/// Relies on `serde_qs::to_string` on a one-entry map from `key` to a list
/// of pairs: `key[i][0]=a&key[i][1]=b` per pair, and it cannot fail on
/// strings; an error would come back as its message.
#[verifier::external_body]
fn qs_pair_list_text(key: &str, values: &Vec<(String, String)>) -> (r: Result<String, String>)
    ensures
        r is Ok,
        r matches Ok(t) ==> t@ == qs_pair_list(
            key@,
            values@.map_values(|v: (String, String)| (v.0@, v.1@)),
        ),
{
    let mut m = std::collections::BTreeMap::new();
    m.insert(key, values);
    serde_qs::to_string(&m).map_err(|e| e.to_string())
}

/// A field name in kebab case: each `_` becomes `-`.
pub open spec fn kebab(name: Seq<char>) -> Seq<char> {
    name.map_values(|c: char| if c == '_' { '-' } else { c })
}

/// The texts of a list's elements.
pub open spec fn list_texts(xs: Seq<Scalar>) -> Seq<Seq<char>> {
    xs.map_values(|s: Scalar| scalar_text(s))
}

/// The texts of a list of pairs.
pub open spec fn pair_texts(ps: Seq<(Scalar, Scalar)>) -> Seq<(Seq<char>, Seq<char>)> {
    ps.map_values(|p: (Scalar, Scalar)| (scalar_text(p.0), scalar_text(p.1)))
}

/// The part of the query string that one field contributes.
pub open spec fn field_text(f: Field) -> Seq<char> {
    let key = kebab(f.name@);
    match f.value {
        ParamValue::Absent => seq![],
        ParamValue::One(s) => qs_single(key, scalar_text(s)),
        ParamValue::Many(xs) => qs_list(key, list_texts(xs@)),
        ParamValue::Pairs(ps) => qs_pair_list(key, pair_texts(ps@)),
    }
}

/// Non-empty parts joined by `&`.
pub open spec fn join_parts(parts: Seq<Seq<char>>) -> Seq<char>
    decreases parts.len(),
{
    if parts.len() == 0 {
        seq![]
    } else {
        let init = join_parts(parts.drop_last());
        let t = parts.last();
        if t.len() == 0 {
            init
        } else if init.len() == 0 {
            t
        } else {
            init.push('&') + t
        }
    }
}

/// The query string of a parameter struct: its fields' parts in declared
/// order.
pub open spec fn query_text(fields: Seq<Field>) -> Seq<char> {
    join_parts(fields.map_values(|f: Field| field_text(f)))
}

/// A field name in kebab case.
pub fn kebab_name(name: &str) -> (r: String)
    ensures
        r@ == kebab(name@),
{
    let n = name.unicode_len();
    let mut out = String::new();
    let mut i: usize = 0;
    while i < n
        invariant
            n == name@.len(),
            i <= n,
            out@ == kebab(name@.take(i as int)),
        decreases n - i,
    {
        let c = name.get_char(i);
        if c == '_' {
            push_char(&mut out, '-');
        } else {
            push_char(&mut out, c);
        }
        i += 1;
        assert(out@ =~= kebab(name@.take(i as int)));
    }
    assert(name@.take(i as int) =~= name@);
    out
}

fn qs_result(r: Result<String, String>) -> (s: Result<String, BaseError>)
    ensures
        r matches Ok(t) ==> s == Ok::<String, BaseError>(t),
        r is Err ==> s matches Err(BaseError::QuerystringSerialize(_)),
{
    match r {
        Ok(t) => Ok(t),
        Err(e) => Err(BaseError::QuerystringSerialize(e)),
    }
}

/// The part of the query string that one field contributes.
pub fn field_query(f: &Field) -> (r: Result<String, BaseError>)
    ensures
        r matches Ok(t) && t@ == field_text(*f),
{
    match &f.value {
        ParamValue::Absent => Ok(String::new()),
        ParamValue::One(s) => {
            let key = kebab_name(f.name.as_str());
            let v = scalar_string(s);
            qs_result(qs_single_text(key.as_str(), v.as_str()))
        },
        ParamValue::Many(xs) => {
            let key = kebab_name(f.name.as_str());
            let mut texts: Vec<String> = Vec::new();
            let mut i: usize = 0;
            while i < xs.len()
                invariant
                    i <= xs@.len(),
                    texts@.len() == i,
                    forall|k: int| 0 <= k < i ==> (#[trigger] texts@[k])@ == scalar_text(xs@[k]),
                decreases xs@.len() - i,
            {
                texts.push(scalar_string(&xs[i]));
                i += 1;
            }
            assert(texts@.map_values(|v: String| v@) =~= list_texts(xs@));
            qs_result(qs_list_text(key.as_str(), &texts))
        },
        ParamValue::Pairs(ps) => {
            let key = kebab_name(f.name.as_str());
            let mut texts: Vec<(String, String)> = Vec::new();
            let mut i: usize = 0;
            while i < ps.len()
                invariant
                    i <= ps@.len(),
                    texts@.len() == i,
                    forall|k: int|
                        0 <= k < i ==> (#[trigger] texts@[k]).0@ == scalar_text(ps@[k].0)
                            && texts@[k].1@ == scalar_text(ps@[k].1),
                decreases ps@.len() - i,
            {
                texts.push((scalar_string(&ps[i].0), scalar_string(&ps[i].1)));
                i += 1;
            }
            assert(texts@.map_values(|v: (String, String)| (v.0@, v.1@)) =~= pair_texts(ps@));
            qs_result(qs_pair_list_text(key.as_str(), &texts))
        },
    }
}

/// The query string of a parameter struct.
pub fn query_string(fields: &Vec<Field>) -> (r: Result<String, BaseError>)
    ensures
        r matches Ok(t) && t@ == query_text(fields@),
{
    let mut out = String::new();
    let mut i: usize = 0;
    assert(fields@.take(0).map_values(|f: Field| field_text(f)) =~= Seq::<Seq<char>>::empty());
    while i < fields.len()
        invariant
            i <= fields@.len(),
            out@ == join_parts(fields@.take(i as int).map_values(|f: Field| field_text(f))),
        decreases fields@.len() - i,
    {
        let ghost parts = fields@.take(i + 1).map_values(|f: Field| field_text(f));
        assert(parts.drop_last() =~= fields@.take(i as int).map_values(|f: Field| field_text(f)));
        assert(parts.last() == field_text(fields@[i as int]));
        let t = match field_query(&fields[i]) {
            Ok(t) => t,
            Err(e) => {
                return Err(e);
            },
        };
        if t.unicode_len() > 0 {
            if out.unicode_len() > 0 {
                push_char(&mut out, '&');
            }
            out.append(t.as_str());
        }
        i += 1;
        assert(out@ =~= join_parts(parts));
    }
    assert(fields@.take(i as int) =~= fields@);
    Ok(out)
}

} // verus!
