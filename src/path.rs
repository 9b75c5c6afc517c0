//! Path templates: `/books/:book_id/images` with `:name` placeholders.
use vstd::prelude::*;
use vstd::string::*;

use crate::query::{Field, ParamValue, Scalar};
use crate::text::{decimal, push_char, push_decimal, same_text};

verus! {

/// Characters that may continue a placeholder's name.
pub open spec fn is_name_char(c: char) -> bool {
    ||| '0' <= c <= '9'
    ||| 'A' <= c <= 'Z'
    ||| 'a' <= c <= 'z'
    ||| c == '_'
}

/// The length of the run of name characters at the start of `s`.
pub open spec fn name_len(s: Seq<char>) -> nat
    decreases s.len(),
{
    if s.len() > 0 && is_name_char(s[0]) {
        1 + name_len(s.skip(1))
    } else {
        0
    }
}

/// The position of the first field named `name`.
pub open spec fn field_index(fields: Seq<Field>, name: Seq<char>) -> Option<int>
    decreases fields.len(),
{
    if fields.len() == 0 {
        None
    } else if fields[0].name@ == name {
        Some(0)
    } else {
        match field_index(fields.skip(1), name) {
            Some(i) => Some(i + 1),
            None => None,
        }
    }
}

/// The text of a plain value.
pub open spec fn scalar_text(s: Scalar) -> Seq<char> {
    match s {
        Scalar::Bool(b) => if b {
            seq!['t', 'r', 'u', 'e']
        } else {
            seq!['f', 'a', 'l', 's', 'e']
        },
        Scalar::UInt(n) => decimal(n as nat).map_values(|b: u8| b as char),
        Scalar::Text(t) => t@,
    }
}

/// What stands in a path for a parameter's value: the text of a single
/// value, and nothing for an absent value or a list.
pub open spec fn value_text(v: ParamValue) -> Seq<char> {
    match v {
        ParamValue::One(s) => scalar_text(s),
        _ => seq![],
    }
}

/// What replaces the placeholder `:name`: the value of the field of that
/// name, or the placeholder itself when there is none.
pub open spec fn placeholder_text(name: Seq<char>, fields: Seq<Field>) -> Seq<char> {
    match field_index(fields, name) {
        Some(i) => value_text(fields[i].value),
        None => seq![':'] + name,
    }
}

/// The template with each placeholder replaced.
pub open spec fn render_path(t: Seq<char>, fields: Seq<Field>) -> Seq<char>
    decreases t.len(),
{
    if t.len() == 0 {
        seq![]
    } else if t[0] == ':' {
        let n = name_len(t.skip(1));
        if 1 + n <= t.len() {
            placeholder_text(t.subrange(1, 1 + n as int), fields) + render_path(
                t.skip(1 + n as int),
                fields,
            )
        } else {
            seq![]
        }
    } else {
        seq![t[0]] + render_path(t.skip(1), fields)
    }
}

/// Every placeholder of the template names one of `names`.
pub open spec fn placeholders_known(t: Seq<char>, names: Seq<Seq<char>>) -> bool
    decreases t.len(),
{
    if t.len() == 0 {
        true
    } else if t[0] == ':' {
        let n = name_len(t.skip(1));
        1 + n <= t.len() && names.contains(t.subrange(1, 1 + n as int)) && placeholders_known(
            t.skip(1 + n as int),
            names,
        )
    } else {
        placeholders_known(t.skip(1), names)
    }
}

proof fn lemma_name_len_bound(s: Seq<char>)
    ensures
        name_len(s) <= s.len(),
    decreases s.len(),
{
    if s.len() > 0 && is_name_char(s[0]) {
        lemma_name_len_bound(s.skip(1));
    }
}

fn is_name_char_exec(c: char) -> (r: bool)
    ensures
        r == is_name_char(c),
{
    ('0' <= c && c <= '9') || ('A' <= c && c <= 'Z') || ('a' <= c && c <= 'z') || c == '_'
}

/// The length of the placeholder name that starts at `from`.
pub(crate) fn name_len_at(t: &str, from: usize) -> (r: usize)
    requires
        from <= t@.len(),
    ensures
        r == name_len(t@.skip(from as int)),
        from + r <= t@.len(),
{
    let n = t.unicode_len();
    let mut j: usize = from;
    while j < n && is_name_char_exec(t.get_char(j))
        invariant
            n == t@.len(),
            from <= j <= n,
            forall|k: int| from <= k < j ==> is_name_char(t@[k]),
            name_len(t@.skip(from as int)) == (j - from) + name_len(t@.skip(j as int)),
        decreases n - j,
    {
        assert(t@.skip(j as int).skip(1) =~= t@.skip(j + 1));
        j += 1;
    }
    j - from
}

/// The position of the first field named `name`.
pub fn find_field(fields: &Vec<Field>, name: &str) -> (r: Option<usize>)
    ensures
        match r {
            Some(i) => field_index(fields@, name@) == Some(i as int) && i < fields@.len(),
            None => field_index(fields@, name@) is None,
        },
{
    let mut i: usize = 0;
    assert(fields@.skip(0) =~= fields@);
    while i < fields.len()
        invariant
            i <= fields@.len(),
            field_index(fields@, name@) == match field_index(fields@.skip(i as int), name@) {
                Some(k) => Some(k + i),
                None => None,
            },
        decreases fields@.len() - i,
    {
        assert(fields@.skip(i as int).skip(1) =~= fields@.skip(i + 1));
        if same_text(fields[i].name.as_str(), name) {
            return Some(i);
        }
        i += 1;
    }
    None
}

fn push_str_chars(out: &mut String, s: &str)
    ensures
        final(out)@ == old(out)@ + s@,
{
    out.append(s);
}

/// The text of a plain value.
pub fn scalar_string(s: &Scalar) -> (r: String)
    ensures
        r@ == scalar_text(*s),
{
    let mut out = String::new();
    match s {
        Scalar::Bool(b) => {
            if *b {
                push_char(&mut out, 't');
                push_char(&mut out, 'r');
                push_char(&mut out, 'u');
                push_char(&mut out, 'e');
            } else {
                push_char(&mut out, 'f');
                push_char(&mut out, 'a');
                push_char(&mut out, 'l');
                push_char(&mut out, 's');
                push_char(&mut out, 'e');
            }
        },
        Scalar::UInt(n) => {
            let mut digits: Vec<u8> = Vec::new();
            push_decimal(&mut digits, *n);
            let mut k: usize = 0;
            while k < digits.len()
                invariant
                    k <= digits@.len(),
                    digits@ == decimal(*n as nat),
                    out@ == digits@.take(k as int).map_values(|b: u8| b as char),
                decreases digits@.len() - k,
            {
                push_char(&mut out, digits[k] as char);
                k += 1;
                assert(digits@.take(k as int).map_values(|b: u8| b as char) =~= digits@.take(
                    k - 1,
                ).map_values(|b: u8| b as char).push(digits@[k - 1] as char));
            }
            assert(digits@.take(k as int) =~= digits@);
        },
        Scalar::Text(t) => push_str_chars(&mut out, t.as_str()),
    }
    assert(out@ =~= scalar_text(*s));
    out
}

fn push_value_text(out: &mut String, v: &ParamValue)
    ensures
        final(out)@ == old(out)@ + value_text(*v),
{
    match v {
        ParamValue::One(s) => {
            let t = scalar_string(s);
            out.append(t.as_str());
        },
        _ => {},
    }
    assert(out@ =~= old(out)@ + value_text(*v));
}

/// The path template `t` with each `:name` replaced by the text of the field
/// of that name.
pub fn substitute_path(t: &str, fields: &Vec<Field>) -> (r: String)
    ensures
        r@ == render_path(t@, fields@),
{
    let n = t.unicode_len();
    let mut out = String::new();
    let mut i: usize = 0;
    assert(t@.skip(0) =~= t@);
    while i < n
        invariant
            n == t@.len(),
            i <= n,
            out@ + render_path(t@.skip(i as int), fields@) == render_path(t@, fields@),
        decreases n - i,
    {
        let c = t.get_char(i);
        let ghost rest = t@.skip(i as int);
        if c == ':' {
            let len = name_len_at(t, i + 1);
            assert(rest.skip(1) =~= t@.skip(i + 1));
            proof {
                lemma_name_len_bound(rest.skip(1));
            }
            let name = t.substring_char(i + 1, i + 1 + len);
            assert(name@ =~= rest.subrange(1, 1 + len as int));
            assert(rest.skip(1 + len as int) =~= t@.skip(i + 1 + len));
            let ghost before = out@;
            match find_field(fields, name) {
                Some(k) => push_value_text(&mut out, &fields[k].value),
                None => {
                    push_char(&mut out, ':');
                    push_str_chars(&mut out, name);
                },
            }
            assert(out@ =~= before + placeholder_text(name@, fields@));
            i = i + 1 + len;
        } else {
            push_char(&mut out, c);
            assert(rest.skip(1) =~= t@.skip(i + 1));
            i += 1;
        }
    }
    assert(render_path(t@.skip(i as int), fields@) =~= Seq::<char>::empty());
    assert(out@ =~= render_path(t@, fields@));
    out
}

} // verus!
