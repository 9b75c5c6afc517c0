//! The credential cookies sent with each request, and their refreshed values
//! read back from `Set-Cookie` response headers.
use vstd::prelude::*;
use vstd::string::*;

use crate::text::{push_char, same_text};

verus! {

/// Name of the cookie that carries the access token.
pub const MADOME_ACCESS_TOKEN: &'static str = "madome_access_token";

/// Name of the cookie that carries the refresh token.
pub const MADOME_REFRESH_TOKEN: &'static str = "madome_refresh_token";

/// An access token and a refresh token.
pub type TokenPair = (String, String);

/// Cookies to send, as name/value pairs in order.
#[derive(Debug, PartialEq, Eq)]
pub struct Cookie {
    pub pairs: Vec<(String, String)>,
}

/// `name=value`.
pub open spec fn cookie_pair_text(p: (String, String)) -> Seq<char> {
    p.0@.push('=') + p.1@
}

/// The value of a `Cookie` header: the pairs joined by `; `.
pub open spec fn cookie_text(pairs: Seq<(String, String)>) -> Seq<char>
    decreases pairs.len(),
{
    if pairs.len() == 0 {
        seq![]
    } else if pairs.len() == 1 {
        cookie_pair_text(pairs[0])
    } else {
        cookie_text(pairs.drop_last()) + seq![';', ' '] + cookie_pair_text(pairs.last())
    }
}

/// The cookies of a token pair: the access token, then the refresh token.
pub open spec fn is_pair_cookie(c: Cookie, access: Seq<char>, refresh: Seq<char>) -> bool {
    &&& c.pairs@.len() == 2
    &&& c.pairs@[0].0@ == MADOME_ACCESS_TOKEN@
    &&& c.pairs@[0].1@ == access
    &&& c.pairs@[1].0@ == MADOME_REFRESH_TOKEN@
    &&& c.pairs@[1].1@ == refresh
}

/// The `Cookie` header value of a token pair.
pub open spec fn pair_cookie_text(access: Seq<char>, refresh: Seq<char>) -> Seq<char> {
    MADOME_ACCESS_TOKEN@.push('=') + access + seq![';', ' '] + MADOME_REFRESH_TOKEN@.push('=')
        + refresh
}

/// The cookies of a token pair are sent as `access=...; refresh=...`.
pub proof fn lemma_pair_cookie_text(c: Cookie, access: Seq<char>, refresh: Seq<char>)
    requires
        is_pair_cookie(c, access, refresh),
    ensures
        cookie_text(c.pairs@) == pair_cookie_text(access, refresh),
{
    let ps = c.pairs@;
    assert(ps.drop_last().len() == 1);
    assert(ps.drop_last()[0] == ps[0]);
    assert(cookie_text(ps.drop_last()) == cookie_pair_text(ps[0]));
    assert(cookie_text(ps) == cookie_text(ps.drop_last()) + seq![';', ' '] + cookie_pair_text(
        ps.last(),
    ));
    assert(cookie_text(ps) =~= pair_cookie_text(access, refresh));
}

impl Cookie {
    /// The cookies that carry `access` and `refresh`.
    pub fn from_pair(access: &str, refresh: &str) -> (r: Cookie)
        ensures
            is_pair_cookie(r, access@, refresh@),
    {
        let mut pairs: Vec<(String, String)> = Vec::new();
        pairs.push((String::from_str(MADOME_ACCESS_TOKEN), String::from_str(access)));
        pairs.push((String::from_str(MADOME_REFRESH_TOKEN), String::from_str(refresh)));
        Cookie { pairs }
    }

    /// The value of the `Cookie` header that carries these cookies.
    pub fn header_value(&self) -> (r: String)
        ensures
            r@ == cookie_text(self.pairs@),
    {
        let mut out = String::new();
        let mut i: usize = 0;
        while i < self.pairs.len()
            invariant
                i <= self.pairs@.len(),
                out@ == cookie_text(self.pairs@.take(i as int)),
            decreases self.pairs@.len() - i,
        {
            assert(self.pairs@.take(i + 1).drop_last() =~= self.pairs@.take(i as int));
            assert(self.pairs@.take(i + 1).last() == self.pairs@[i as int]);
            if i > 0 {
                push_char(&mut out, ';');
                push_char(&mut out, ' ');
            }
            out.append(self.pairs[i].0.as_str());
            push_char(&mut out, '=');
            out.append(self.pairs[i].1.as_str());
            i += 1;
            assert(out@ =~= cookie_text(self.pairs@.take(i as int)));
        }
        assert(self.pairs@.take(i as int) =~= self.pairs@);
        out
    }
}

/// The position of the first `c` in `s`.
pub open spec fn find_first(s: Seq<char>, c: char) -> Option<int>
    decreases s.len(),
{
    if s.len() == 0 {
        None
    } else if s[0] == c {
        Some(0)
    } else {
        match find_first(s.skip(1), c) {
            Some(k) => Some(k + 1),
            None => None,
        }
    }
}

/// The name and value of a `Set-Cookie` header `name=value; attributes`.
pub open spec fn set_cookie_parts(h: Seq<char>) -> Option<(Seq<char>, Seq<char>)> {
    match find_first(h, '=') {
        Some(k) => {
            let rest = h.skip(k + 1);
            let value = match find_first(rest, ';') {
                Some(m) => rest.take(m),
                None => rest,
            };
            Some((h.take(k), value))
        },
        None => None,
    }
}

/// The value that the last of `headers` setting cookie `name` gives it.
pub open spec fn set_cookie_value(headers: Seq<String>, name: Seq<char>) -> Option<Seq<char>>
    decreases headers.len(),
{
    if headers.len() == 0 {
        None
    } else {
        match set_cookie_parts(headers.last()@) {
            Some((n, v)) => if n == name {
                Some(v)
            } else {
                set_cookie_value(headers.drop_last(), name)
            },
            None => set_cookie_value(headers.drop_last(), name),
        }
    }
}

proof fn lemma_find_first_bound(s: Seq<char>, c: char)
    ensures
        match find_first(s, c) {
            Some(k) => 0 <= k < s.len() && s[k] == c,
            None => true,
        },
    decreases s.len(),
{
    if s.len() > 0 && s[0] != c {
        lemma_find_first_bound(s.skip(1), c);
    }
}

/// The position of the first `c` at or after `from`.
fn find_char(s: &str, from: usize, c: char) -> (r: Option<usize>)
    requires
        from <= s@.len(),
    ensures
        match find_first(s@.skip(from as int), c) {
            Some(k) => r == Some((k + from) as usize),
            None => r is None,
        },
{
    let n = s.unicode_len();
    let mut i: usize = from;
    while i < n
        invariant
            n == s@.len(),
            from <= i <= n,
            find_first(s@.skip(from as int), c) == match find_first(s@.skip(i as int), c) {
                Some(k) => Some(k + i - from),
                None => None,
            },
        decreases n - i,
    {
        assert(s@.skip(i as int).skip(1) =~= s@.skip(i + 1));
        if s.get_char(i) == c {
            return Some(i);
        }
        i += 1;
    }
    None
}

/// The name and value of one `Set-Cookie` header.
pub fn parse_set_cookie(h: &str) -> (r: Option<(String, String)>)
    ensures
        match set_cookie_parts(h@) {
            Some((n, v)) => r matches Some(p) && p.0@ == n && p.1@ == v,
            None => r is None,
        },
{
    assert(h@.skip(0) =~= h@);
    match find_char(h, 0, '=') {
        Some(k) => {
            proof {
                lemma_find_first_bound(h@, '=');
            }
            let n = h.unicode_len();
            let name = h.substring_char(0, k);
            let ghost rest = h@.skip(k + 1);
            assert(h@.skip(k + 1).skip(0) =~= rest);
            let end = match find_char(h, k + 1, ';') {
                Some(m) => {
                    proof {
                        lemma_find_first_bound(rest, ';');
                    }
                    m
                },
                None => n,
            };
            let value = h.substring_char(k + 1, end);
            assert(name@ =~= h@.take(k as int));
            assert(value@ =~= (match find_first(rest, ';') {
                Some(m) => rest.take(m),
                None => rest,
            }));
            Some((String::from_str(name), String::from_str(value)))
        },
        None => None,
    }
}

/// The value that the `Set-Cookie` headers give cookie `name`, the last
/// one winning.
pub fn take_set_cookie(headers: &Vec<String>, name: &str) -> (r: Option<String>)
    ensures
        match set_cookie_value(headers@, name@) {
            Some(v) => r matches Some(s) && s@ == v,
            None => r is None,
        },
{
    let mut i: usize = headers.len();
    assert(headers@.take(i as int) =~= headers@);
    while i > 0
        invariant
            i <= headers@.len(),
            set_cookie_value(headers@, name@) == set_cookie_value(headers@.take(i as int), name@),
        decreases i,
    {
        let ghost pre = headers@.take(i as int);
        assert(pre.drop_last() =~= headers@.take(i - 1));
        assert(pre.last() == headers@[i - 1]);
        match parse_set_cookie(headers[i - 1].as_str()) {
            Some((n, v)) => {
                if same_text(n.as_str(), name) {
                    return Some(v);
                }
            },
            None => {},
        }
        i -= 1;
    }
    None
}

} // verus!
