//! Token carriers: where the credentials of a request come from, and where
//! refreshed credentials go.
use vstd::prelude::*;
use vstd::string::*;

use crate::cookie::{
    is_pair_cookie, set_cookie_value, take_set_cookie, Cookie, TokenPair, MADOME_ACCESS_TOKEN,
    MADOME_REFRESH_TOKEN,
};

verus! {

/// A credential store shared by a client and its requests.
pub trait TokenBehavior {
    /// Receives the access and refresh tokens that a response set, if any.
    /// A store changes what it holds behind a shared reference.
    fn update(&self, token_pair: (Option<String>, Option<String>));

    /// The cookies that carry the credentials it holds now.
    fn as_cookie(&self) -> Cookie;
}

/// The credentials of one request: a fixed pair, or a shared store.
pub enum Token<'a, S> {
    Origin(TokenPair),
    Store(&'a S),
}

/// The access and refresh tokens that `set_cookies` set.
pub open spec fn observed(set_cookies: Seq<String>) -> (Option<Seq<char>>, Option<Seq<char>>) {
    (
        set_cookie_value(set_cookies, MADOME_ACCESS_TOKEN@),
        set_cookie_value(set_cookies, MADOME_REFRESH_TOKEN@),
    )
}

/// Whether an exec pair of optional strings has the given views.
pub open spec fn views_match(p: (Option<String>, Option<String>), q: (
    Option<Seq<char>>,
    Option<Seq<char>>,
)) -> bool {
    &&& (p.0 is Some <==> q.0 is Some)
    &&& (p.0 is Some ==> p.0->Some_0@ == q.0->Some_0)
    &&& (p.1 is Some <==> q.1 is Some)
    &&& (p.1 is Some ==> p.1->Some_0@ == q.1->Some_0)
}

/// The access and refresh tokens that the `Set-Cookie` headers of a
/// response set.
pub fn observed_pair(set_cookies: &Vec<String>) -> (r: (Option<String>, Option<String>))
    ensures
        views_match(r, observed(set_cookies@)),
{
    let access = take_set_cookie(set_cookies, MADOME_ACCESS_TOKEN);
    let refresh = take_set_cookie(set_cookies, MADOME_REFRESH_TOKEN);
    (access, refresh)
}

/// What a store holds after it receives `token_pair`: the new pair when both
/// tokens came, and what it held before otherwise.
pub fn refreshed_pair(current: Option<TokenPair>, token_pair: (Option<String>, Option<String>)) -> (r:
    Option<TokenPair>)
    ensures
        match token_pair {
            (Some(a), Some(f)) => r == Some((a, f)),
            _ => r == current,
        },
{
    match token_pair {
        (Some(a), Some(f)) => Some((a, f)),
        _ => current,
    }
}

/// The cookies of what a store holds; empty tokens when it holds nothing.
pub fn stored_cookie(current: &Option<TokenPair>) -> (r: Cookie)
    ensures
        *current matches Some(p) ==> is_pair_cookie(r, p.0@, p.1@),
        *current is None ==> is_pair_cookie(r, Seq::empty(), Seq::empty()),
{
    match current {
        Some(p) => {
            let a = p.0.as_str();
            let f = p.1.as_str();
            Cookie::from_pair(a, f)
        },
        None => {
            let empty = String::new();
            Cookie::from_pair(empty.as_str(), empty.as_str())
        },
    }
}

impl<'a, S: TokenBehavior> Token<'a, S> {
    /// The cookies to send with a request.
    pub fn as_cookie(&self) -> (r: Cookie)
        ensures
            self matches Token::Origin(p) ==> is_pair_cookie(r, p.0@, p.1@),
    {
        match self {
            Token::Origin(p) => Cookie::from_pair(p.0.as_str(), p.1.as_str()),
            Token::Store(s) => s.as_cookie(),
        }
    }

    /// Lets the carrier see a response's `Set-Cookie` headers. A fixed pair
    /// ignores them; a store receives the tokens they set.
    pub fn update(&self, set_cookies: &Vec<String>) {
        match self {
            Token::Origin(_) => {},
            Token::Store(s) => s.update(observed_pair(set_cookies)),
        }
    }
}


impl<'a, S> From<TokenPair> for Token<'a, S> {
    fn from(token: TokenPair) -> (r: Token<'a, S>)
        ensures
            r == Token::<'a, S>::Origin(token),
    {
        Token::Origin(token)
    }
}

impl<'a, S> vstd::std_specs::convert::FromSpecImpl<TokenPair> for Token<'a, S> {
    open spec fn obeys_from_spec() -> bool {
        true
    }

    open spec fn from_spec(token: TokenPair) -> Token<'a, S> {
        Token::Origin(token)
    }
}
} // verus!
