//! Authentication checks made on behalf of other services.
use vstd::prelude::*;
use vstd::string::*;

use crate::cookie::{MADOME_ACCESS_TOKEN, MADOME_REFRESH_TOKEN};
use crate::endpoint::{Error as NamespaceError, Method, RequestPlan, COOKIE_HEADER};
use crate::error::{utf8_lossy, BaseError};
use crate::header::{has_header, header_present, MADOME_PUBLIC_ACCESS_HEADER};
use crate::text::push_char;

verus! {

/// The role that an access check asks for.
#[derive(Debug, Clone, Copy, PartialEq, Eq, Structural)]
pub enum Role {
    Normal,
    Developer,
}

impl Role {
    /// The role's number on the wire.
    pub open spec fn level(self) -> u8 {
        match self {
            Role::Normal => 0,
            Role::Developer => 1,
        }
    }

    /// The role's number on the wire.
    pub fn u8(&self) -> (r: u8)
        ensures
            r == self.level(),
    {
        match self {
            Role::Normal => 0,
            Role::Developer => 1,
        }
    }
}

/// Failures of the authentication checks.
#[derive(Debug, PartialEq, Eq)]
pub enum Error {
    Unauthorized,
    PermissionDenied,
    /// Permission denied after the token pair was refreshed; carries the
    /// `Set-Cookie` values of the refreshed pair.
    PermissionDeniedByRefreshed(Vec<String>),
    /// Any other status, with the response body as text.
    Other(u16, String),
    /// The transport's message.
    Reqwest(String),
}

/// An HTTP reply for a failed check, as a service sends it on.
#[derive(Debug, PartialEq, Eq)]
pub struct HttpReply {
    pub status: u16,
    /// Header names and values, in order.
    pub headers: Vec<(String, String)>,
    pub body: String,
}

/// Name of the header that sets a cookie.
pub const SET_COOKIE_HEADER: &'static str = "set-cookie";

/// The message of each failure.
pub open spec fn error_message(e: Error) -> Seq<char> {
    match e {
        Error::Unauthorized => "Unauthorized"@,
        Error::PermissionDenied => "Permission denied"@,
        Error::PermissionDeniedByRefreshed(_) => "Permission denied"@,
        Error::Other(_, body) => body@,
        Error::Reqwest(m) => "reqwest: "@ + m@,
    }
}

/// The status of the reply for each failure.
pub open spec fn error_status(e: Error) -> u16 {
    match e {
        Error::Unauthorized => 401,
        Error::PermissionDenied => 403,
        Error::PermissionDeniedByRefreshed(_) => 403,
        Error::Other(code, _) => code,
        Error::Reqwest(_) => 500,
    }
}

impl Error {
    /// The reply that passes this failure on: its status and message, and
    /// for a denial after a refresh the refreshed cookies as `Set-Cookie`
    /// headers.
    pub fn to_http(&self) -> (r: HttpReply)
        ensures
            r.status == error_status(*self),
            r.body@ == error_message(*self),
            match *self {
                Error::PermissionDeniedByRefreshed(c) => r.headers@.len() == c@.len() && forall|i: int|
                    0 <= i < c@.len() ==> (#[trigger] r.headers@[i]).0@ == SET_COOKIE_HEADER@
                        && r.headers@[i].1@ == c@[i]@,
                _ => r.headers@.len() == 0,
            },
    {
        match self {
            Error::Unauthorized => HttpReply {
                status: 401,
                headers: Vec::new(),
                body: String::from_str("Unauthorized"),
            },
            Error::PermissionDenied => HttpReply {
                status: 403,
                headers: Vec::new(),
                body: String::from_str("Permission denied"),
            },
            Error::PermissionDeniedByRefreshed(c) => {
                let mut headers: Vec<(String, String)> = Vec::new();
                let mut i: usize = 0;
                while i < c.len()
                    invariant
                        i <= c@.len(),
                        headers@.len() == i,
                        forall|k: int|
                            0 <= k < i ==> (#[trigger] headers@[k]).0@ == SET_COOKIE_HEADER@
                                && headers@[k].1@ == c@[k]@,
                    decreases c@.len() - i,
                {
                    headers.push((String::from_str(SET_COOKIE_HEADER), c[i].clone()));
                    i += 1;
                }
                HttpReply { status: 403, headers, body: String::from_str("Permission denied") }
            },
            Error::Other(code, body) => HttpReply {
                status: *code,
                headers: Vec::new(),
                body: body.clone(),
            },
            Error::Reqwest(m) => {
                let mut body = String::from_str("reqwest: ");
                body.append(m.as_str());
                HttpReply { status: 500, headers: Vec::new(), body }
            },
        }
    }
}

/// The authentication service at `base_url`.
pub struct Auth<'a> {
    pub base_url: &'a str,
}

/// A request made by another service and not by a user: the gateway's
/// public-access header is absent.
pub fn check_internal(headers: &Vec<(String, String)>) -> (r: Result<(), NamespaceError>)
    ensures
        r is Ok <==> !has_header(headers@, MADOME_PUBLIC_ACCESS_HEADER@),
        r is Err ==> r == Err::<(), NamespaceError>(NamespaceError::Base(BaseError::PermissionDenied)),
{
    if header_present(headers, MADOME_PUBLIC_ACCESS_HEADER) {
        Err(NamespaceError::Base(BaseError::PermissionDenied))
    } else {
        Ok(())
    }
}

/// The path of the token checks.
pub const TOKEN_PATH: &'static str = "/auth/token";

/// Whether `r` is the outcome of a token check whose response had `status`
/// and `body`; a success gives the body, to be decoded as the user id.
pub open spec fn is_check_outcome(
    status: u16,
    body: Seq<u8>,
    set_cookies: Seq<String>,
    refreshing: bool,
    r: Result<Vec<u8>, Error>,
) -> bool {
    if status == 200 {
        r matches Ok(b) && b@ == body
    } else if status == 401 {
        r == Err::<Vec<u8>, Error>(Error::Unauthorized)
    } else if status == 403 {
        if refreshing {
            r matches Err(Error::PermissionDeniedByRefreshed(c)) && c@ == set_cookies
        } else {
            r == Err::<Vec<u8>, Error>(Error::PermissionDenied)
        }
    } else {
        r matches Err(Error::Other(c, t)) && c == status && t@ == utf8_lossy(body)
    }
}

impl<'a> Auth<'a> {
    pub fn new(base_url: &'a str) -> (r: Self)
        ensures
            r.base_url@ == base_url@,
    {
        Self { base_url }
    }

    /// A request made by another service and not by a user: the gateway's
    /// public-access header is absent.
    pub fn check_internal(&self, headers: &Vec<(String, String)>) -> (r: Result<(), Error>)
        ensures
            r is Ok <==> !has_header(headers@, MADOME_PUBLIC_ACCESS_HEADER@),
            r is Err ==> r == Err::<(), Error>(Error::PermissionDenied),
    {
        if header_present(headers, MADOME_PUBLIC_ACCESS_HEADER) {
            Err(Error::PermissionDenied)
        } else {
            Ok(())
        }
    }

    /// The request of a token check: `GET` to check an access token, `PATCH`
    /// to check and refresh a pair. The tokens go in the cookie header, and
    /// a role above the normal one in the query string.
    pub fn token_request(
        &self,
        method: Method,
        access_token: &str,
        refresh_token: Option<&str>,
        role: Role,
    ) -> (r: RequestPlan)
        ensures
            r.method == method,
            r.url@ == if role.level() > 0 {
                self.base_url@ + TOKEN_PATH@ + seq!['?', 'r', 'o', 'l', 'e', '=', '1']
            } else {
                self.base_url@ + TOKEN_PATH@
            },
            r.headers@.len() == 1,
            r.headers@[0].0@ == COOKIE_HEADER@,
            r.headers@[0].1@ == match refresh_token {
                Some(t) => MADOME_ACCESS_TOKEN@.push('=') + access_token@ + seq![';', ' ']
                    + MADOME_REFRESH_TOKEN@.push('=') + t@,
                None => MADOME_ACCESS_TOKEN@.push('=') + access_token@,
            },
            r.body is None,
    {
        let mut url = String::from_str(self.base_url);
        url.append(TOKEN_PATH);
        if role.u8() > 0 {
            push_char(&mut url, '?');
            push_char(&mut url, 'r');
            push_char(&mut url, 'o');
            push_char(&mut url, 'l');
            push_char(&mut url, 'e');
            push_char(&mut url, '=');
            push_char(&mut url, '1');
        }
        let mut cookie = String::from_str(MADOME_ACCESS_TOKEN);
        push_char(&mut cookie, '=');
        cookie.append(access_token);
        match refresh_token {
            Some(t) => {
                push_char(&mut cookie, ';');
                push_char(&mut cookie, ' ');
                cookie.append(MADOME_REFRESH_TOKEN);
                push_char(&mut cookie, '=');
                cookie.append(t);
            },
            None => {},
        }
        let mut headers: Vec<(String, String)> = Vec::new();
        headers.push((String::from_str(COOKIE_HEADER), cookie));
        RequestPlan { method, url, headers, body: None }
    }

    /// The outcome of a token check's response. `refreshing` tells a check
    /// and refresh of a pair from a plain access check: only the former
    /// hands back the refreshed cookies with a denial.
    pub fn token_outcome(
        &self,
        status: u16,
        body: Vec<u8>,
        set_cookies: Vec<String>,
        refreshing: bool,
    ) -> (r: Result<Vec<u8>, Error>)
        ensures
            is_check_outcome(status, body@, set_cookies@, refreshing, r),
    {
        if status == 200 {
            Ok(body)
        } else if status == 401 {
            Err(Error::Unauthorized)
        } else if status == 403 {
            if refreshing {
                Err(Error::PermissionDeniedByRefreshed(set_cookies))
            } else {
                Err(Error::PermissionDenied)
            }
        } else {
            Err(Error::Other(status, crate::error::body_text(body.as_slice())))
        }
    }
}

} // verus!
