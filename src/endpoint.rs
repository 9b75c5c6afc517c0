//! Endpoint descriptions, and the request and response steps that every
//! endpoint runs through.
//!
//! An endpoint function builds its request with [`EndpointSpec::plan`], has
//! the transport send it, and hands the response to
//! [`EndpointSpec::response`], which first lets the token carrier see the
//! response's cookies and then turns the status and body into the result.
//! [`wrapper_fn`] gives the signature of the endpoint's public function.
use vstd::prelude::*;
use vstd::string::*;
use vstd::utf8::*;

use crate::cookie::{cookie_text, lemma_pair_cookie_text, pair_cookie_text, Cookie};
use crate::error::{status_error, utf8_lossy, BaseError};
use crate::json::{json_body, json_object};
use crate::path::{name_len_at, placeholders_known, render_path, substitute_path};
use crate::query::{query_string, query_text, Field, ParamValue};
use crate::syntax::{
    generalize_arg, impl_into_args, is_num_name, is_unit_ty, is_unit_type, result_args,
    result_parts, type_args, Block, FnArg, GenericArgument, ItemFn, PatType, PathArguments,
    PathSegment, ReturnType, Signature, TypeExpr, TypePath,
};
use crate::text::{push_char, same_text};
use crate::token::{Token, TokenBehavior};

verus! {

#[derive(Debug, Clone, Copy, PartialEq, Eq, Structural)]
pub enum Method {
    Get,
    Post,
    Put,
    Patch,
    Delete,
}

/// How an endpoint carries its parameters.
#[derive(Debug, Clone, Copy, PartialEq, Eq, Structural)]
pub enum ParameterKind {
    /// In `:name` placeholders of the path.
    Path,
    /// In the query string.
    Querystring,
    /// In a JSON body.
    Json,
    /// Not at all.
    Nothing,
}

/// A declared parameter.
#[derive(Debug, PartialEq, Eq)]
pub struct Parameter {
    pub name: String,
    pub ty: TypeExpr,
}

/// An error case of one endpoint, with its message.
#[derive(Debug, PartialEq, Eq)]
pub struct ErrorVariant {
    pub name: String,
    pub message: String,
}

/// A status that the endpoint reports as one of its own error cases.
#[derive(Debug, Clone, Copy, PartialEq, Eq, Structural)]
pub struct StatusHandler {
    pub status: u16,
    /// Position of the error case in the endpoint's `error_variants`.
    pub variant: usize,
}

/// The declarative description of one HTTP endpoint.
#[derive(Debug, PartialEq, Eq)]
pub struct EndpointSpec {
    pub namespace: String,
    pub name: String,
    pub method: Method,
    /// The path, with `:name` placeholders.
    pub path: String,
    pub parameter_kind: ParameterKind,
    pub parameters: Vec<Parameter>,
    pub error_variants: Vec<ErrorVariant>,
    /// Checked in this order; the first one whose status matches wins.
    pub status_handlers: Vec<StatusHandler>,
    pub success_status: u16,
    /// `()` when a success carries nothing.
    pub response_type: TypeExpr,
}

/// A request ready to be sent.
#[derive(Debug, PartialEq, Eq)]
pub struct RequestPlan {
    pub method: Method,
    pub url: String,
    /// Header names and values, in order.
    pub headers: Vec<(String, String)>,
    pub body: Option<Vec<u8>>,
}

/// A response as the transport received it.
#[derive(Debug, PartialEq, Eq)]
pub struct RawResponse {
    pub status: u16,
    /// The values of its `Set-Cookie` headers, in order.
    pub set_cookies: Vec<String>,
    pub body: Vec<u8>,
}

/// What a successful call returns.
#[derive(Debug, PartialEq, Eq)]
pub enum Payload {
    /// The endpoint returns nothing.
    Unit,
    /// The body exactly as received, to be decoded as the response type.
    Body(Vec<u8>),
}

/// One of an endpoint's own error cases.
#[derive(Debug, PartialEq, Eq)]
pub struct EndpointError {
    pub endpoint: String,
    pub variant: String,
    pub message: String,
}

/// The error of a namespace: the shared base error, or the error case of
/// one of its endpoints.
#[derive(Debug, PartialEq, Eq)]
pub enum Error {
    Base(BaseError),
    Endpoint(EndpointError),
}

/// Name of the header that carries the credential cookies.
pub const COOKIE_HEADER: &'static str = "cookie";

/// Name of the header that gives the body's media type.
pub const CONTENT_TYPE_HEADER: &'static str = "content-type";

/// Media type of a JSON body.
pub const JSON_MEDIA_TYPE: &'static str = "application/json";

/// The position of the first handler for `status`.
pub open spec fn handler_index(hs: Seq<StatusHandler>, status: u16) -> Option<int>
    decreases hs.len(),
{
    if hs.len() == 0 {
        None
    } else if hs[0].status == status {
        Some(0)
    } else {
        match handler_index(hs.skip(1), status) {
            Some(k) => Some(k + 1),
            None => None,
        }
    }
}

/// The names of the declared parameters.
pub open spec fn parameter_names(ps: Seq<Parameter>) -> Seq<Seq<char>> {
    ps.map_values(|p: Parameter| p.name@)
}

impl EndpointSpec {
    /// Parameter names are unique, every handler names a declared error
    /// case, and every placeholder of a path-carried endpoint names a
    /// parameter.
    pub open spec fn wf(&self) -> bool {
        &&& forall|i: int, j: int|
            0 <= i < j < self.parameters@.len() ==> #[trigger] self.parameters@[i].name@
                != #[trigger] self.parameters@[j].name@
        &&& forall|k: int|
            0 <= k < self.status_handlers@.len() ==> #[trigger] self.status_handlers@[k].variant
                < self.error_variants@.len()
        &&& self.parameter_kind == ParameterKind::Path ==> placeholders_known(
            self.path@,
            parameter_names(self.parameters@),
        )
    }

    /// The arguments are the declared parameters, by name and in order.
    pub open spec fn args_match(&self, args: Seq<Field>) -> bool {
        &&& args.len() == self.parameters@.len()
        &&& forall|i: int| 0 <= i < args.len() ==> #[trigger] args[i].name@ == self.parameters@[i].name@
    }

    /// The URL that a call with `args` requests.
    pub open spec fn url_for(&self, base_url: Seq<char>, args: Seq<Field>) -> Seq<char> {
        match self.parameter_kind {
            ParameterKind::Path => base_url + render_path(self.path@, args),
            ParameterKind::Querystring => (base_url + self.path@).push('?') + query_text(args),
            _ => base_url + self.path@,
        }
    }
}

/// Whether the plan's headers are the cookie header with the value `cookie`,
/// followed for a JSON body by the JSON content type.
pub open spec fn headers_for(
    headers: Seq<(String, String)>,
    kind: ParameterKind,
    cookie: Seq<char>,
) -> bool {
    &&& headers.len() == if kind == ParameterKind::Json { 2int } else { 1int }
    &&& headers[0].0@ == COOKIE_HEADER@
    &&& headers[0].1@ == cookie
    &&& kind == ParameterKind::Json ==> headers[1].0@ == CONTENT_TYPE_HEADER@ && headers[1].1@
        == JSON_MEDIA_TYPE@
}

/// Whether `p` is the request for `path` on `base_url` with `parameter`
/// carried as `parameter_kind` says and the cookie header `cookie`.
pub open spec fn is_request_for(
    p: RequestPlan,
    method: Method,
    url: Seq<char>,
    cookie: Seq<char>,
    parameter_kind: ParameterKind,
    parameter: Seq<Field>,
) -> bool {
    &&& p.method == method
    &&& p.url@ == url
    &&& headers_for(p.headers@, parameter_kind, cookie)
    &&& parameter_kind == ParameterKind::Json ==> (p.body matches Some(b) && b@ == encode_utf8(
        json_object(parameter),
    ))
    &&& parameter_kind != ParameterKind::Json ==> p.body is None
}

/// The URL of a request for `path` on `base_url`: the query string follows
/// `?` when the parameters go there.
pub open spec fn request_url(
    base_url: Seq<char>,
    path: Seq<char>,
    parameter_kind: ParameterKind,
    parameter: Seq<Field>,
) -> Seq<char> {
    if parameter_kind == ParameterKind::Querystring {
        (base_url + path).push('?') + query_text(parameter)
    } else {
        base_url + path
    }
}

/// Builds a request for `path` on `base_url`: the parameters go in the
/// query string or in a JSON body as `parameter_kind` says, and the cookies
/// go in the cookie header. A path-carried endpoint passes the path with its
/// placeholders already replaced. It always succeeds; the `Result` carries
/// the serializers' errors, which they do not produce on these values.
pub fn request(
    method: Method,
    base_url: &str,
    path: &str,
    cookie: &Cookie,
    parameter_kind: ParameterKind,
    parameter: &Vec<Field>,
) -> (r: Result<RequestPlan, BaseError>)
    ensures
        r is Ok,
        r matches Ok(p) ==> is_request_for(
            p,
            method,
            request_url(base_url@, path@, parameter_kind, parameter@),
            cookie_text(cookie.pairs@),
            parameter_kind,
            parameter@,
        ),
{
    let mut url = String::from_str(base_url);
    url.append(path);
    let mut headers: Vec<(String, String)> = Vec::new();
    headers.push((String::from_str(COOKIE_HEADER), cookie.header_value()));
    let body = match parameter_kind {
        ParameterKind::Querystring => {
            match query_string(parameter) {
                Ok(qs) => {
                    push_char(&mut url, '?');
                    url.append(qs.as_str());
                },
                Err(e) => {
                    return Err(e);
                },
            }
            None
        },
        ParameterKind::Json => {
            match json_body(parameter) {
                Ok(json) => {
                    headers.push(
                        (String::from_str(CONTENT_TYPE_HEADER), String::from_str(JSON_MEDIA_TYPE)),
                    );
                    Some(json.as_str().as_bytes_vec())
                },
                Err(e) => {
                    return Err(e);
                },
            }
        },
        _ => None,
    };
    Ok(RequestPlan { method, url, headers, body })
}

/// The position of the first handler for `status`.
pub fn find_handler(hs: &Vec<StatusHandler>, status: u16) -> (r: Option<usize>)
    ensures
        match r {
            Some(k) => handler_index(hs@, status) == Some(k as int) && k < hs@.len(),
            None => handler_index(hs@, status) is None,
        },
{
    let mut i: usize = 0;
    assert(hs@.skip(0) =~= hs@);
    while i < hs.len()
        invariant
            i <= hs@.len(),
            handler_index(hs@, status) == match handler_index(hs@.skip(i as int), status) {
                Some(k) => Some(k + i),
                None => None,
            },
        decreases hs@.len() - i,
    {
        assert(hs@.skip(i as int).skip(1) =~= hs@.skip(i + 1));
        if hs[i].status == status {
            return Some(i);
        }
        i += 1;
    }
    None
}

impl EndpointSpec {
    /// The parameter struct of a call: each declared parameter's name with
    /// its value, in declared order.
    pub fn parameter_struct(&self, values: Vec<ParamValue>) -> (r: Vec<Field>)
        requires
            values@.len() == self.parameters@.len(),
        ensures
            self.args_match(r@),
            forall|i: int| 0 <= i < r@.len() ==> #[trigger] r@[i].value == values@[i],
    {
        let ghost orig = values@;
        let mut rest = values;
        let mut done: Vec<Field> = Vec::new();
        while rest.len() > 0
            invariant
                orig.len() == self.parameters@.len(),
                done@.len() + rest@.len() == orig.len(),
                rest@ == orig.subrange(done@.len() as int, orig.len() as int),
                forall|i: int| 0 <= i < done@.len() ==> #[trigger] done@[i].name@ == self.parameters@[i].name@
                    && done@[i].value == orig[i],
            decreases rest@.len(),
        {
            let v = rest.remove(0);
            let i = done.len();
            done.push(Field { name: self.parameters[i].name.clone(), value: v });
            assert(rest@ =~= orig.subrange(done@.len() as int, orig.len() as int));
        }
        assert forall|i: int| 0 <= i < done@.len() implies #[trigger] done@[i].value == values@[i] by {
            assert(done@[i].name@ == self.parameters@[i].name@);
        }
        done
    }

    /// The request for a call with `args`; it always succeeds.
    pub fn plan<S: TokenBehavior>(&self, base_url: &str, token: &Token<S>, args: &Vec<Field>) -> (r:
        Result<RequestPlan, BaseError>)
        requires
            self.args_match(args@),
        ensures
            r matches Ok(p) ==> p.headers@.len() >= 1 && is_request_for(
                p,
                self.method,
                self.url_for(base_url@, args@),
                p.headers@[0].1@,
                self.parameter_kind,
                args@,
            ),
            r matches Ok(p) ==> (token matches Token::Origin(t) ==> p.headers@[0].1@
                == pair_cookie_text(t.0@, t.1@)),
            r is Ok,
    {
        let cookie = token.as_cookie();
        proof {
            if let Token::Origin(p) = token {
                lemma_pair_cookie_text(cookie, p.0@, p.1@);
            }
        }
        match self.parameter_kind {
            ParameterKind::Path => {
                let path = substitute_path(self.path.as_str(), args);
                request(self.method, base_url, path.as_str(), &cookie, self.parameter_kind, args)
            },
            _ => request(self.method, base_url, self.path.as_str(), &cookie, self.parameter_kind, args),
        }
    }
}

/// Whether `params` declares a parameter named `name`.
fn has_parameter(params: &Vec<Parameter>, name: &str) -> (r: bool)
    ensures
        r == parameter_names(params@).contains(name@),
{
    let mut j: usize = 0;
    while j < params.len()
        invariant
            j <= params@.len(),
            forall|k: int| 0 <= k < j ==> params@[k].name@ != name@,
        decreases params@.len() - j,
    {
        if same_text(params[j].name.as_str(), name) {
            assert(parameter_names(params@)[j as int] == name@);
            return true;
        }
        j += 1;
    }
    assert forall|k: int| 0 <= k < parameter_names(params@).len() implies parameter_names(
        params@,
    )[k] != name@ by {
        assert(parameter_names(params@)[k] == params@[k].name@);
    }
    false
}

/// Whether every placeholder of `t` names one of `params`.
fn placeholders_declared(t: &str, params: &Vec<Parameter>) -> (r: bool)
    ensures
        r == placeholders_known(t@, parameter_names(params@)),
{
    let names = Ghost(parameter_names(params@));
    let n = t.unicode_len();
    let mut i: usize = 0;
    assert(t@.skip(0) =~= t@);
    while i < n
        invariant
            n == t@.len(),
            i <= n,
            names@ == parameter_names(params@),
            placeholders_known(t@, names@) == placeholders_known(t@.skip(i as int), names@),
        decreases n - i,
    {
        let ghost rest = t@.skip(i as int);
        if t.get_char(i) == ':' {
            let len = name_len_at(t, i + 1);
            assert(rest.skip(1) =~= t@.skip(i + 1));
            let name = t.substring_char(i + 1, i + 1 + len);
            assert(name@ =~= rest.subrange(1, 1 + len as int));
            assert(rest.skip(1 + len as int) =~= t@.skip(i + 1 + len));
            if !has_parameter(params, name) {
                return false;
            }
            i = i + 1 + len;
        } else {
            assert(rest.skip(1) =~= t@.skip(i + 1));
            i += 1;
        }
    }
    true
}

/// The declared error case at `i`, as an endpoint error of `spec`.
pub open spec fn is_declared_error(spec: EndpointSpec, i: int, e: EndpointError) -> bool {
    &&& e.endpoint@ == spec.name@
    &&& e.variant@ == spec.error_variants@[i].name@
    &&& e.message@ == spec.error_variants@[i].message@
}

/// The result of a call whose response had `status` and `body`: a success
/// status gives the payload (nothing for a `()` response type, the body
/// untouched otherwise); a status with a handler gives that handler's error
/// case, the first handler in declared order winning; any other status gives
/// the base error for it.
pub open spec fn is_outcome(spec: EndpointSpec, status: u16, body: Vec<u8>, r: Result<
    Payload,
    Error,
>) -> bool {
    if status == spec.success_status {
        if is_unit_type(spec.response_type) {
            r == Ok::<Payload, Error>(Payload::Unit)
        } else {
            r == Ok::<Payload, Error>(Payload::Body(body))
        }
    } else {
        match handler_index(spec.status_handlers@, status) {
            Some(k) => r matches Err(Error::Endpoint(e)) && is_declared_error(
                spec,
                spec.status_handlers@[k].variant as int,
                e,
            ),
            None => r matches Err(Error::Base(b)) && status_error(status, body@, b),
        }
    }
}

impl EndpointSpec {
    /// Whether the description is well formed (see [`EndpointSpec::wf`]).
    pub fn validate(&self) -> (r: bool)
        ensures
            r == self.wf(),
    {
        let np = self.parameters.len();
        let mut i: usize = 0;
        while i < np
            invariant
                np == self.parameters@.len(),
                i <= np,
                forall|a: int, b: int|
                    0 <= a < b < np && a < i ==> #[trigger] self.parameters@[a].name@
                        != #[trigger] self.parameters@[b].name@,
            decreases np - i,
        {
            let mut j: usize = i + 1;
            while j < np
                invariant
                    np == self.parameters@.len(),
                    i < np,
                    i + 1 <= j <= np,
                    forall|a: int, b: int|
                        0 <= a < b < np && a < i ==> #[trigger] self.parameters@[a].name@
                            != #[trigger] self.parameters@[b].name@,
                    forall|b: int| i < b < j ==> self.parameters@[i as int].name@ != #[trigger] self.parameters@[b].name@,
                decreases np - j,
            {
                if same_text(self.parameters[i].name.as_str(), self.parameters[j].name.as_str()) {
                    return false;
                }
                j += 1;
            }
            i += 1;
        }
        let mut k: usize = 0;
        while k < self.status_handlers.len()
            invariant
                k <= self.status_handlers@.len(),
                forall|m: int| 0 <= m < k ==> #[trigger] self.status_handlers@[m].variant < self.error_variants@.len(),
            decreases self.status_handlers@.len() - k,
        {
            if self.status_handlers[k].variant >= self.error_variants.len() {
                return false;
            }
            k += 1;
        }
        match self.parameter_kind {
            ParameterKind::Path => placeholders_declared(self.path.as_str(), &self.parameters),
            _ => true,
        }
    }

    /// The result of a response with `status` and `body`.
    pub fn interpret(&self, status: u16, body: Vec<u8>) -> (r: Result<Payload, Error>)
        requires
            self.wf(),
        ensures
            is_outcome(*self, status, body, r),
    {
        if status == self.success_status {
            if is_unit_ty(&self.response_type) {
                Ok(Payload::Unit)
            } else {
                Ok(Payload::Body(body))
            }
        } else {
            match find_handler(&self.status_handlers, status) {
                Some(k) => {
                    let v = self.status_handlers[k].variant;
                    Err(
                        Error::Endpoint(
                            EndpointError {
                                endpoint: self.name.clone(),
                                variant: self.error_variants[v].name.clone(),
                                message: self.error_variants[v].message.clone(),
                            },
                        ),
                    )
                },
                None => Err(Error::Base(BaseError::from_status(status, body.as_slice()))),
            }
        }
    }

    /// Handles a response: the token carrier sees its `Set-Cookie` headers
    /// first, whatever the status, and then the status and body give the
    /// result.
    pub fn response<S: TokenBehavior>(&self, token: &Token<S>, resp: RawResponse) -> (r: Result<
        Payload,
        Error,
    >)
        requires
            self.wf(),
        ensures
            is_outcome(*self, resp.status, resp.body, r),
    {
        token.update(&resp.set_cookies);
        let RawResponse { status, set_cookies, body } = resp;
        self.interpret(status, body)
    }
}

/// A response with the success status, to an endpoint that returns a
/// value, gives the body exactly as it came.
pub proof fn lemma_success_keeps_body(
    spec: EndpointSpec,
    status: u16,
    body: Vec<u8>,
    r: Result<Payload, Error>,
)
    requires
        is_outcome(spec, status, body, r),
        status == spec.success_status,
        !is_unit_type(spec.response_type),
    ensures
        r == Ok::<Payload, Error>(Payload::Body(body)),
{
}

/// A response whose status has a handler (and is not the success status)
/// gives the error case of the first such handler; the body is not read as
/// a success value.
pub proof fn lemma_handled_status(
    spec: EndpointSpec,
    status: u16,
    body: Vec<u8>,
    r: Result<Payload, Error>,
    k: int,
)
    requires
        is_outcome(spec, status, body, r),
        status != spec.success_status,
        handler_index(spec.status_handlers@, status) == Some(k),
    ensures
        r matches Err(Error::Endpoint(e)) && is_declared_error(
            spec,
            spec.status_handlers@[k].variant as int,
            e,
        ),
{
}

/// A response whose status is neither the success status nor handled gives
/// the undefined-status error with that status and the body's text.
pub proof fn lemma_unmatched_status(
    spec: EndpointSpec,
    status: u16,
    body: Vec<u8>,
    r: Result<Payload, Error>,
)
    requires
        is_outcome(spec, status, body, r),
        status != spec.success_status,
        handler_index(spec.status_handlers@, status) is None,
    ensures
        r matches Err(Error::Base(BaseError::Undefined(c, t))) && c == status && t@ == utf8_lossy(
            body@,
        ),
{
}

/// `, p1.into(), p2.into(), ...` for the declared parameters.
pub open spec fn forward_args(ps: Seq<Parameter>) -> Seq<char>
    decreases ps.len(),
{
    if ps.len() == 0 {
        seq![]
    } else {
        forward_args(ps.drop_last()) + ", "@ + ps.last().name@ + ".into()"@
    }
}

/// The body of an endpoint's public function: it forwards every argument,
/// converted, to the endpoint's `execute`.
pub open spec fn forward_body(name: Seq<char>, ps: Seq<Parameter>) -> Seq<char> {
    "{ "@ + name + "::execute(base_url.into(), token.into()"@ + forward_args(ps) + ").await }"@
}

/// A path of one segment without arguments.
pub open spec fn is_plain_path(t: TypeExpr, ident: Seq<char>) -> bool {
    t matches TypeExpr::Path(p) && !p.leading_colon && p.segments@.len() == 1 && p.segments@[0].ident@
        == ident && p.segments@[0].arguments is Empty
}

/// `crate::api::<namespace>::error::Error`.
pub open spec fn is_namespace_error_path(t: TypeExpr, namespace: Seq<char>) -> bool {
    t matches TypeExpr::Path(p) && !p.leading_colon && p.segments@.len() == 5 && p.segments@[0].ident@
        == "crate"@ && p.segments@[1].ident@ == "api"@ && p.segments@[2].ident@ == namespace
        && p.segments@[3].ident@ == "error"@ && p.segments@[4].ident@ == "Error"@ && (forall|i: int|
        0 <= i < 5 ==> (#[trigger] p.segments@[i]).arguments is Empty)
}

fn plain_segment(ident: String) -> (r: PathSegment)
    ensures
        r.ident@ == ident@,
        r.arguments is Empty,
{
    PathSegment { ident, arguments: PathArguments::Empty }
}

fn plain_path(ident: &str) -> (r: TypeExpr)
    ensures
        is_plain_path(r, ident@),
{
    let mut segments: Vec<PathSegment> = Vec::new();
    segments.push(plain_segment(String::from_str(ident)));
    TypeExpr::Path(TypePath { leading_colon: false, segments })
}

fn typed_arg(pat: &str, ty: TypeExpr) -> (r: FnArg)
    ensures
        r matches FnArg::Typed(pt) && pt.pat@ == pat@ && pt.ty == ty,
{
    FnArg::Typed(PatType { pat: String::from_str(pat), ty })
}

fn forward_text(name: &String, ps: &Vec<Parameter>) -> (r: String)
    ensures
        r@ == forward_body(name@, ps@),
{
    let mut out = String::from_str("{ ");
    out.append(name.as_str());
    out.append("::execute(base_url.into(), token.into()");
    let ghost start = out@;
    let mut i: usize = 0;
    while i < ps.len()
        invariant
            i <= ps@.len(),
            out@ == start + forward_args(ps@.take(i as int)),
        decreases ps@.len() - i,
    {
        assert(ps@.take(i + 1).drop_last() =~= ps@.take(i as int));
        assert(ps@.take(i + 1).last() == ps@[i as int]);
        out.append(", ");
        out.append(ps[i].name.as_str());
        out.append(".into()");
        i += 1;
        assert(out@ =~= start + forward_args(ps@.take(i as int)));
    }
    assert(ps@.take(i as int) =~= ps@);
    out.append(").await }");
    assert(out@ =~= forward_body(name@, ps@));
    out
}

/// The public function of an endpoint:
/// `pub async fn <name>(base_url, token, <parameters>) -> Result<<response>, crate::api::<namespace>::error::Error>`,
/// awaiting `<name>::execute`, with its parameters generalised.
pub fn wrapper_fn(spec: EndpointSpec) -> (r: ItemFn)
    ensures
        r.sig.ident@ == spec.name@,
        r.sig.qualifiers@ == "pub async"@,
        r.sig.inputs@.len() == spec.parameters@.len() + 2,
        is_base_url_arg(r.sig.inputs@[0]),
        is_token_arg(r.sig.inputs@[1]),
        forall|i: int|
            0 <= i < spec.parameters@.len() ==> #[trigger] r.sig.inputs@[i + 2] == generalize_arg(
                FnArg::Typed(PatType { pat: spec.parameters@[i].name, ty: spec.parameters@[i].ty }),
            ),
        r.sig.output matches ReturnType::Type(t) && result_parts(t) matches Some((ok, err)) && ok
            == spec.response_type && is_namespace_error_path(err, spec.namespace@),
        r.block matches Block::Written(b) && b@ == forward_body(spec.name@, spec.parameters@),
        r.attrs@.len() == 0,
{
    let body = forward_text(&spec.name, &spec.parameters);
    let EndpointSpec { namespace, name, parameters, response_type, .. } = spec;
    let ghost params = parameters@;
    let mut inputs: Vec<FnArg> = Vec::new();
    proof {
        lemma_string_is_not_numeric();
    }
    inputs.push(typed_arg("base_url", plain_path("String")));
    inputs.push(typed_arg("token", token_type()));
    let mut rest = parameters;
    while rest.len() > 0
        invariant
            inputs@.len() >= 2,
            inputs@.len() - 2 + rest@.len() == params.len(),
            rest@ == params.subrange(inputs@.len() - 2, params.len() as int),
            is_base_url_arg(generalize_arg(inputs@[0])),
            is_token_arg(generalize_arg(inputs@[1])),
            forall|i: int|
                0 <= i < inputs@.len() - 2 ==> #[trigger] inputs@[i + 2] == FnArg::Typed(
                    PatType { pat: params[i].name, ty: params[i].ty },
                ),
        decreases rest@.len(),
    {
        let Parameter { name: pname, ty } = rest.remove(0);
        inputs.push(FnArg::Typed(PatType { pat: pname, ty }));
        assert(rest@ =~= params.subrange(inputs@.len() - 2, params.len() as int));
    }
    let mut error_path: Vec<PathSegment> = Vec::new();
    error_path.push(plain_segment(String::from_str("crate")));
    error_path.push(plain_segment(String::from_str("api")));
    error_path.push(plain_segment(namespace));
    error_path.push(plain_segment(String::from_str("error")));
    error_path.push(plain_segment(String::from_str("Error")));
    let error_ty = TypeExpr::Path(TypePath { leading_colon: false, segments: error_path });
    let ghost err = error_ty;
    let ghost ok = response_type;
    let mut args: Vec<GenericArgument> = Vec::new();
    args.push(GenericArgument::Type(response_type));
    args.push(GenericArgument::Type(error_ty));
    let ghost a = args@;
    proof {
        assert(a =~= seq![GenericArgument::Type(ok), GenericArgument::Type(err)]);
        assert(a.drop_last().drop_last() =~= Seq::<GenericArgument>::empty());
        assert(type_args(Seq::<GenericArgument>::empty()) =~= Seq::<TypeExpr>::empty());
        assert(a.drop_last().last() == GenericArgument::Type(ok));
        assert(a.last() == GenericArgument::Type(err));
        assert(type_args(a.drop_last()) =~= seq![ok]);
        assert(type_args(a) =~= seq![ok, err]);
    }
    let mut result_segments: Vec<PathSegment> = Vec::new();
    result_segments.push(
        PathSegment { ident: String::from_str("Result"), arguments: PathArguments::AngleBracketed(args) },
    );
    let result_ty = TypeExpr::Path(TypePath { leading_colon: false, segments: result_segments });
    assert(result_args(result_ty) == Some(a));
    assert(result_parts(result_ty) == Some((ok, err)));
    let output = ReturnType::Type(result_ty);
    let item = ItemFn {
        attrs: Vec::new(),
        sig: Signature { qualifiers: String::from_str("pub async"), ident: name, inputs, output },
        block: Block::Written(body),
    };
    let r = impl_into_args(item);
    proof {
        let g = item.sig.inputs@.map_values(|a: FnArg| generalize_arg(a));
        assert(r.sig.inputs@ == g);
        assert forall|i: int| 0 <= i < params.len() implies #[trigger] r.sig.inputs@[i + 2]
            == generalize_arg(FnArg::Typed(PatType { pat: params[i].name, ty: params[i].ty })) by {
            assert(g[i + 2] == generalize_arg(item.sig.inputs@[i + 2]));
        }
        assert(g[0] == generalize_arg(item.sig.inputs@[0]));
        assert(g[1] == generalize_arg(item.sig.inputs@[1]));
    }
    r
}

proof fn lemma_string_is_not_numeric()
    ensures
        !is_num_name("String"@),
{
    reveal_strlit("String");
    reveal_strlit("i8");
    reveal_strlit("i16");
    reveal_strlit("i32");
    reveal_strlit("i64");
    reveal_strlit("i128");
    reveal_strlit("isize");
    reveal_strlit("u8");
    reveal_strlit("u16");
    reveal_strlit("u32");
    reveal_strlit("u64");
    reveal_strlit("u128");
    reveal_strlit("usize");
    assert("String"@.len() == 6);
}

/// `Token<'_>`.
pub open spec fn is_token_type(t: TypeExpr) -> bool {
    match t {
        TypeExpr::Path(p) => !p.leading_colon && p.segments@.len() == 1 && p.segments@[0].ident@
            == "Token"@ && match p.segments@[0].arguments {
            PathArguments::AngleBracketed(a) => a@.len() == 1 && match a@[0] {
                GenericArgument::Other(l) => l@ == "'_"@,
                _ => false,
            },
            _ => false,
        },
        _ => false,
    }
}

/// `base_url: impl Into<String>`.
pub open spec fn is_base_url_arg(a: FnArg) -> bool {
    match a {
        FnArg::Typed(pt) => pt.pat@ == "base_url"@ && match pt.ty {
            TypeExpr::ImplInto(t) => is_plain_path(*t, "String"@),
            _ => false,
        },
        _ => false,
    }
}

/// `token: impl Into<Token<'_>>`.
pub open spec fn is_token_arg(a: FnArg) -> bool {
    match a {
        FnArg::Typed(pt) => pt.pat@ == "token"@ && match pt.ty {
            TypeExpr::ImplInto(t) => is_token_type(*t),
            _ => false,
        },
        _ => false,
    }
}

fn token_type() -> (r: TypeExpr)
    ensures
        is_token_type(r),
{
    let mut args: Vec<GenericArgument> = Vec::new();
    args.push(GenericArgument::Other(String::from_str("'_")));
    let mut segments: Vec<PathSegment> = Vec::new();
    segments.push(PathSegment { ident: String::from_str("Token"), arguments: PathArguments::AngleBracketed(args) });
    TypeExpr::Path(TypePath { leading_colon: false, segments })
}

impl From<BaseError> for Error {
    fn from(e: BaseError) -> (r: Error)
        ensures
            r == Error::Base(e),
    {
        Error::Base(e)
    }
}

impl vstd::std_specs::convert::FromSpecImpl<BaseError> for Error {
    open spec fn obeys_from_spec() -> bool {
        true
    }

    open spec fn from_spec(e: BaseError) -> Error {
        Error::Base(e)
    }
}

} // verus!
