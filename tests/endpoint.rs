use std::cell::RefCell;

use madome_sdk::cookie::{Cookie, TokenPair};
use madome_sdk::endpoint::{
    find_handler, request, wrapper_fn, EndpointSpec, Error, ErrorVariant, Method, Parameter, ParameterKind,
    Payload, RawResponse, StatusHandler,
};
use madome_sdk::error::BaseError;
use madome_sdk::query::{Field, ParamValue, Scalar};
use madome_sdk::syntax::{
    Block, FnArg, GenericArgument, PatType, PathArguments, PathSegment, ReturnType, TypeExpr, TypePath,
};
use madome_sdk::token::{observed_pair, refreshed_pair, stored_cookie, Token, TokenBehavior};

fn simple(name: &str) -> TypeExpr {
    TypeExpr::Path(TypePath {
        leading_colon: false,
        segments: vec![PathSegment { ident: name.to_string(), arguments: PathArguments::Empty }],
    })
}

fn vec_of(inner: TypeExpr) -> TypeExpr {
    TypeExpr::Path(TypePath {
        leading_colon: false,
        segments: vec![PathSegment {
            ident: "Vec".to_string(),
            arguments: PathArguments::AngleBracketed(vec![GenericArgument::Type(inner)]),
        }],
    })
}

fn param(name: &str, ty: TypeExpr) -> Parameter {
    Parameter { name: name.to_string(), ty }
}

fn variant(name: &str, message: &str) -> ErrorVariant {
    ErrorVariant { name: name.to_string(), message: message.to_string() }
}

fn get_books_by_ids(handlers: Vec<StatusHandler>, variants: Vec<ErrorVariant>) -> EndpointSpec {
    EndpointSpec {
        namespace: "library".to_string(),
        name: "get_books_by_ids".to_string(),
        method: Method::Get,
        path: "/books".to_string(),
        parameter_kind: ParameterKind::Querystring,
        parameters: vec![param("ids", vec_of(simple("u32")))],
        error_variants: variants,
        status_handlers: handlers,
        success_status: 200,
        response_type: vec_of(simple("Book")),
    }
}

fn create_user() -> EndpointSpec {
    EndpointSpec {
        namespace: "user".to_string(),
        name: "create_user".to_string(),
        method: Method::Post,
        path: "/users".to_string(),
        parameter_kind: ParameterKind::Json,
        parameters: vec![param("name", simple("String")), param("email", simple("String"))],
        error_variants: vec![],
        status_handlers: vec![],
        success_status: 201,
        response_type: TypeExpr::Tuple(vec![]),
    }
}

fn ids_args() -> Vec<Field> {
    vec![Field {
        name: "ids".to_string(),
        value: ParamValue::Many(vec![Scalar::UInt(1), Scalar::UInt(2), Scalar::UInt(3)]),
    }]
}

/// A store that records what it is handed.
#[derive(Default)]
struct Recorder {
    pair: RefCell<Option<TokenPair>>,
    calls: RefCell<usize>,
}

impl TokenBehavior for Recorder {
    fn update(&self, token_pair: (Option<String>, Option<String>)) {
        *self.calls.borrow_mut() += 1;
        let current = self.pair.borrow_mut().take();
        *self.pair.borrow_mut() = refreshed_pair(current, token_pair);
    }

    fn as_cookie(&self) -> Cookie {
        stored_cookie(&self.pair.borrow())
    }
}

fn origin() -> Token<'static, Recorder> {
    Token::Origin(("A".to_string(), "R".to_string()))
}

fn resp(status: u16, body: &str) -> RawResponse {
    RawResponse { status, set_cookies: vec![], body: body.as_bytes().to_vec() }
}

#[test]
fn querystring_endpoint_request() {
    let spec = get_books_by_ids(vec![], vec![]);
    assert!(spec.validate());
    let plan = spec.plan("https://api.madome.app", &origin(), &ids_args()).unwrap();
    assert_eq!(plan.method, Method::Get);
    assert_eq!(plan.url, "https://api.madome.app/books?ids[0]=1&ids[1]=2&ids[2]=3");
    assert_eq!(
        plan.headers,
        vec![("cookie".to_string(), "madome_access_token=A; madome_refresh_token=R".to_string())]
    );
    assert_eq!(plan.body, None);
}

#[test]
fn querystring_endpoint_success_returns_body() {
    let spec = get_books_by_ids(vec![], vec![]);
    let body = r#"[{"id":1,"title":"title","tags":[],"kind":"manga","language":"korean","page":3}]"#;
    let r = spec.response(&origin(), resp(200, body));
    match r {
        Ok(Payload::Body(b)) => {
            assert_eq!(b, body.as_bytes().to_vec());
            let v: serde_json::Value = serde_json::from_slice(&b).unwrap();
            assert_eq!(v[0]["id"], 1);
        }
        other => panic!("unexpected {other:?}"),
    }
}

#[test]
fn handled_status_gives_endpoint_error() {
    let spec = get_books_by_ids(
        vec![StatusHandler { status: 404, variant: 0 }],
        vec![variant("NotFoundBook", "Not found book")],
    );
    assert!(spec.validate());
    let r = spec.response(&origin(), resp(404, "not json at all"));
    match r {
        Err(Error::Endpoint(e)) => {
            assert_eq!(e.endpoint, "get_books_by_ids");
            assert_eq!(e.variant, "NotFoundBook");
            assert_eq!(e.message, "Not found book");
        }
        other => panic!("unexpected {other:?}"),
    }
}

#[test]
fn first_declared_handler_wins() {
    let spec = get_books_by_ids(
        vec![StatusHandler { status: 409, variant: 1 }, StatusHandler { status: 409, variant: 0 }],
        vec![variant("Conflict", "Conflict"), variant("AlreadyExistsLike", "Already Exists Like")],
    );
    match spec.interpret(409, vec![]) {
        Err(Error::Endpoint(e)) => assert_eq!(e.variant, "AlreadyExistsLike"),
        other => panic!("unexpected {other:?}"),
    }
    assert_eq!(find_handler(&spec.status_handlers, 409), Some(0));
    assert_eq!(find_handler(&spec.status_handlers, 404), None);
}

#[test]
fn json_endpoint_request_and_unexpected_status() {
    let spec = create_user();
    assert!(spec.validate());
    let args = vec![
        Field { name: "name".to_string(), value: ParamValue::One(Scalar::Text("madome".to_string())) },
        Field { name: "email".to_string(), value: ParamValue::One(Scalar::Text("user@madome.app".to_string())) },
    ];
    let plan = spec.plan("http://localhost", &origin(), &args).unwrap();
    assert_eq!(plan.method, Method::Post);
    assert_eq!(plan.url, "http://localhost/users");
    assert_eq!(plan.headers[1], ("content-type".to_string(), "application/json".to_string()));
    assert_eq!(plan.body, Some(br#"{"name":"madome","email":"user@madome.app"}"#.to_vec()));
    let r = spec.response(&origin(), resp(418, "I'm a teapot"));
    assert_eq!(r, Err(Error::Base(BaseError::Undefined(418, "I'm a teapot".to_string()))));
}

#[test]
fn unit_success_and_base_statuses() {
    let spec = create_user();
    assert_eq!(spec.interpret(201, b"ignored".to_vec()), Ok(Payload::Unit));
    assert_eq!(
        spec.interpret(400, b"bad email".to_vec()),
        Err(Error::Base(BaseError::Undefined(400, "bad email".to_string())))
    );
    assert_eq!(spec.interpret(401, vec![]), Err(Error::Base(BaseError::Undefined(401, String::new()))));
    assert_eq!(spec.interpret(403, b"no".to_vec()), Err(Error::Base(BaseError::Undefined(403, "no".to_string()))));
    assert_eq!(
        spec.interpret(500, vec![0xff, b'x']),
        Err(Error::Base(BaseError::Undefined(500, "\u{fffd}x".to_string())))
    );
    assert_eq!(BaseError::from_status(404, b"gone"), BaseError::Undefined(404, "gone".to_string()));
}

#[test]
fn path_endpoint_request() {
    let spec = EndpointSpec {
        namespace: "library".to_string(),
        name: "get_book_by_id".to_string(),
        method: Method::Get,
        path: "/books/:book_id".to_string(),
        parameter_kind: ParameterKind::Path,
        parameters: vec![param("book_id", simple("u32"))],
        error_variants: vec![variant("NotFoundBook", "Not found book")],
        status_handlers: vec![StatusHandler { status: 404, variant: 0 }],
        success_status: 200,
        response_type: simple("Book"),
    };
    assert!(spec.validate());
    let args = vec![Field { name: "book_id".to_string(), value: ParamValue::One(Scalar::UInt(42)) }];
    let plan = spec.plan("https://api.madome.app", &origin(), &args).unwrap();
    assert_eq!(plan.url, "https://api.madome.app/books/42");
    assert_eq!(plan.headers.len(), 1);
    assert_eq!(plan.body, None);
}

#[test]
fn validation_rejects_malformed_descriptions() {
    let mut dup = create_user();
    dup.parameters = vec![param("name", simple("String")), param("name", simple("String"))];
    assert!(!dup.validate());
    let bad_handler = get_books_by_ids(vec![StatusHandler { status: 404, variant: 0 }], vec![]);
    assert!(!bad_handler.validate());
    let mut missing = create_user();
    missing.parameter_kind = ParameterKind::Path;
    missing.path = "/users/:user_id".to_string();
    assert!(!missing.validate());
}

#[test]
fn request_builder_without_parameters() {
    let cookie = Cookie::from_pair("a", "");
    let plan = request(Method::Patch, "http://h", "/auth/token", &cookie, ParameterKind::Nothing, &vec![]).unwrap();
    assert_eq!(plan.url, "http://h/auth/token");
    assert_eq!(plan.method, Method::Patch);
    assert_eq!(plan.headers, vec![("cookie".to_string(), "madome_access_token=a; madome_refresh_token=".to_string())]);
    assert_eq!(plan.body, None);
}

#[test]
fn store_observes_every_response_once() {
    let store = Recorder::default();
    *store.pair.borrow_mut() = Some(("a0".to_string(), "r0".to_string()));
    let token = Token::Store(&store);
    let spec = get_books_by_ids(vec![], vec![]);
    let plan = spec.plan("http://h", &token, &ids_args()).unwrap();
    assert_eq!(plan.headers[0].1, "madome_access_token=a0; madome_refresh_token=r0");
    let refreshed = RawResponse {
        status: 401,
        set_cookies: vec![
            "madome_access_token=a1; Path=/".to_string(),
            "madome_refresh_token=r1; HttpOnly".to_string(),
        ],
        body: vec![],
    };
    assert_eq!(spec.response(&token, refreshed), Err(Error::Base(BaseError::Undefined(401, String::new()))));
    assert_eq!(*store.calls.borrow(), 1);
    assert_eq!(*store.pair.borrow(), Some(("a1".to_string(), "r1".to_string())));
    let partial = RawResponse {
        status: 200,
        set_cookies: vec!["madome_access_token=a2".to_string()],
        body: b"[]".to_vec(),
    };
    assert_eq!(spec.response(&token, partial), Ok(Payload::Body(b"[]".to_vec())));
    assert_eq!(*store.calls.borrow(), 2);
    assert_eq!(*store.pair.borrow(), Some(("a1".to_string(), "r1".to_string())));
}

#[test]
fn literal_pair_ignores_set_cookie() {
    let token = origin();
    token.update(&vec!["madome_access_token=zzz".to_string()]);
    assert_eq!(token.as_cookie(), Cookie::from_pair("A", "R"));
    assert_eq!(
        observed_pair(&vec!["madome_refresh_token=r".to_string()]),
        (None, Some("r".to_string()))
    );
    assert_eq!(stored_cookie(&None), Cookie::from_pair("", ""));
}

#[test]
fn parameter_struct_pairs_names_with_values() {
    let spec = create_user();
    let fields = spec.parameter_struct(vec![
        ParamValue::One(Scalar::Text("madome".to_string())),
        ParamValue::Absent,
    ]);
    assert_eq!(
        fields,
        vec![
            Field { name: "name".to_string(), value: ParamValue::One(Scalar::Text("madome".to_string())) },
            Field { name: "email".to_string(), value: ParamValue::Absent },
        ]
    );
}

fn into(t: TypeExpr) -> TypeExpr {
    TypeExpr::ImplInto(Box::new(t))
}

fn arg(pat: &str, ty: TypeExpr) -> FnArg {
    FnArg::Typed(PatType { pat: pat.to_string(), ty })
}

#[test]
fn public_function_of_an_endpoint() {
    let spec = EndpointSpec {
        namespace: "library".to_string(),
        name: "get_books_by_tags".to_string(),
        method: Method::Get,
        path: "/books".to_string(),
        parameter_kind: ParameterKind::Querystring,
        parameters: vec![
            param("tags", vec_of(TypeExpr::Tuple(vec![simple("String"), simple("String")]))),
            param("per_page", simple("usize")),
            param("sort_by", TypeExpr::Path(TypePath {
                leading_colon: false,
                segments: vec![PathSegment {
                    ident: "Option".to_string(),
                    arguments: PathArguments::AngleBracketed(vec![GenericArgument::Type(simple("BookSortBy"))]),
                }],
            })),
        ],
        error_variants: vec![],
        status_handlers: vec![],
        success_status: 200,
        response_type: vec_of(simple("Book")),
    };
    let f = wrapper_fn(spec);
    assert_eq!(f.sig.ident, "get_books_by_tags");
    assert_eq!(f.sig.qualifiers, "pub async");
    let token = TypeExpr::Path(TypePath {
        leading_colon: false,
        segments: vec![PathSegment {
            ident: "Token".to_string(),
            arguments: PathArguments::AngleBracketed(vec![GenericArgument::Other("'_".to_string())]),
        }],
    });
    assert_eq!(
        f.sig.inputs,
        vec![
            arg("base_url", into(simple("String"))),
            arg("token", into(token)),
            arg("tags", into(vec_of(TypeExpr::Tuple(vec![simple("String"), simple("String")])))),
            arg("per_page", simple("usize")),
            arg("sort_by", into(TypeExpr::Path(TypePath {
                leading_colon: false,
                segments: vec![PathSegment {
                    ident: "Option".to_string(),
                    arguments: PathArguments::AngleBracketed(vec![GenericArgument::Type(simple("BookSortBy"))]),
                }],
            }))),
        ]
    );
    let error = TypeExpr::Path(TypePath {
        leading_colon: false,
        segments: ["crate", "api", "library", "error", "Error"]
            .iter()
            .map(|s| PathSegment { ident: s.to_string(), arguments: PathArguments::Empty })
            .collect(),
    });
    assert_eq!(
        f.sig.output,
        ReturnType::Type(TypeExpr::Path(TypePath {
            leading_colon: false,
            segments: vec![PathSegment {
                ident: "Result".to_string(),
                arguments: PathArguments::AngleBracketed(vec![
                    GenericArgument::Type(vec_of(simple("Book"))),
                    GenericArgument::Type(error),
                ]),
            }],
        }))
    );
    assert_eq!(
        f.block,
        Block::Written(
            "{ get_books_by_tags::execute(base_url.into(), token.into(), tags.into(), per_page.into(), sort_by.into()).await }"
                .to_string()
        )
    );
}

#[test]
fn conversions_into_error_and_token() {
    let e: Error = BaseError::Unauthorized.into();
    assert_eq!(e, Error::Base(BaseError::Unauthorized));
    let t: Token<Recorder> = ("a".to_string(), "b".to_string()).into();
    assert_eq!(t.as_cookie(), Cookie::from_pair("a", "b"));
}
