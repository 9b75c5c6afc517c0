use madome_sdk::syntax::{
    impl_into_args, is_impl_into, is_num, is_num_ty, is_result_unit_ty, is_unit_ty, ok_expr_path,
    ret_ty_or_unit, return_is_well_formed, unwrap_result, Block, Expr, FnArg, GenericArgument, ItemFn, PatType,
    PathArguments, PathSegment, ReturnType, Signature, TypeExpr, TypeParamBound, TypePath,
};

fn path_ty(segments: &[(&str, Vec<TypeExpr>)]) -> TypeExpr {
    TypeExpr::Path(TypePath {
        leading_colon: false,
        segments: segments
            .iter()
            .map(|(ident, args)| PathSegment {
                ident: ident.to_string(),
                arguments: if args.is_empty() {
                    PathArguments::Empty
                } else {
                    PathArguments::AngleBracketed(
                        args.iter().cloned_types().into_iter().map(GenericArgument::Type).collect(),
                    )
                },
            })
            .collect(),
    })
}

trait ClonedTypes {
    fn cloned_types(self) -> Vec<TypeExpr>;
}

impl<'a, I: Iterator<Item = &'a TypeExpr>> ClonedTypes for I {
    fn cloned_types(self) -> Vec<TypeExpr> {
        self.map(clone_ty).collect()
    }
}

fn clone_ty(t: &TypeExpr) -> TypeExpr {
    match t {
        TypeExpr::Path(p) => TypeExpr::Path(TypePath {
            leading_colon: p.leading_colon,
            segments: p
                .segments
                .iter()
                .map(|s| PathSegment {
                    ident: s.ident.clone(),
                    arguments: match &s.arguments {
                        PathArguments::Empty => PathArguments::Empty,
                        PathArguments::Parenthesized(x) => PathArguments::Parenthesized(x.clone()),
                        PathArguments::AngleBracketed(a) => PathArguments::AngleBracketed(
                            a.iter()
                                .map(|g| match g {
                                    GenericArgument::Type(t) => GenericArgument::Type(clone_ty(t)),
                                    GenericArgument::Other(o) => GenericArgument::Other(o.clone()),
                                })
                                .collect(),
                        ),
                    },
                })
                .collect(),
        }),
        TypeExpr::Tuple(v) => TypeExpr::Tuple(v.iter().map(clone_ty).collect()),
        TypeExpr::ImplInto(b) => TypeExpr::ImplInto(Box::new(clone_ty(b))),
        TypeExpr::ImplTrait(_) => panic!("not used in these tests"),
        TypeExpr::Verbatim(s) => TypeExpr::Verbatim(s.clone()),
    }
}

fn simple(name: &str) -> TypeExpr {
    path_ty(&[(name, vec![])])
}

fn unit() -> TypeExpr {
    TypeExpr::Tuple(vec![])
}

fn typed(pat: &str, ty: TypeExpr) -> FnArg {
    FnArg::Typed(PatType { pat: pat.to_string(), ty })
}

fn item(inputs: Vec<FnArg>, output: ReturnType) -> ItemFn {
    ItemFn {
        attrs: vec![],
        sig: Signature {
            qualifiers: "pub async".to_string(),
            ident: "get_books".to_string(),
            inputs,
            output,
        },
        block: Block::Written("{ do_something() }".to_string()),
    }
}

fn written() -> Block {
    Block::Written("{ do_something() }".to_string())
}

#[test]
fn is_num_accepts_primitive_integer_names() {
    for n in ["i8", "i16", "i32", "i64", "i128", "isize", "u8", "u16", "u32", "u64", "u128", "usize"] {
        assert!(is_num(n), "{n}");
    }
    assert!(!is_num("f64"));
    assert!(!is_num("String"));
    assert!(!is_num("U32"));
    assert!(!is_num("u32 "));
    assert!(!is_num(""));
}

#[test]
fn integer_alias_is_not_numeric() {
    assert!(!is_num_ty(&simple("BookId")));
    assert!(is_num_ty(&simple("u32")));
    assert!(!is_num_ty(&path_ty(&[("std", vec![]), ("primitive", vec![]), ("u32", vec![])])));
    assert!(!is_num_ty(&path_ty(&[("Vec", vec![simple("u32")])])));
}

#[test]
fn impl_into_detection() {
    assert!(is_impl_into(&TypeExpr::ImplInto(Box::new(simple("String")))));
    let bound = TypeParamBound::Trait(TypePath {
        leading_colon: false,
        segments: vec![
            PathSegment { ident: "std".to_string(), arguments: PathArguments::Empty },
            PathSegment { ident: "convert".to_string(), arguments: PathArguments::Empty },
            PathSegment {
                ident: "Into".to_string(),
                arguments: PathArguments::AngleBracketed(vec![GenericArgument::Type(simple("String"))]),
            },
        ],
    });
    assert!(is_impl_into(&TypeExpr::ImplTrait(vec![TypeParamBound::Lifetime("'a".to_string()), bound])));
    let send = TypeParamBound::Trait(TypePath {
        leading_colon: false,
        segments: vec![PathSegment { ident: "Send".to_string(), arguments: PathArguments::Empty }],
    });
    assert!(!is_impl_into(&TypeExpr::ImplTrait(vec![send])));
    assert!(!is_impl_into(&simple("String")));
}

#[test]
fn generalizer_rewrites_non_numeric_parameters() {
    let f = item(
        vec![
            FnArg::Receiver("self".to_string()),
            typed("book_id", simple("u32")),
            typed("file_name", simple("String")),
            typed("ids", path_ty(&[("Vec", vec![simple("u32")])])),
            typed("base_url", TypeExpr::ImplInto(Box::new(simple("String")))),
        ],
        ReturnType::Default,
    );
    let g = impl_into_args(f);
    assert_eq!(g.sig.ident, "get_books");
    assert_eq!(g.sig.qualifiers, "pub async");
    assert_eq!(g.block, written());
    assert_eq!(g.sig.output, ReturnType::Default);
    assert_eq!(
        g.sig.inputs,
        vec![
            FnArg::Receiver("self".to_string()),
            typed("book_id", simple("u32")),
            typed("file_name", TypeExpr::ImplInto(Box::new(simple("String")))),
            typed("ids", TypeExpr::ImplInto(Box::new(path_ty(&[("Vec", vec![simple("u32")])])))),
            typed("base_url", TypeExpr::ImplInto(Box::new(simple("String")))),
        ]
    );
}

#[test]
fn generalizer_is_idempotent() {
    let f = item(
        vec![typed("name", simple("String")), typed("page", simple("usize")), typed("id", simple("BookId"))],
        ReturnType::Default,
    );
    let once = impl_into_args(f);
    let expected = once.sig.inputs.iter().map(|a| match a {
        FnArg::Typed(p) => typed(&p.pat, clone_ty(&p.ty)),
        FnArg::Receiver(s) => FnArg::Receiver(s.clone()),
    }).collect::<Vec<_>>();
    let twice = impl_into_args(once);
    assert_eq!(twice.sig.inputs, expected);
    assert_eq!(
        expected[0],
        typed("name", TypeExpr::ImplInto(Box::new(simple("String"))))
    );
    assert_eq!(expected[2], typed("id", TypeExpr::ImplInto(Box::new(simple("BookId")))));
}

#[test]
fn unit_and_result_detection() {
    assert!(is_unit_ty(&unit()));
    assert!(!is_unit_ty(&TypeExpr::Tuple(vec![unit()])));
    let r = path_ty(&[("Result", vec![unit(), simple("Error")])]);
    assert!(is_result_unit_ty(&r));
    let (ok, err) = unwrap_result(&r).unwrap();
    assert_eq!(*ok, unit());
    assert_eq!(*err, simple("Error"));
    assert!(!is_result_unit_ty(&path_ty(&[("Result", vec![simple("u32"), simple("Error")])])));
    assert!(unwrap_result(&simple("Result")).is_none());
    assert!(unwrap_result(&path_ty(&[("std", vec![]), ("result", vec![]), ("Result", vec![unit(), simple("E")])])).is_none());
    let with_lifetime = TypeExpr::Path(TypePath {
        leading_colon: false,
        segments: vec![PathSegment {
            ident: "Result".to_string(),
            arguments: PathArguments::AngleBracketed(vec![
                GenericArgument::Other("'a".to_string()),
                GenericArgument::Type(unit()),
                GenericArgument::Type(simple("E")),
            ]),
        }],
    });
    assert!(is_result_unit_ty(&with_lifetime));
}

#[test]
fn return_normalizer_empty_return() {
    let f = ret_ty_or_unit(item(vec![], ReturnType::Default));
    assert_eq!(f.block, Block::Empty);
    let g = ret_ty_or_unit(item(vec![], ReturnType::Type(unit())));
    assert_eq!(g.block, Block::Empty);
    assert_eq!(g.sig.output, ReturnType::Type(unit()));
}

#[test]
fn return_normalizer_result_of_unit() {
    let out = ReturnType::Type(path_ty(&[("Result", vec![unit(), simple("BaseError")])]));
    let f = ret_ty_or_unit(item(vec![], out));
    assert_eq!(
        f.block,
        Block::Tail(Expr::Call(Box::new(Expr::Path("Ok".to_string())), Box::new(Expr::Unit)))
    );
    assert_eq!(ok_expr_path(), Expr::Path("Ok".to_string()));
}

#[test]
fn return_normalizer_keeps_other_bodies() {
    let renamed = ReturnType::Type(path_ty(&[("ApiResult", vec![unit(), simple("BaseError")])]));
    assert_eq!(ret_ty_or_unit(item(vec![], renamed)).block, written());
    let value = ReturnType::Type(path_ty(&[("Result", vec![simple("u32"), simple("BaseError")])]));
    assert_eq!(ret_ty_or_unit(item(vec![], value)).block, written());
    let plain = ReturnType::Type(simple("Bytes"));
    assert_eq!(ret_ty_or_unit(item(vec![], plain)).block, written());
}

#[test]
fn result_with_one_type_argument_is_not_normalizable() {
    assert!(return_is_well_formed(&ReturnType::Default));
    assert!(return_is_well_formed(&ReturnType::Type(path_ty(&[("Result", vec![unit(), simple("E")])]))));
    assert!(!return_is_well_formed(&ReturnType::Type(path_ty(&[("Result", vec![unit()])]))));
    assert!(return_is_well_formed(&ReturnType::Type(path_ty(&[("Outcome", vec![unit()])]))));
}
