//! The signature normaliser applied to generated endpoint functions.
//!
//! A function item is modelled with just the structure that the two
//! transforms read: parameter types and the declared return type. Everything
//! else is carried along as token text.
use vstd::prelude::*;

use crate::text::same_text;

verus! {

/// A generic argument inside `<...>`.
#[derive(Debug, PartialEq, Eq)]
pub enum GenericArgument {
    Type(TypeExpr),
    /// A lifetime, const or binding argument, as token text.
    Other(String),
}

/// The arguments that follow one segment of a path.
#[derive(Debug, PartialEq, Eq)]
pub enum PathArguments {
    /// No arguments, as in `String`.
    Empty,
    /// `<A, B, ...>`.
    AngleBracketed(Vec<GenericArgument>),
    /// `(A, B) -> C`, as token text.
    Parenthesized(String),
}

#[derive(Debug, PartialEq, Eq)]
pub struct PathSegment {
    pub ident: String,
    pub arguments: PathArguments,
}

/// A path such as `std::vec::Vec<u8>`.
#[derive(Debug, PartialEq, Eq)]
pub struct TypePath {
    pub leading_colon: bool,
    pub segments: Vec<PathSegment>,
}

/// One bound of an `impl Trait` type.
#[derive(Debug, PartialEq, Eq)]
pub enum TypeParamBound {
    Trait(TypePath),
    Lifetime(String),
}

/// A type as written in a signature.
#[derive(Debug, PartialEq, Eq)]
pub enum TypeExpr {
    Path(TypePath),
    /// `(A, B, ...)`; the unit type `()` has no elements.
    Tuple(Vec<TypeExpr>),
    /// `impl Into<T>`.
    ImplInto(Box<TypeExpr>),
    /// Any other `impl B1 + B2 + ...`.
    ImplTrait(Vec<TypeParamBound>),
    /// Any other type, as token text.
    Verbatim(String),
}

/// A typed parameter `pat: ty`.
#[derive(Debug, PartialEq, Eq)]
pub struct PatType {
    pub pat: String,
    pub ty: TypeExpr,
}

#[derive(Debug, PartialEq, Eq)]
pub enum FnArg {
    /// `self`, `&self`, `&mut self`, as token text.
    Receiver(String),
    Typed(PatType),
}

#[derive(Debug, PartialEq, Eq)]
pub enum ReturnType {
    /// No `-> T` written.
    Default,
    Type(TypeExpr),
}

#[derive(Debug, PartialEq, Eq)]
pub struct Signature {
    /// `pub`, `async`, and the like, as token text.
    pub qualifiers: String,
    pub ident: String,
    pub inputs: Vec<FnArg>,
    pub output: ReturnType,
}

/// An expression of a generated body.
#[derive(Debug, PartialEq, Eq)]
pub enum Expr {
    /// A path of one identifier.
    Path(String),
    /// `()`.
    Unit,
    /// `f(arg)`.
    Call(Box<Expr>, Box<Expr>),
}

/// A function body.
#[derive(Debug, PartialEq, Eq)]
pub enum Block {
    /// `{}`.
    Empty,
    /// A body made of a single expression.
    Tail(Expr),
    /// The body as its author wrote it, as token text.
    Written(String),
}

#[derive(Debug, PartialEq, Eq)]
pub struct ItemFn {
    /// Outer attributes, as token text.
    pub attrs: Vec<String>,
    pub sig: Signature,
    pub block: Block,
}

/// The names of the primitive integer types.
pub open spec fn is_num_name(s: Seq<char>) -> bool {
    ||| s == "i8"@
    ||| s == "i16"@
    ||| s == "i32"@
    ||| s == "i64"@
    ||| s == "i128"@
    ||| s == "isize"@
    ||| s == "u8"@
    ||| s == "u16"@
    ||| s == "u32"@
    ||| s == "u64"@
    ||| s == "u128"@
    ||| s == "usize"@
}

/// A type written as a bare primitive integer name.
pub open spec fn is_num_type(ty: TypeExpr) -> bool {
    match ty {
        TypeExpr::Path(p) => {
            &&& !p.leading_colon
            &&& p.segments@.len() == 1
            &&& p.segments@[0].arguments is Empty
            &&& is_num_name(p.segments@[0].ident@)
        },
        _ => false,
    }
}

/// A path one of whose segments is named `Into`.
pub open spec fn path_mentions_into(p: TypePath) -> bool {
    exists|j: int| 0 <= j < p.segments@.len() && (#[trigger] p.segments@[j]).ident@ == "Into"@
}

/// A trait bound one of whose path segments is named `Into`.
pub open spec fn bound_mentions_into(b: TypeParamBound) -> bool {
    match b {
        TypeParamBound::Trait(p) => path_mentions_into(p),
        TypeParamBound::Lifetime(_) => false,
    }
}

/// Whether one of `bounds` mentions `Into`.
pub open spec fn some_bound_mentions_into(bounds: Seq<TypeParamBound>) -> bool {
    exists|i: int| 0 <= i < bounds.len() && #[trigger] bound_mentions_into(bounds[i])
}

/// A type that already accepts anything convertible into some type.
pub open spec fn is_into_type(ty: TypeExpr) -> bool {
    match ty {
        TypeExpr::ImplInto(_) => true,
        TypeExpr::ImplTrait(bounds) => some_bound_mentions_into(bounds@),
        _ => false,
    }
}

/// What the argument generaliser makes of one parameter.
pub open spec fn generalize_arg(a: FnArg) -> FnArg {
    match a {
        FnArg::Typed(pt) => if is_num_type(pt.ty) || is_into_type(pt.ty) {
            a
        } else {
            FnArg::Typed(PatType { pat: pt.pat, ty: TypeExpr::ImplInto(Box::new(pt.ty)) })
        },
        FnArg::Receiver(_) => a,
    }
}

/// Whether `ty_str` names a primitive integer type.
pub fn is_num(ty_str: &str) -> (r: bool)
    ensures
        r == is_num_name(ty_str@),
{
    same_text(ty_str, "i8") || same_text(ty_str, "i16") || same_text(ty_str, "i32")
        || same_text(ty_str, "i64") || same_text(ty_str, "i128") || same_text(ty_str, "isize")
        || same_text(ty_str, "u8") || same_text(ty_str, "u16") || same_text(ty_str, "u32")
        || same_text(ty_str, "u64") || same_text(ty_str, "u128") || same_text(ty_str, "usize")
}

/// Whether `ty` is written as a bare primitive integer name.
pub fn is_num_ty(ty: &TypeExpr) -> (r: bool)
    ensures
        r == is_num_type(*ty),
{
    match ty {
        TypeExpr::Path(p) => {
            if p.leading_colon || p.segments.len() != 1 {
                false
            } else {
                match &p.segments[0].arguments {
                    PathArguments::Empty => is_num(p.segments[0].ident.as_str()),
                    _ => false,
                }
            }
        },
        _ => false,
    }
}

fn path_is_into(p: &TypePath) -> (r: bool)
    ensures
        r == path_mentions_into(*p),
{
    let mut j: usize = 0;
    while j < p.segments.len()
        invariant
            j <= p.segments@.len(),
            forall|k: int| 0 <= k < j ==> p.segments@[k].ident@ != "Into"@,
        decreases p.segments@.len() - j,
    {
        if same_text(p.segments[j].ident.as_str(), "Into") {
            assert(p.segments@[j as int].ident@ == "Into"@);
            return true;
        }
        j += 1;
    }
    false
}

fn bound_is_into(b: &TypeParamBound) -> (r: bool)
    ensures
        r == bound_mentions_into(*b),
{
    match b {
        TypeParamBound::Trait(p) => path_is_into(p),
        TypeParamBound::Lifetime(_) => false,
    }
}

/// Whether `ty` already accepts anything convertible into some type.
pub fn is_impl_into(ty: &TypeExpr) -> (r: bool)
    ensures
        r == is_into_type(*ty),
{
    match ty {
        TypeExpr::ImplInto(_) => true,
        TypeExpr::ImplTrait(bounds) => bounds_are_into(bounds),
        _ => false,
    }
}

fn bounds_are_into(bounds: &Vec<TypeParamBound>) -> (r: bool)
    ensures
        r == some_bound_mentions_into(bounds@),
{
    let mut i: usize = 0;
    while i < bounds.len()
        invariant
            i <= bounds@.len(),
            forall|k: int| 0 <= k < i ==> !bound_mentions_into(#[trigger] bounds@[k]),
        decreases bounds@.len() - i,
    {
        if bound_is_into(&bounds[i]) {
            assert(bound_mentions_into(bounds@[i as int]));
            return true;
        }
        i += 1;
    }
    false
}

/// `impl Into<ty>`.
pub fn impl_into_ty(ty: TypeExpr) -> (r: TypeExpr)
    ensures
        r == TypeExpr::ImplInto(Box::new(ty)),
{
    TypeExpr::ImplInto(Box::new(ty))
}

/// Generalises one parameter.
pub fn impl_into_arg(a: FnArg) -> (r: FnArg)
    ensures
        r == generalize_arg(a),
{
    match a {
        FnArg::Typed(pt) => {
            if is_num_ty(&pt.ty) || is_impl_into(&pt.ty) {
                FnArg::Typed(pt)
            } else {
                let PatType { pat, ty } = pt;
                FnArg::Typed(PatType { pat, ty: impl_into_ty(ty) })
            }
        },
        FnArg::Receiver(s) => FnArg::Receiver(s),
    }
}

/// The argument generaliser: every parameter that is neither a primitive
/// integer nor already `impl Into<_>` is made to accept anything convertible
/// into its type. Nothing else of the function changes.
pub fn impl_into_args(item: ItemFn) -> (r: ItemFn)
    ensures
        r.attrs == item.attrs,
        r.block == item.block,
        r.sig.qualifiers == item.sig.qualifiers,
        r.sig.ident == item.sig.ident,
        r.sig.output == item.sig.output,
        r.sig.inputs@ == item.sig.inputs@.map_values(|a: FnArg| generalize_arg(a)),
{
    let ItemFn { attrs, sig, block } = item;
    let Signature { qualifiers, ident, inputs, output } = sig;
    let ghost orig = inputs@;
    let mut rest = inputs;
    let mut done: Vec<FnArg> = Vec::new();
    while rest.len() > 0
        invariant
            done@.len() + rest@.len() == orig.len(),
            rest@ == orig.subrange(done@.len() as int, orig.len() as int),
            done@ == orig.subrange(0, done@.len() as int).map_values(|a: FnArg| generalize_arg(a)),
        decreases rest@.len(),
    {
        let a = rest.remove(0);
        let ghost n: int = done@.len() as int;
        done.push(impl_into_arg(a));
        assert(orig.subrange(0, n + 1) =~= orig.subrange(0, n).push(orig[n]));
        assert(done@ =~= orig.subrange(0, done@.len() as int).map_values(|a: FnArg| generalize_arg(a)));
        assert(rest@ =~= orig.subrange(done@.len() as int, orig.len() as int));
    }
    assert(orig.subrange(0, orig.len() as int) =~= orig);
    ItemFn { attrs, sig: Signature { qualifiers, ident, inputs: done, output }, block }
}


/// The unit type `()`.
pub open spec fn is_unit_type(ty: TypeExpr) -> bool {
    match ty {
        TypeExpr::Tuple(elems) => elems@.len() == 0,
        _ => false,
    }
}

/// The type arguments among `args`, in order.
pub open spec fn type_args(args: Seq<GenericArgument>) -> Seq<TypeExpr>
    decreases args.len(),
{
    if args.len() == 0 {
        seq![]
    } else {
        let rest = type_args(args.drop_last());
        match args.last() {
            GenericArgument::Type(t) => rest.push(t),
            GenericArgument::Other(_) => rest,
        }
    }
}

/// The arguments of a path type whose first segment is literally `Result`
/// followed by `<...>`. Only the name is looked at: an alias of `Result`
/// under another name is not recognised.
pub open spec fn result_args(ty: TypeExpr) -> Option<Seq<GenericArgument>> {
    match ty {
        TypeExpr::Path(p) => if p.segments@.len() > 0 && p.segments@[0].ident@ == "Result"@ {
            match p.segments@[0].arguments {
                PathArguments::AngleBracketed(a) => Some(a@),
                _ => None,
            }
        } else {
            None
        },
        _ => None,
    }
}

/// A type that is either no `Result<...>` at all or one with at least two
/// type arguments; the normaliser cannot handle anything else.
pub open spec fn result_well_formed(ty: TypeExpr) -> bool {
    match result_args(ty) {
        Some(a) => type_args(a).len() >= 2,
        None => true,
    }
}

/// The success and error types of a `Result<T, E>`.
pub open spec fn result_parts(ty: TypeExpr) -> Option<(TypeExpr, TypeExpr)> {
    match result_args(ty) {
        Some(a) => Some((type_args(a)[0], type_args(a)[1])),
        None => None,
    }
}

/// `Result<(), E>`.
pub open spec fn is_result_unit_type(ty: TypeExpr) -> bool {
    match result_parts(ty) {
        Some((ok, _)) => is_unit_type(ok),
        None => false,
    }
}

/// A declared return that is empty: nothing written, or `()`.
pub open spec fn returns_unit(out: ReturnType) -> bool {
    match out {
        ReturnType::Default => true,
        ReturnType::Type(t) => is_unit_type(t),
    }
}

/// A declared return of `Result<(), E>`.
pub open spec fn returns_result_unit(out: ReturnType) -> bool {
    match out {
        ReturnType::Default => false,
        ReturnType::Type(t) => !is_unit_type(t) && is_result_unit_type(t),
    }
}

/// Whether the declared return lets the normaliser work.
pub open spec fn return_well_formed(out: ReturnType) -> bool {
    match out {
        ReturnType::Default => true,
        ReturnType::Type(t) => result_well_formed(t),
    }
}

/// The expression `Ok(())`.
pub open spec fn is_ok_unit(e: Expr) -> bool {
    match e {
        Expr::Call(f, a) => match *f {
            Expr::Path(n) => n@ == "Ok"@ && *a == Expr::Unit,
            _ => false,
        },
        _ => false,
    }
}

proof fn lemma_type_args_prefix(s: Seq<GenericArgument>, k: int)
    requires
        0 <= k <= s.len(),
    ensures
        type_args(s.take(k)).len() <= type_args(s).len(),
        type_args(s.take(k)) == type_args(s).take(type_args(s.take(k)).len() as int),
    decreases s.len(),
{
    if k == s.len() {
        assert(s.take(k) =~= s);
        assert(type_args(s).take(type_args(s).len() as int) =~= type_args(s));
    } else {
        let t = s.drop_last();
        assert(s.take(k) =~= t.take(k));
        lemma_type_args_prefix(t, k);
        let n = type_args(t.take(k)).len() as int;
        assert(type_args(s).take(n) =~= type_args(t).take(n));
    }
}

/// Whether `ty` is the unit type `()`.
pub fn is_unit_ty(ty: &TypeExpr) -> (r: bool)
    ensures
        r == is_unit_type(*ty),
{
    match ty {
        TypeExpr::Tuple(elems) => elems.len() == 0,
        _ => false,
    }
}

fn first_two_types(args: &Vec<GenericArgument>) -> (r: Option<(&TypeExpr, &TypeExpr)>)
    ensures
        match r {
            Some((a, b)) => type_args(args@).len() >= 2 && *a == type_args(args@)[0] && *b
                == type_args(args@)[1],
            None => type_args(args@).len() < 2,
        },
{
    let mut first: Option<&TypeExpr> = None;
    let mut i: usize = 0;
    while i < args.len()
        invariant
            i <= args@.len(),
            match first {
                Some(f) => type_args(args@.take(i as int)).len() == 1 && *f == type_args(
                    args@.take(i as int),
                )[0],
                None => type_args(args@.take(i as int)).len() == 0,
            },
        decreases args@.len() - i,
    {
        assert(args@.take(i + 1).drop_last() =~= args@.take(i as int));
        match &args[i] {
            GenericArgument::Type(t) => {
                match first {
                    Some(f) => {
                        proof {
                            let pre = args@.take(i + 1);
                            assert(pre.last() == args@[i as int]);
                            assert(type_args(pre) == type_args(args@.take(i as int)).push(*t));
                            lemma_type_args_prefix(args@, i + 1);
                            assert(type_args(args@).take(2)[0] == type_args(args@)[0]);
                            assert(type_args(args@).take(2)[1] == type_args(args@)[1]);
                        }
                        return Some((f, t));
                    },
                    None => {
                        proof {
                            let pre = args@.take(i + 1);
                            assert(pre.last() == args@[i as int]);
                        }
                        first = Some(t);
                    },
                }
            },
            GenericArgument::Other(_) => {},
        }
        i += 1;
    }
    assert(args@.take(i as int) =~= args@);
    None
}

fn count_type_args(args: &Vec<GenericArgument>) -> (r: usize)
    ensures
        r == type_args(args@).len(),
{
    let mut n: usize = 0;
    let mut i: usize = 0;
    while i < args.len()
        invariant
            i <= args@.len(),
            n == type_args(args@.take(i as int)).len(),
            n <= i,
        decreases args@.len() - i,
    {
        assert(args@.take(i + 1).drop_last() =~= args@.take(i as int));
        assert(args@.take(i + 1).last() == args@[i as int]);
        match &args[i] {
            GenericArgument::Type(_) => {
                n += 1;
            },
            GenericArgument::Other(_) => {},
        }
        i += 1;
    }
    assert(args@.take(i as int) =~= args@);
    n
}

/// Whether the return normaliser can work on a function declared to return
/// `out`: a `Result` there must have its two type arguments.
pub fn return_is_well_formed(out: &ReturnType) -> (r: bool)
    ensures
        r == return_well_formed(*out),
{
    match out {
        ReturnType::Default => true,
        ReturnType::Type(TypeExpr::Path(p)) => {
            if p.segments.len() > 0 && same_text(p.segments[0].ident.as_str(), "Result") {
                match &p.segments[0].arguments {
                    PathArguments::AngleBracketed(a) => count_type_args(a) >= 2,
                    _ => true,
                }
            } else {
                true
            }
        },
        ReturnType::Type(_) => true,
    }
}

/// Splits `Result<T, E>` into `T` and `E`; `None` for any other type.
pub fn unwrap_result(ty: &TypeExpr) -> (r: Option<(&TypeExpr, &TypeExpr)>)
    requires
        result_well_formed(*ty),
    ensures
        match r {
            Some((o, e)) => result_parts(*ty) == Some((*o, *e)),
            None => result_parts(*ty) is None,
        },
{
    match ty {
        TypeExpr::Path(p) => {
            if p.segments.len() > 0 && same_text(p.segments[0].ident.as_str(), "Result") {
                match &p.segments[0].arguments {
                    PathArguments::AngleBracketed(a) => first_two_types(a),
                    _ => None,
                }
            } else {
                None
            }
        },
        _ => None,
    }
}

/// Whether `ty` is `Result<(), E>`.
pub fn is_result_unit_ty(ty: &TypeExpr) -> (r: bool)
    requires
        result_well_formed(*ty),
    ensures
        r == is_result_unit_type(*ty),
{
    match unwrap_result(ty) {
        Some((ok, _)) => is_unit_ty(ok),
        None => false,
    }
}

/// The path expression `Ok`.
pub fn ok_expr_path() -> (r: Expr)
    ensures
        r matches Expr::Path(n) && n@ == "Ok"@,
{
    Expr::Path(String::from_str("Ok"))
}

/// The return normaliser. A function declared to return nothing gets an
/// empty body; one declared to return `Result<(), E>` gets the body `Ok(())`;
/// any other function is left as written.
pub fn ret_ty_or_unit(item: ItemFn) -> (r: ItemFn)
    requires
        return_well_formed(item.sig.output),
    ensures
        r.attrs == item.attrs,
        r.sig == item.sig,
        returns_unit(item.sig.output) ==> r.block == Block::Empty,
        returns_result_unit(item.sig.output) ==> (r.block matches Block::Tail(e) && is_ok_unit(e)),
        !returns_unit(item.sig.output) && !returns_result_unit(item.sig.output) ==> r.block
            == item.block,
{
    let unit = match &item.sig.output {
        ReturnType::Default => true,
        ReturnType::Type(t) => is_unit_ty(t),
    };
    let result_unit = match &item.sig.output {
        ReturnType::Default => false,
        ReturnType::Type(t) => !unit && is_result_unit_ty(t),
    };
    let ItemFn { attrs, sig, block } = item;
    let block = if unit {
        Block::Empty
    } else if result_unit {
        Block::Tail(Expr::Call(Box::new(ok_expr_path()), Box::new(Expr::Unit)))
    } else {
        block
    };
    ItemFn { attrs, sig, block }
}

/// Generalising a parameter list a second time changes nothing: every
/// parameter is then either a primitive integer or already `impl Into<_>`.
pub proof fn lemma_impl_into_args_idempotent(inputs: Seq<FnArg>)
    ensures
        inputs.map_values(|a: FnArg| generalize_arg(a)).map_values(|a: FnArg| generalize_arg(a))
            == inputs.map_values(|a: FnArg| generalize_arg(a)),
{
    let once = inputs.map_values(|a: FnArg| generalize_arg(a));
    let twice = once.map_values(|a: FnArg| generalize_arg(a));
    assert forall|i: int| 0 <= i < once.len() implies twice[i] == once[i] by {
        let a = inputs[i];
        match a {
            FnArg::Typed(pt) => {
                if !is_num_type(pt.ty) && !is_into_type(pt.ty) {
                    assert(is_into_type(TypeExpr::ImplInto(Box::new(pt.ty))));
                }
            },
            FnArg::Receiver(_) => {},
        }
    }
    assert(twice =~= once);
}

/// A return type whose path does not begin with the literal name `Result`
/// (a renamed alias of it, say) and that is not `()` falls in neither
/// rewritten case, so the return normaliser keeps the written body.
pub proof fn lemma_unrecognised_result_kept(p: TypePath)
    requires
        p.segments@.len() > 0,
        p.segments@[0].ident@ != "Result"@,
    ensures
        !returns_unit(ReturnType::Type(TypeExpr::Path(p))),
        !returns_result_unit(ReturnType::Type(TypeExpr::Path(p))),
        return_well_formed(ReturnType::Type(TypeExpr::Path(p))),
{
}

} // verus!
