//! The walk over a syntax tree. It visits every type after the types inside
//! it, and the bounds of every type parameter and of every `where`
//! predicate after the types inside them. It never enters an item that
//! stands inside the tree it was given.
//!
//! What happens at a type and at a list of bounds is the visitor's choice:
//! one visitor rewrites the paths through generic associated types, the
//! other qualifies `Self::Assoc<..>`.
use vstd::prelude::*;
use crate::gat_attr::qualified_self;
use crate::gat_attr::qualify_self;
use crate::gat_bang::handle_trait_bounds;
use crate::gat_bang::handle_type_impl_trait;
use crate::gat_bang::handled_bounds;
use crate::gat_bang::rewrite_qualified_path;
use crate::gat_bang::rewritten_path;
use crate::syntax::expr_view;
use crate::syntax::ExprPiece;
use crate::syntax::ExprPieceView;
use crate::syntax::GatBinding;
use crate::syntax::GatBindingView;
use crate::item::impl_items_view;
use crate::item::opt_view;
use crate::item::params_view;
use crate::item::pieces_view;
use crate::item::predicates_view;
use crate::item::trait_items_view;
use crate::item::ConstParam;
use crate::item::ConstParamView;
use crate::item::GenericParam;
use crate::item::GenericParamView;
use crate::item::Generics;
use crate::item::GenericsView;
use crate::item::ImplItem;
use crate::item::ImplItemType;
use crate::item::ImplItemTypeView;
use crate::item::ImplItemView;
use crate::item::ImplTrait;
use crate::item::ImplTraitView;
use crate::item::ItemImpl;
use crate::item::ItemImplView;
use crate::item::ItemTrait;
use crate::item::ItemTraitView;
use crate::item::Piece;
use crate::item::PieceView;
use crate::item::PredicateType;
use crate::item::PredicateTypeView;
use crate::item::TraitItem;
use crate::item::TraitItemType;
use crate::item::TraitItemTypeView;
use crate::item::TraitItemView;
use crate::item::TypeParam;
use crate::item::TypeParamView;
use crate::item::WherePredicate;
use crate::item::WherePredicateView;
use crate::syntax::copy_lifetimes;
use crate::syntax::copy_strings;
use crate::syntax::args_view;
use crate::syntax::bound_view;
use crate::syntax::bounds_view;
use crate::syntax::copy_opt_lifetime;
use crate::syntax::copy_opt_lifetime_defs;
use crate::syntax::fn_args_view;
use crate::syntax::opt_type_view;
use crate::syntax::types_view;
use crate::syntax::BareFnArg;
use crate::syntax::BareFnArgView;
use crate::syntax::GenericArgument;
use crate::syntax::GenericArgumentView;
use crate::syntax::Path;
use crate::syntax::PathArguments;
use crate::syntax::PathArgumentsView;
use crate::syntax::PathSegment;
use crate::syntax::PathSegmentView;
use crate::syntax::PathView;
use crate::syntax::QSelf;
use crate::syntax::QSelfView;
use crate::syntax::TraitBound;
use crate::syntax::TraitBoundView;
use crate::syntax::Type;
use crate::syntax::TypeBareFn;
use crate::syntax::TypeBareFnView;
use crate::syntax::TypeParamBound;
use crate::syntax::TypeParamBoundView;
use crate::syntax::TypePath;
use crate::syntax::TypePathView;
use crate::syntax::TypeView;

verus! {

broadcast use vstd::std_specs::vec::group_vec_axioms;

/// What the walk does at the nodes it visits.
#[derive(Debug, PartialEq, Eq)]
pub enum Visitor {
    /// Rewrites each path `<Type as Trait>::Assoc<'a>` and the bounds
    /// `Trait<Assoc<'a> = Value>`, and leaves what it cannot rewrite.
    ApplyGat,
    /// Turns each `Self::Assoc<..>` into `<Self as Trait>::Assoc<..>`, for
    /// the path of `Trait` that it holds.
    ReplaceSelf(Path),
}

pub enum VisitorView {
    ApplyGat,
    ReplaceSelf(PathView),
}

impl View for Visitor {
    type V = VisitorView;

    open spec fn view(&self) -> VisitorView {
        match self {
            Visitor::ApplyGat => VisitorView::ApplyGat,
            Visitor::ReplaceSelf(path) => VisitorView::ReplaceSelf(path@),
        }
    }
}

/// What the visitor makes of a type whose parts have been walked.
pub open spec fn type_hook(v: VisitorView, node: TypeView) -> TypeView {
    match v {
        VisitorView::ApplyGat => match node {
            TypeView::Path(p) => match rewritten_path(p) {
                Ok(rewritten) => TypeView::Path(rewritten),
                Err(_) => node,
            },
            TypeView::ImplTrait(bounds) => TypeView::ImplTrait(handled_bounds(bounds)),
            _ => node,
        },
        VisitorView::ReplaceSelf(current) => match node {
            TypeView::Path(p) => TypeView::Path(qualified_self(current, p)),
            _ => node,
        },
    }
}

/// What the visitor makes of the bounds of a type parameter or of a `where`
/// predicate, once the types in them have been walked.
pub open spec fn bounds_hook(v: VisitorView, bounds: Seq<TypeParamBoundView>) -> Seq<TypeParamBoundView> {
    match v {
        VisitorView::ApplyGat => handled_bounds(bounds),
        VisitorView::ReplaceSelf(_) => bounds,
    }
}

/// The type after the walk: its parts are walked first, then the visitor is
/// asked about the type that they make up.
pub open spec fn visited_type(v: VisitorView, t: TypeView) -> TypeView
    decreases t,
{
    type_hook(
        v,
        match t {
            TypeView::Array { elem, len } => TypeView::Array {
                elem: Box::new(visited_type(v, *elem)),
                len: visited_expr(v, len),
            },
            TypeView::BareFn(f) => TypeView::BareFn(
                TypeBareFnView {
                    prefix: f.prefix,
                    inputs: visited_fn_args(v, f.inputs),
                    variadic: f.variadic,
                    output: visited_opt_type(v, f.output),
                },
            ),
            TypeView::Group(elem) => TypeView::Group(Box::new(visited_type(v, *elem))),
            TypeView::ImplTrait(bounds) => TypeView::ImplTrait(visited_bounds(v, bounds)),
            TypeView::Infer => t,
            TypeView::Macro(_) => t,
            TypeView::Never => t,
            TypeView::Paren(elem) => TypeView::Paren(Box::new(visited_type(v, *elem))),
            TypeView::Path(p) => TypeView::Path(visited_type_path(v, p)),
            TypeView::Ptr { mutable, elem } => TypeView::Ptr { mutable, elem: Box::new(visited_type(v, *elem)) },
            TypeView::Reference { lifetime, mutable, elem } => TypeView::Reference {
                lifetime,
                mutable,
                elem: Box::new(visited_type(v, *elem)),
            },
            TypeView::Slice(elem) => TypeView::Slice(Box::new(visited_type(v, *elem))),
            TypeView::TraitObject { dyn_token, bounds } => TypeView::TraitObject {
                dyn_token,
                bounds: visited_bounds(v, bounds),
            },
            TypeView::Tuple(elems) => TypeView::Tuple(visited_types(v, elems)),
            TypeView::Verbatim(_) => t,
        },
    )
}

pub open spec fn visited_fn_args(v: VisitorView, s: Seq<BareFnArgView>) -> Seq<BareFnArgView>
    decreases s,
{
    Seq::new(
        s.len(),
        |i: int|
            if 0 <= i < s.len() {
                BareFnArgView { prefix: s[i].prefix, ty: visited_type(v, s[i].ty) }
            } else {
                arbitrary()
            },
    )
}

pub open spec fn visited_opt_type(v: VisitorView, t: Option<Box<TypeView>>) -> Option<Box<TypeView>>
    decreases t,
{
    match t {
        Some(t) => Some(Box::new(visited_type(v, *t))),
        None => None,
    }
}

pub open spec fn visited_types(v: VisitorView, s: Seq<TypeView>) -> Seq<TypeView>
    decreases s,
{
    Seq::new(s.len(), |i: int| if 0 <= i < s.len() { visited_type(v, s[i]) } else { arbitrary() })
}

pub open spec fn visited_type_path(v: VisitorView, p: TypePathView) -> TypePathView
    decreases p,
{
    TypePathView {
        qself: match p.qself {
            Some(q) => Some(
                QSelfView { ty: Box::new(visited_type(v, *q.ty)), position: q.position, as_token: q.as_token },
            ),
            None => None,
        },
        path: visited_path(v, p.path),
    }
}

pub open spec fn visited_path(v: VisitorView, p: PathView) -> PathView
    decreases p,
{
    PathView {
        leading_colon: p.leading_colon,
        segments: Seq::new(
            p.segments.len(),
            |i: int| if 0 <= i < p.segments.len() { visited_segment(v, p.segments[i]) } else { arbitrary() },
        ),
    }
}

pub open spec fn visited_segment(v: VisitorView, s: PathSegmentView) -> PathSegmentView
    decreases s,
{
    PathSegmentView {
        ident: s.ident,
        arguments: match s.arguments {
            PathArgumentsView::Absent => PathArgumentsView::Absent,
            PathArgumentsView::AngleBracketed { colon2_token, args } => PathArgumentsView::AngleBracketed {
                colon2_token,
                args: visited_args(v, args),
            },
            PathArgumentsView::Parenthesized { inputs, output } => PathArgumentsView::Parenthesized {
                inputs: visited_types(v, inputs),
                output: visited_opt_type(v, output),
            },
        },
    }
}

pub open spec fn visited_args(v: VisitorView, s: Seq<GenericArgumentView>) -> Seq<GenericArgumentView>
    decreases s,
{
    Seq::new(s.len(), |i: int| if 0 <= i < s.len() { visited_arg(v, s[i]) } else { arbitrary() })
}

pub open spec fn visited_arg(v: VisitorView, a: GenericArgumentView) -> GenericArgumentView
    decreases a,
{
    match a {
        GenericArgumentView::Lifetime(_) => a,
        GenericArgumentView::Type(t) => GenericArgumentView::Type(visited_type(v, t)),
        GenericArgumentView::Binding { ident, ty } => GenericArgumentView::Binding { ident, ty: visited_type(v, ty) },
        GenericArgumentView::Constraint { ident, bounds } => GenericArgumentView::Constraint {
            ident,
            bounds: visited_bounds(v, bounds),
        },
        GenericArgumentView::Const(e) => GenericArgumentView::Const(visited_expr(v, e)),
        GenericArgumentView::GatBinding(b) => GenericArgumentView::GatBinding(
            GatBindingView { ident: b.ident, lifetimes: b.lifetimes, ty: visited_type(v, b.ty) },
        ),
    }
}

/// An expression with the types in it walked. An item in it stays as it
/// is.
pub open spec fn visited_expr(v: VisitorView, s: Seq<ExprPieceView>) -> Seq<ExprPieceView>
    decreases s,
{
    Seq::new(
        s.len(),
        |i: int|
            if 0 <= i < s.len() {
                match s[i] {
                    ExprPieceView::Type(t) => ExprPieceView::Type(visited_type(v, t)),
                    _ => s[i],
                }
            } else {
                arbitrary()
            },
    )
}

/// The bounds with the types in them walked. The visitor is not asked about
/// the list itself: see `bounds_hook`.
pub open spec fn visited_bounds(v: VisitorView, s: Seq<TypeParamBoundView>) -> Seq<TypeParamBoundView>
    decreases s,
{
    Seq::new(s.len(), |i: int| if 0 <= i < s.len() { visited_bound(v, s[i]) } else { arbitrary() })
}

pub open spec fn visited_bound(v: VisitorView, b: TypeParamBoundView) -> TypeParamBoundView
    decreases b,
{
    match b {
        TypeParamBoundView::Trait(t) => TypeParamBoundView::Trait(
            TraitBoundView {
                paren_token: t.paren_token,
                maybe: t.maybe,
                lifetimes: t.lifetimes,
                path: visited_path(v, t.path),
            },
        ),
        TypeParamBoundView::Lifetime(_) => b,
    }
}

/// Asks the visitor about a type whose parts have been walked.
pub fn apply_type_hook(v: &Visitor, node: Type) -> (r: Type)
    ensures
        r@ == type_hook(v@, node@),
{
    match v {
        Visitor::ApplyGat => match node {
            Type::Path(p) => match rewrite_qualified_path(&p) {
                Ok(rewritten) => Type::Path(rewritten),
                Err(_) => Type::Path(p),
            },
            Type::ImplTrait(bounds) => Type::ImplTrait(handle_type_impl_trait(bounds)),
            other => other,
        },
        Visitor::ReplaceSelf(current) => match node {
            Type::Path(p) => Type::Path(qualify_self(current, p)),
            other => other,
        },
    }
}

/// Asks the visitor about the bounds of a type parameter or of a `where`
/// predicate.
pub fn apply_bounds_hook(v: &Visitor, bounds: Vec<TypeParamBound>) -> (r: Vec<TypeParamBound>)
    ensures
        bounds_view(r) == bounds_hook(v@, bounds_view(bounds)),
{
    match v {
        Visitor::ApplyGat => {
            let mut bounds = bounds;
            handle_trait_bounds(&mut bounds);
            bounds
        },
        Visitor::ReplaceSelf(_) => bounds,
    }
}

/// Walks a type: first the types inside it, then the type itself.
pub fn visit_type(v: &Visitor, t: &Type) -> (r: Type)
    ensures
        r@ == visited_type(v@, t@),
    decreases t,
{
    let node = match t {
        Type::Array { elem, len } => Type::Array { elem: Box::new(visit_type(v, elem)), len: visit_expr(v, len) },
        Type::BareFn(f) => Type::BareFn(
            TypeBareFn {
                prefix: f.prefix.clone(),
                inputs: visit_fn_args(v, &f.inputs),
                variadic: f.variadic,
                output: visit_opt_type(v, &f.output),
            },
        ),
        Type::Group(elem) => Type::Group(Box::new(visit_type(v, elem))),
        Type::ImplTrait(bounds) => Type::ImplTrait(visit_bounds(v, bounds)),
        Type::Infer => Type::Infer,
        Type::Macro(text) => Type::Macro(text.clone()),
        Type::Never => Type::Never,
        Type::Paren(elem) => Type::Paren(Box::new(visit_type(v, elem))),
        Type::Path(p) => Type::Path(visit_type_path(v, p)),
        Type::Ptr { mutable, elem } => Type::Ptr { mutable: *mutable, elem: Box::new(visit_type(v, elem)) },
        Type::Reference { lifetime, mutable, elem } => Type::Reference {
            lifetime: copy_opt_lifetime(lifetime),
            mutable: *mutable,
            elem: Box::new(visit_type(v, elem)),
        },
        Type::Slice(elem) => Type::Slice(Box::new(visit_type(v, elem))),
        Type::TraitObject { dyn_token, bounds } => Type::TraitObject {
            dyn_token: *dyn_token,
            bounds: visit_bounds(v, bounds),
        },
        Type::Tuple(elems) => Type::Tuple(visit_types(v, elems)),
        Type::Verbatim(text) => Type::Verbatim(text.clone()),
    };
    apply_type_hook(v, node)
}

pub fn visit_fn_args(v: &Visitor, s: &Vec<BareFnArg>) -> (r: Vec<BareFnArg>)
    ensures
        fn_args_view(r) == visited_fn_args(v@, fn_args_view(*s)),
    decreases s,
{
    let mut out: Vec<BareFnArg> = Vec::new();
    let mut i: usize = 0;
    while i < s.len()
        invariant
            i <= s.len(),
            out.len() == i,
            forall|j: int| 0 <= j < i ==> out[j].prefix@ == s[j].prefix@ && out[j].ty@ == visited_type(v@, s[j].ty@),
        decreases s.len() - i,
    {
        out.push(BareFnArg { prefix: s[i].prefix.clone(), ty: visit_type(v, &s[i].ty) });
        i += 1;
    }
    assert(fn_args_view(out) =~= visited_fn_args(v@, fn_args_view(*s)));
    out
}

pub fn visit_opt_type(v: &Visitor, t: &Option<Box<Type>>) -> (r: Option<Box<Type>>)
    ensures
        opt_type_view(r) == visited_opt_type(v@, opt_type_view(*t)),
    decreases t,
{
    match t {
        Some(t) => Some(Box::new(visit_type(v, t))),
        None => None,
    }
}

pub fn visit_types(v: &Visitor, s: &Vec<Type>) -> (r: Vec<Type>)
    ensures
        types_view(r) == visited_types(v@, types_view(*s)),
    decreases s,
{
    let mut out: Vec<Type> = Vec::new();
    let mut i: usize = 0;
    while i < s.len()
        invariant
            i <= s.len(),
            out.len() == i,
            forall|j: int| 0 <= j < i ==> out[j]@ == visited_type(v@, s[j]@),
        decreases s.len() - i,
    {
        out.push(visit_type(v, &s[i]));
        i += 1;
    }
    assert(types_view(out) =~= visited_types(v@, types_view(*s)));
    out
}

pub fn visit_type_path(v: &Visitor, p: &TypePath) -> (r: TypePath)
    ensures
        r@ == visited_type_path(v@, p@),
    decreases p,
{
    TypePath {
        qself: match &p.qself {
            Some(q) => Some(QSelf { ty: Box::new(visit_type(v, &q.ty)), position: q.position, as_token: q.as_token }),
            None => None,
        },
        path: visit_path(v, &p.path),
    }
}

pub fn visit_path(v: &Visitor, p: &Path) -> (r: Path)
    ensures
        r@ == visited_path(v@, p@),
    decreases p,
{
    let mut out: Vec<PathSegment> = Vec::new();
    let mut i: usize = 0;
    while i < p.segments.len()
        invariant
            i <= p.segments.len(),
            out.len() == i,
            forall|j: int| 0 <= j < i ==> out[j]@ == visited_segment(v@, p.segments[j]@),
        decreases p.segments.len() - i,
    {
        out.push(visit_segment(v, &p.segments[i]));
        i += 1;
    }
    let r = Path { leading_colon: p.leading_colon, segments: out };
    assert(r@.segments =~= visited_path(v@, p@).segments);
    r
}

pub fn visit_segment(v: &Visitor, s: &PathSegment) -> (r: PathSegment)
    ensures
        r@ == visited_segment(v@, s@),
    decreases s,
{
    PathSegment {
        ident: s.ident.clone(),
        arguments: match &s.arguments {
            PathArguments::Absent => PathArguments::Absent,
            PathArguments::AngleBracketed { colon2_token, args } => PathArguments::AngleBracketed {
                colon2_token: *colon2_token,
                args: visit_args(v, args),
            },
            PathArguments::Parenthesized { inputs, output } => PathArguments::Parenthesized {
                inputs: visit_types(v, inputs),
                output: visit_opt_type(v, output),
            },
        },
    }
}

pub fn visit_args(v: &Visitor, s: &Vec<GenericArgument>) -> (r: Vec<GenericArgument>)
    ensures
        args_view(r) == visited_args(v@, args_view(*s)),
    decreases s,
{
    let mut out: Vec<GenericArgument> = Vec::new();
    let mut i: usize = 0;
    while i < s.len()
        invariant
            i <= s.len(),
            out.len() == i,
            forall|j: int| 0 <= j < i ==> out[j]@ == visited_arg(v@, s[j]@),
        decreases s.len() - i,
    {
        out.push(visit_arg(v, &s[i]));
        i += 1;
    }
    assert(args_view(out) =~= visited_args(v@, args_view(*s)));
    out
}

pub fn visit_arg(v: &Visitor, a: &GenericArgument) -> (r: GenericArgument)
    ensures
        r@ == visited_arg(v@, a@),
    decreases a,
{
    match a {
        GenericArgument::Lifetime(l) => GenericArgument::Lifetime(l.copy()),
        GenericArgument::Type(t) => GenericArgument::Type(visit_type(v, t)),
        GenericArgument::Binding { ident, ty } => GenericArgument::Binding {
            ident: ident.clone(),
            ty: visit_type(v, ty),
        },
        GenericArgument::Constraint { ident, bounds } => GenericArgument::Constraint {
            ident: ident.clone(),
            bounds: visit_bounds(v, bounds),
        },
        GenericArgument::Const(e) => GenericArgument::Const(visit_expr(v, e)),
        GenericArgument::GatBinding(b) => GenericArgument::GatBinding(
            GatBinding { ident: b.ident.clone(), lifetimes: copy_lifetimes(&b.lifetimes), ty: visit_type(v, &b.ty) },
        ),
    }
}

/// Walks the types in an expression.
pub fn visit_expr(v: &Visitor, s: &Vec<ExprPiece>) -> (r: Vec<ExprPiece>)
    ensures
        expr_view(r) == visited_expr(v@, expr_view(*s)),
    decreases s,
{
    let mut out: Vec<ExprPiece> = Vec::new();
    let mut i: usize = 0;
    while i < s.len()
        invariant
            i <= s.len(),
            out.len() == i,
            forall|j: int| 0 <= j < i ==> out[j]@ == visited_expr(v@, expr_view(*s))[j],
        decreases s.len() - i,
    {
        let piece = match &s[i] {
            ExprPiece::Tokens(text) => ExprPiece::Tokens(text.clone()),
            ExprPiece::Type(t) => ExprPiece::Type(visit_type(v, t)),
            ExprPiece::Item(text) => ExprPiece::Item(text.clone()),
        };
        proof {
            reveal_with_fuel(crate::syntax::expr_piece_view, 2);
            assert(expr_view(*s)[i as int] == s[i as int]@);
        }
        out.push(piece);
        i += 1;
    }
    assert(expr_view(out) =~= visited_expr(v@, expr_view(*s)));
    out
}

pub fn visit_bounds(v: &Visitor, s: &Vec<TypeParamBound>) -> (r: Vec<TypeParamBound>)
    ensures
        bounds_view(r) == visited_bounds(v@, bounds_view(*s)),
    decreases s,
{
    let mut out: Vec<TypeParamBound> = Vec::new();
    let mut i: usize = 0;
    while i < s.len()
        invariant
            i <= s.len(),
            out.len() == i,
            forall|j: int| 0 <= j < i ==> out[j]@ == visited_bound(v@, s[j]@),
        decreases s.len() - i,
    {
        out.push(visit_bound(v, &s[i]));
        i += 1;
    }
    assert(bounds_view(out) =~= visited_bounds(v@, bounds_view(*s)));
    out
}

pub fn visit_bound(v: &Visitor, b: &TypeParamBound) -> (r: TypeParamBound)
    ensures
        r@ == visited_bound(v@, b@),
    decreases b,
{
    match b {
        TypeParamBound::Trait(t) => {
            let path = visit_path(v, &t.path);
            proof {
                reveal_with_fuel(bound_view, 2);
            }
            TypeParamBound::Trait(
                TraitBound {
                    paren_token: t.paren_token,
                    maybe: t.maybe,
                    lifetimes: copy_opt_lifetime_defs(&t.lifetimes),
                    path,
                },
            )
        },
        TypeParamBound::Lifetime(l) => TypeParamBound::Lifetime(l.copy()),
    }
}

pub open spec fn visited_opt(v: VisitorView, t: Option<TypeView>) -> Option<TypeView> {
    match t {
        Some(t) => Some(visited_type(v, t)),
        None => None,
    }
}

/// A type parameter: the types in its bounds and its default are walked,
/// then the visitor is asked about the bounds.
pub open spec fn visited_type_param(v: VisitorView, p: TypeParamView) -> TypeParamView {
    TypeParamView {
        attrs: p.attrs,
        ident: p.ident,
        colon_token: p.colon_token,
        bounds: bounds_hook(v, visited_bounds(v, p.bounds)),
        default: visited_opt(v, p.default),
    }
}

/// A `where` predicate on a type: the bounded type and the types in the
/// bounds are walked, then the visitor is asked about the bounds.
pub open spec fn visited_predicate(v: VisitorView, p: PredicateTypeView) -> PredicateTypeView {
    PredicateTypeView {
        lifetimes: p.lifetimes,
        bounded_ty: visited_type(v, p.bounded_ty),
        bounds: bounds_hook(v, visited_bounds(v, p.bounds)),
    }
}

pub open spec fn visited_param(v: VisitorView, p: GenericParamView) -> GenericParamView {
    match p {
        GenericParamView::Type(p) => GenericParamView::Type(visited_type_param(v, p)),
        GenericParamView::Lifetime(_) => p,
        GenericParamView::Const(c) => GenericParamView::Const(
            ConstParamView {
                attrs: c.attrs,
                ident: c.ident,
                ty: visited_type(v, c.ty),
                default: match c.default {
                    Some(e) => Some(visited_expr(v, e)),
                    None => None,
                },
            },
        ),
    }
}

pub open spec fn visited_where_predicate(v: VisitorView, p: WherePredicateView) -> WherePredicateView {
    match p {
        WherePredicateView::Type(p) => WherePredicateView::Type(visited_predicate(v, p)),
        WherePredicateView::Lifetime { .. } => p,
        WherePredicateView::Eq { lhs_ty, rhs_ty } => WherePredicateView::Eq {
            lhs_ty: visited_type(v, lhs_ty),
            rhs_ty: visited_type(v, rhs_ty),
        },
    }
}

pub open spec fn visited_generics(v: VisitorView, g: GenericsView) -> GenericsView {
    GenericsView {
        params: g.params.map_values(|p: GenericParamView| visited_param(v, p)),
        where_clause: match g.where_clause {
            Some(w) => Some(w.map_values(|p: WherePredicateView| visited_where_predicate(v, p))),
            None => None,
        },
    }
}

/// A piece: a type, a type parameter and a predicate are walked; text and
/// an item inside stay as they are.
pub open spec fn visited_piece(v: VisitorView, p: PieceView) -> PieceView {
    match p {
        PieceView::Tokens(_) => p,
        PieceView::Type(t) => PieceView::Type(visited_type(v, t)),
        PieceView::TypeParam(p) => PieceView::TypeParam(visited_type_param(v, p)),
        PieceView::Predicate(p) => PieceView::Predicate(visited_predicate(v, p)),
        PieceView::Item(_) => p,
    }
}

pub open spec fn visited_pieces(v: VisitorView, s: Seq<PieceView>) -> Seq<PieceView> {
    s.map_values(|p: PieceView| visited_piece(v, p))
}

pub open spec fn visited_trait_item(v: VisitorView, i: TraitItemView) -> TraitItemView {
    match i {
        TraitItemView::Type(t) => TraitItemView::Type(
            TraitItemTypeView {
                attrs: t.attrs,
                ident: t.ident,
                generics: visited_generics(v, t.generics),
                colon_token: t.colon_token,
                bounds: visited_bounds(v, t.bounds),
                default: visited_opt(v, t.default),
            },
        ),
        TraitItemView::Other(pieces) => TraitItemView::Other(visited_pieces(v, pieces)),
    }
}

pub open spec fn visited_item_trait(v: VisitorView, t: ItemTraitView) -> ItemTraitView {
    ItemTraitView {
        attrs: t.attrs,
        vis: t.vis,
        unsafety: t.unsafety,
        auto_token: t.auto_token,
        ident: t.ident,
        generics: visited_generics(v, t.generics),
        colon_token: t.colon_token,
        supertraits: visited_bounds(v, t.supertraits),
        items: t.items.map_values(|i: TraitItemView| visited_trait_item(v, i)),
    }
}

pub open spec fn visited_impl_item(v: VisitorView, i: ImplItemView) -> ImplItemView {
    match i {
        ImplItemView::Type(t) => ImplItemView::Type(
            ImplItemTypeView {
                attrs: t.attrs,
                vis: t.vis,
                defaultness: t.defaultness,
                ident: t.ident,
                generics: visited_generics(v, t.generics),
                ty: visited_type(v, t.ty),
            },
        ),
        ImplItemView::Other(pieces) => ImplItemView::Other(visited_pieces(v, pieces)),
    }
}

pub open spec fn visited_item_impl(v: VisitorView, t: ItemImplView) -> ItemImplView {
    ItemImplView {
        attrs: t.attrs,
        defaultness: t.defaultness,
        unsafety: t.unsafety,
        generics: visited_generics(v, t.generics),
        trait_: match t.trait_ {
            Some(tr) => Some(ImplTraitView { negative: tr.negative, path: visited_path(v, tr.path) }),
            None => None,
        },
        self_ty: visited_type(v, t.self_ty),
        items: t.items.map_values(|i: ImplItemView| visited_impl_item(v, i)),
    }
}

pub fn visit_opt(v: &Visitor, t: &Option<Type>) -> (r: Option<Type>)
    ensures
        opt_view(r) == visited_opt(v@, opt_view(*t)),
{
    match t {
        Some(t) => Some(visit_type(v, t)),
        None => None,
    }
}

pub fn visit_type_param(v: &Visitor, p: &TypeParam) -> (r: TypeParam)
    ensures
        r@ == visited_type_param(v@, p@),
{
    TypeParam {
        attrs: copy_strings(&p.attrs),
        ident: p.ident.clone(),
        colon_token: p.colon_token,
        bounds: apply_bounds_hook(v, visit_bounds(v, &p.bounds)),
        default: visit_opt(v, &p.default),
    }
}

pub fn visit_predicate(v: &Visitor, p: &PredicateType) -> (r: PredicateType)
    ensures
        r@ == visited_predicate(v@, p@),
{
    PredicateType {
        lifetimes: copy_opt_lifetime_defs(&p.lifetimes),
        bounded_ty: visit_type(v, &p.bounded_ty),
        bounds: apply_bounds_hook(v, visit_bounds(v, &p.bounds)),
    }
}

/// Walks the parameters and the `where` clause of a declaration.
pub fn visit_generics(v: &Visitor, g: &Generics) -> (r: Generics)
    ensures
        r@ == visited_generics(v@, g@),
{
    let mut params: Vec<GenericParam> = Vec::new();
    let mut i: usize = 0;
    while i < g.params.len()
        invariant
            i <= g.params.len(),
            params.len() == i,
            forall|j: int| 0 <= j < i ==> params[j]@ == visited_param(v@, g.params[j]@),
        decreases g.params.len() - i,
    {
        let param = match &g.params[i] {
            GenericParam::Type(p) => GenericParam::Type(visit_type_param(v, p)),
            GenericParam::Lifetime(p) => GenericParam::Lifetime(p.copy()),
            GenericParam::Const(c) => GenericParam::Const(
                ConstParam {
                    attrs: copy_strings(&c.attrs),
                    ident: c.ident.clone(),
                    ty: visit_type(v, &c.ty),
                    default: match &c.default {
                        Some(e) => Some(visit_expr(v, e)),
                        None => None,
                    },
                },
            ),
        };
        params.push(param);
        i += 1;
    }
    let where_clause = match &g.where_clause {
        Some(w) => {
            let mut out: Vec<WherePredicate> = Vec::new();
            let mut k: usize = 0;
            while k < w.len()
                invariant
                    k <= w.len(),
                    out.len() == k,
                    forall|j: int| 0 <= j < k ==> out[j]@ == visited_where_predicate(v@, w[j]@),
                decreases w.len() - k,
            {
                let predicate = match &w[k] {
                    WherePredicate::Type(p) => WherePredicate::Type(visit_predicate(v, p)),
                    WherePredicate::Lifetime { lifetime, bounds } => WherePredicate::Lifetime {
                        lifetime: lifetime.copy(),
                        bounds: copy_lifetimes(bounds),
                    },
                    WherePredicate::Eq { lhs_ty, rhs_ty } => WherePredicate::Eq {
                        lhs_ty: visit_type(v, lhs_ty),
                        rhs_ty: visit_type(v, rhs_ty),
                    },
                };
                out.push(predicate);
                k += 1;
            }
            assert(predicates_view(out) =~= predicates_view(*w).map_values(
                |p: WherePredicateView| visited_where_predicate(v@, p),
            ));
            Some(out)
        },
        None => None,
    };
    assert(params_view(params) =~= params_view(g.params).map_values(|p: GenericParamView| visited_param(v@, p)));
    Generics { params, where_clause }
}

/// Walks the pieces of an item. Text and inner items are copied.
pub fn visit_pieces(v: &Visitor, s: &Vec<Piece>) -> (r: Vec<Piece>)
    ensures
        pieces_view(r) == visited_pieces(v@, pieces_view(*s)),
{
    let mut out: Vec<Piece> = Vec::new();
    let mut i: usize = 0;
    while i < s.len()
        invariant
            i <= s.len(),
            out.len() == i,
            forall|j: int| 0 <= j < i ==> out[j]@ == visited_piece(v@, s[j]@),
        decreases s.len() - i,
    {
        let piece = match &s[i] {
            Piece::Tokens(text) => Piece::Tokens(text.clone()),
            Piece::Type(t) => Piece::Type(visit_type(v, t)),
            Piece::TypeParam(p) => Piece::TypeParam(visit_type_param(v, p)),
            Piece::Predicate(p) => Piece::Predicate(visit_predicate(v, p)),
            Piece::Item(text) => Piece::Item(text.clone()),
        };
        out.push(piece);
        i += 1;
    }
    assert(pieces_view(out) =~= visited_pieces(v@, pieces_view(*s)));
    out
}

/// Walks a trait: its generics, its supertraits and its items.
pub fn visit_item_trait(v: &Visitor, t: &ItemTrait) -> (r: ItemTrait)
    ensures
        r@ == visited_item_trait(v@, t@),
{
    let mut items: Vec<TraitItem> = Vec::new();
    let mut i: usize = 0;
    while i < t.items.len()
        invariant
            i <= t.items.len(),
            items.len() == i,
            forall|j: int| 0 <= j < i ==> items[j]@ == visited_trait_item(v@, t.items[j]@),
        decreases t.items.len() - i,
    {
        let item = match &t.items[i] {
            TraitItem::Type(a) => TraitItem::Type(
                TraitItemType {
                    attrs: copy_strings(&a.attrs),
                    ident: a.ident.clone(),
                    generics: visit_generics(v, &a.generics),
                    colon_token: a.colon_token,
                    bounds: visit_bounds(v, &a.bounds),
                    default: visit_opt(v, &a.default),
                },
            ),
            TraitItem::Other(pieces) => TraitItem::Other(visit_pieces(v, pieces)),
        };
        items.push(item);
        i += 1;
    }
    assert(trait_items_view(items) =~= trait_items_view(t.items).map_values(
        |i: TraitItemView| visited_trait_item(v@, i),
    ));
    ItemTrait {
        attrs: copy_strings(&t.attrs),
        vis: t.vis.copy(),
        unsafety: t.unsafety,
        auto_token: t.auto_token,
        ident: t.ident.clone(),
        generics: visit_generics(v, &t.generics),
        colon_token: t.colon_token,
        supertraits: visit_bounds(v, &t.supertraits),
        items,
    }
}

/// Walks an impl: its generics, the path of its trait, its type and its
/// items.
pub fn visit_item_impl(v: &Visitor, t: &ItemImpl) -> (r: ItemImpl)
    ensures
        r@ == visited_item_impl(v@, t@),
{
    let mut items: Vec<ImplItem> = Vec::new();
    let mut i: usize = 0;
    while i < t.items.len()
        invariant
            i <= t.items.len(),
            items.len() == i,
            forall|j: int| 0 <= j < i ==> items[j]@ == visited_impl_item(v@, t.items[j]@),
        decreases t.items.len() - i,
    {
        let item = match &t.items[i] {
            ImplItem::Type(a) => ImplItem::Type(
                ImplItemType {
                    attrs: copy_strings(&a.attrs),
                    vis: a.vis.copy(),
                    defaultness: a.defaultness,
                    ident: a.ident.clone(),
                    generics: visit_generics(v, &a.generics),
                    ty: visit_type(v, &a.ty),
                },
            ),
            ImplItem::Other(pieces) => ImplItem::Other(visit_pieces(v, pieces)),
        };
        items.push(item);
        i += 1;
    }
    assert(impl_items_view(items) =~= impl_items_view(t.items).map_values(
        |i: ImplItemView| visited_impl_item(v@, i),
    ));
    ItemImpl {
        attrs: copy_strings(&t.attrs),
        defaultness: t.defaultness,
        unsafety: t.unsafety,
        generics: visit_generics(v, &t.generics),
        trait_: match &t.trait_ {
            Some(tr) => Some(ImplTrait { negative: tr.negative, path: visit_path(v, &tr.path) }),
            None => None,
        },
        self_ty: visit_type(v, &t.self_ty),
        items,
    }
}

} // verus!
