//! Trees that a walk leaves as they are.
//!
//! A tree is settled for a visitor where the visitor changes no type and no
//! list of bounds in it. The walk of a settled tree is the tree itself.
use vstd::prelude::*;
use crate::syntax::BareFnArgView;
use crate::syntax::ExprPieceView;
use crate::syntax::GenericArgumentView;
use crate::syntax::PathArgumentsView;
use crate::syntax::PathSegmentView;
use crate::syntax::PathView;
use crate::syntax::TypeParamBoundView;
use crate::syntax::TypePathView;
use crate::syntax::TypeView;
use crate::visit::type_hook;
use crate::visit::visited_arg;
use crate::visit::visited_args;
use crate::visit::visited_bound;
use crate::visit::visited_bounds;
use crate::visit::visited_expr;
use crate::visit::visited_fn_args;
use crate::visit::visited_opt_type;
use crate::visit::visited_path;
use crate::visit::visited_segment;
use crate::visit::visited_type;
use crate::visit::visited_type_path;
use crate::visit::visited_types;
use crate::visit::VisitorView;

verus! {

/// Whether the visitor `v` changes nothing at `t` nor inside it.
pub open spec fn settled_type(v: VisitorView, t: TypeView) -> bool
    decreases t,
{
    type_hook(v, t) == t && settled_inside(v, t)
}

/// Whether the visitor `v` changes nothing inside `t`.
pub open spec fn settled_inside(v: VisitorView, t: TypeView) -> bool
    decreases t, 0nat,
{
    match t {
        TypeView::Array { elem, len } => settled_type(v, *elem) && settled_expr(v, len),
        TypeView::BareFn(f) => settled_fn_args(v, f.inputs) && settled_opt_type(v, f.output),
        TypeView::Group(elem) => settled_type(v, *elem),
        TypeView::ImplTrait(bounds) => settled_bounds(v, bounds),
        TypeView::Infer => true,
        TypeView::Macro(_) => true,
        TypeView::Never => true,
        TypeView::Paren(elem) => settled_type(v, *elem),
        TypeView::Path(p) => settled_type_path(v, p),
        TypeView::Ptr { elem, .. } => settled_type(v, *elem),
        TypeView::Reference { elem, .. } => settled_type(v, *elem),
        TypeView::Slice(elem) => settled_type(v, *elem),
        TypeView::TraitObject { bounds, .. } => settled_bounds(v, bounds),
        TypeView::Tuple(elems) => settled_types(v, elems),
        TypeView::Verbatim(_) => true,
    }
}

pub open spec fn settled_fn_args(v: VisitorView, s: Seq<BareFnArgView>) -> bool
    decreases s,
{
    forall|i: int| 0 <= i < s.len() ==> settled_type(v, (#[trigger] s[i]).ty)
}

pub open spec fn settled_opt_type(v: VisitorView, t: Option<Box<TypeView>>) -> bool
    decreases t,
{
    match t {
        Some(t) => settled_type(v, *t),
        None => true,
    }
}

pub open spec fn settled_types(v: VisitorView, s: Seq<TypeView>) -> bool
    decreases s,
{
    forall|i: int| 0 <= i < s.len() ==> settled_type(v, #[trigger] s[i])
}

pub open spec fn settled_type_path(v: VisitorView, p: TypePathView) -> bool
    decreases p,
{
    &&& match p.qself {
        Some(q) => settled_type(v, *q.ty),
        None => true,
    }
    &&& settled_path(v, p.path)
}

pub open spec fn settled_path(v: VisitorView, p: PathView) -> bool
    decreases p,
{
    forall|i: int| 0 <= i < p.segments.len() ==> settled_segment(v, #[trigger] p.segments[i])
}

pub open spec fn settled_segment(v: VisitorView, s: PathSegmentView) -> bool
    decreases s,
{
    match s.arguments {
        PathArgumentsView::Absent => true,
        PathArgumentsView::AngleBracketed { args, .. } => settled_args(v, args),
        PathArgumentsView::Parenthesized { inputs, output } => settled_types(v, inputs) && settled_opt_type(
            v,
            output,
        ),
    }
}

pub open spec fn settled_args(v: VisitorView, s: Seq<GenericArgumentView>) -> bool
    decreases s,
{
    forall|i: int| 0 <= i < s.len() ==> settled_arg(v, #[trigger] s[i])
}

pub open spec fn settled_arg(v: VisitorView, a: GenericArgumentView) -> bool
    decreases a,
{
    match a {
        GenericArgumentView::Lifetime(_) => true,
        GenericArgumentView::Type(t) => settled_type(v, t),
        GenericArgumentView::Binding { ty, .. } => settled_type(v, ty),
        GenericArgumentView::Constraint { bounds, .. } => settled_bounds(v, bounds),
        GenericArgumentView::Const(e) => settled_expr(v, e),
        GenericArgumentView::GatBinding(b) => settled_type(v, b.ty),
    }
}

/// Whether the visitor `v` changes no type in an expression.
pub open spec fn settled_expr(v: VisitorView, s: Seq<ExprPieceView>) -> bool
    decreases s,
{
    forall|i: int| 0 <= i < s.len() ==> ((#[trigger] s[i]) matches ExprPieceView::Type(t) ==> settled_type(v, t))
}

pub open spec fn settled_bounds(v: VisitorView, s: Seq<TypeParamBoundView>) -> bool
    decreases s,
{
    forall|i: int| 0 <= i < s.len() ==> settled_bound(v, #[trigger] s[i])
}

pub open spec fn settled_bound(v: VisitorView, b: TypeParamBoundView) -> bool
    decreases b,
{
    match b {
        TypeParamBoundView::Trait(t) => settled_path(v, t.path),
        TypeParamBoundView::Lifetime(_) => true,
    }
}

/// The walk of a settled type is the type.
pub proof fn lemma_settled_type(v: VisitorView, t: TypeView)
    requires
        settled_type(v, t),
    ensures
        visited_type(v, t) == t,
    decreases t,
{
    match t {
        TypeView::Array { elem, len } => {
            lemma_settled_type(v, *elem);
            lemma_settled_expr(v, len);
        },
        TypeView::BareFn(f) => {
            lemma_settled_fn_args(v, f.inputs);
            lemma_settled_opt_type(v, f.output);
        },
        TypeView::Group(elem) => lemma_settled_type(v, *elem),
        TypeView::ImplTrait(bounds) => lemma_settled_bounds(v, bounds),
        TypeView::Infer => {},
        TypeView::Macro(_) => {},
        TypeView::Never => {},
        TypeView::Paren(elem) => lemma_settled_type(v, *elem),
        TypeView::Path(p) => lemma_settled_type_path(v, p),
        TypeView::Ptr { elem, .. } => lemma_settled_type(v, *elem),
        TypeView::Reference { elem, .. } => lemma_settled_type(v, *elem),
        TypeView::Slice(elem) => lemma_settled_type(v, *elem),
        TypeView::TraitObject { bounds, .. } => lemma_settled_bounds(v, bounds),
        TypeView::Tuple(elems) => lemma_settled_types(v, elems),
        TypeView::Verbatim(_) => {},
    }
}

pub proof fn lemma_settled_fn_args(v: VisitorView, s: Seq<BareFnArgView>)
    requires
        settled_fn_args(v, s),
    ensures
        visited_fn_args(v, s) == s,
    decreases s,
{
    assert forall|i: int| 0 <= i < s.len() implies visited_fn_args(v, s)[i] == s[i] by {
        lemma_settled_type(v, s[i].ty);
    }
    assert(visited_fn_args(v, s) =~= s);
}

pub proof fn lemma_settled_opt_type(v: VisitorView, t: Option<Box<TypeView>>)
    requires
        settled_opt_type(v, t),
    ensures
        visited_opt_type(v, t) == t,
    decreases t,
{
    match t {
        Some(t) => lemma_settled_type(v, *t),
        None => {},
    }
}

pub proof fn lemma_settled_types(v: VisitorView, s: Seq<TypeView>)
    requires
        settled_types(v, s),
    ensures
        visited_types(v, s) == s,
    decreases s,
{
    assert forall|i: int| 0 <= i < s.len() implies visited_types(v, s)[i] == s[i] by {
        lemma_settled_type(v, s[i]);
    }
    assert(visited_types(v, s) =~= s);
}

pub proof fn lemma_settled_type_path(v: VisitorView, p: TypePathView)
    requires
        settled_type_path(v, p),
    ensures
        visited_type_path(v, p) == p,
    decreases p,
{
    match p.qself {
        Some(q) => lemma_settled_type(v, *q.ty),
        None => {},
    }
    lemma_settled_path(v, p.path);
}

pub proof fn lemma_settled_path(v: VisitorView, p: PathView)
    requires
        settled_path(v, p),
    ensures
        visited_path(v, p) == p,
    decreases p,
{
    assert forall|i: int| 0 <= i < p.segments.len() implies visited_path(v, p).segments[i] == p.segments[i] by {
        lemma_settled_segment(v, p.segments[i]);
    }
    assert(visited_path(v, p).segments =~= p.segments);
}

pub proof fn lemma_settled_segment(v: VisitorView, s: PathSegmentView)
    requires
        settled_segment(v, s),
    ensures
        visited_segment(v, s) == s,
    decreases s,
{
    match s.arguments {
        PathArgumentsView::Absent => {},
        PathArgumentsView::AngleBracketed { args, .. } => lemma_settled_args(v, args),
        PathArgumentsView::Parenthesized { inputs, output } => {
            lemma_settled_types(v, inputs);
            lemma_settled_opt_type(v, output);
        },
    }
}

pub proof fn lemma_settled_args(v: VisitorView, s: Seq<GenericArgumentView>)
    requires
        settled_args(v, s),
    ensures
        visited_args(v, s) == s,
    decreases s,
{
    assert forall|i: int| 0 <= i < s.len() implies visited_args(v, s)[i] == s[i] by {
        lemma_settled_arg(v, s[i]);
    }
    assert(visited_args(v, s) =~= s);
}

pub proof fn lemma_settled_arg(v: VisitorView, a: GenericArgumentView)
    requires
        settled_arg(v, a),
    ensures
        visited_arg(v, a) == a,
    decreases a,
{
    match a {
        GenericArgumentView::Lifetime(_) => {},
        GenericArgumentView::Type(t) => lemma_settled_type(v, t),
        GenericArgumentView::Binding { ty, .. } => lemma_settled_type(v, ty),
        GenericArgumentView::Constraint { bounds, .. } => lemma_settled_bounds(v, bounds),
        GenericArgumentView::Const(e) => lemma_settled_expr(v, e),
        GenericArgumentView::GatBinding(b) => lemma_settled_type(v, b.ty),
    }
}

pub proof fn lemma_settled_expr(v: VisitorView, s: Seq<ExprPieceView>)
    requires
        settled_expr(v, s),
    ensures
        visited_expr(v, s) == s,
    decreases s,
{
    assert forall|i: int| 0 <= i < s.len() implies visited_expr(v, s)[i] == s[i] by {
        match s[i] {
            ExprPieceView::Type(t) => lemma_settled_type(v, t),
            _ => {},
        }
    }
    assert(visited_expr(v, s) =~= s);
}

pub proof fn lemma_settled_bounds(v: VisitorView, s: Seq<TypeParamBoundView>)
    requires
        settled_bounds(v, s),
    ensures
        visited_bounds(v, s) == s,
    decreases s,
{
    assert forall|i: int| 0 <= i < s.len() implies visited_bounds(v, s)[i] == s[i] by {
        lemma_settled_bound(v, s[i]);
    }
    assert(visited_bounds(v, s) =~= s);
}

pub proof fn lemma_settled_bound(v: VisitorView, b: TypeParamBoundView)
    requires
        settled_bound(v, b),
    ensures
        visited_bound(v, b) == b,
    decreases b,
{
    match b {
        TypeParamBoundView::Trait(t) => lemma_settled_path(v, t.path),
        TypeParamBoundView::Lifetime(_) => {},
    }
}

} // verus!
