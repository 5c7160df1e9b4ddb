//! Items, generics and pieces that a walk leaves as they are, and that a
//! walk leaves settled.
use vstd::prelude::*;
use crate::handled::lemma_handled_bounds_idempotent;
use crate::handled::lemma_handled_bounds_settled;
use crate::item::GenericParamView;
use crate::item::GenericsView;
use crate::item::ImplItemView;
use crate::item::ItemImplView;
use crate::item::ItemTraitView;
use crate::item::PieceView;
use crate::item::PredicateTypeView;
use crate::item::TraitItemView;
use crate::item::TypeParamView;
use crate::item::WherePredicateView;
use crate::settled::lemma_settled_bounds;
use crate::settled::lemma_settled_path;
use crate::settled::lemma_settled_type;
use crate::settled::lemma_settled_expr;
use crate::settled::settled_bounds;
use crate::settled::settled_expr;
use crate::settles::lemma_walk_settles_expr;
use crate::syntax::ExprPieceView;
use crate::settled::settled_path;
use crate::settled::settled_type;
use crate::settles::keeps;
use crate::settles::lemma_walk_settles_bounds;
use crate::settles::lemma_walk_settles_path;
use crate::settles::lemma_walk_settles_type;
use crate::syntax::TypeParamBoundView;
use crate::syntax::TypeView;
use crate::visit::bounds_hook;
use crate::visit::visited_bounds;
use crate::visit::visited_generics;
use crate::visit::visited_item_impl;
use crate::visit::visited_item_trait;
use crate::visit::visited_opt;
use crate::visit::visited_pieces;
use crate::visit::visited_predicate;
use crate::visit::visited_type_param;
use crate::visit::VisitorView;

verus! {

pub open spec fn settled_opt_expr(v: VisitorView, e: Option<Seq<ExprPieceView>>) -> bool {
    match e {
        Some(e) => settled_expr(v, e),
        None => true,
    }
}

pub open spec fn settled_opt(v: VisitorView, t: Option<TypeView>) -> bool {
    match t {
        Some(t) => settled_type(v, t),
        None => true,
    }
}

/// Whether the visitor `v` changes nothing in the bounds of a type
/// parameter or of a `where` predicate, nor the list itself.
pub open spec fn settled_hooked_bounds(v: VisitorView, bounds: Seq<TypeParamBoundView>) -> bool {
    settled_bounds(v, bounds) && bounds_hook(v, bounds) == bounds
}

pub open spec fn settled_type_param(v: VisitorView, p: TypeParamView) -> bool {
    settled_hooked_bounds(v, p.bounds) && settled_opt(v, p.default)
}

pub open spec fn settled_predicate(v: VisitorView, p: PredicateTypeView) -> bool {
    settled_type(v, p.bounded_ty) && settled_hooked_bounds(v, p.bounds)
}

pub open spec fn settled_param(v: VisitorView, p: GenericParamView) -> bool {
    match p {
        GenericParamView::Type(p) => settled_type_param(v, p),
        GenericParamView::Lifetime(_) => true,
        GenericParamView::Const(c) => settled_type(v, c.ty) && settled_opt_expr(v, c.default),
    }
}

pub open spec fn settled_where_predicate(v: VisitorView, p: WherePredicateView) -> bool {
    match p {
        WherePredicateView::Type(p) => settled_predicate(v, p),
        WherePredicateView::Lifetime { .. } => true,
        WherePredicateView::Eq { lhs_ty, rhs_ty } => settled_type(v, lhs_ty) && settled_type(v, rhs_ty),
    }
}

pub open spec fn settled_generics(v: VisitorView, g: GenericsView) -> bool {
    &&& forall|i: int| 0 <= i < g.params.len() ==> settled_param(v, #[trigger] g.params[i])
    &&& match g.where_clause {
        Some(w) => forall|i: int| 0 <= i < w.len() ==> settled_where_predicate(v, #[trigger] w[i]),
        None => true,
    }
}

pub open spec fn settled_piece(v: VisitorView, p: PieceView) -> bool {
    match p {
        PieceView::Tokens(_) => true,
        PieceView::Type(t) => settled_type(v, t),
        PieceView::TypeParam(p) => settled_type_param(v, p),
        PieceView::Predicate(p) => settled_predicate(v, p),
        PieceView::Item(_) => true,
    }
}

pub open spec fn settled_pieces(v: VisitorView, s: Seq<PieceView>) -> bool {
    forall|i: int| 0 <= i < s.len() ==> settled_piece(v, #[trigger] s[i])
}

pub open spec fn settled_trait_item(v: VisitorView, i: TraitItemView) -> bool {
    match i {
        TraitItemView::Type(t) => settled_generics(v, t.generics) && settled_bounds(v, t.bounds) && settled_opt(
            v,
            t.default,
        ),
        TraitItemView::Other(pieces) => settled_pieces(v, pieces),
    }
}

pub open spec fn settled_item_trait(v: VisitorView, t: ItemTraitView) -> bool {
    &&& settled_generics(v, t.generics)
    &&& settled_bounds(v, t.supertraits)
    &&& forall|i: int| 0 <= i < t.items.len() ==> settled_trait_item(v, #[trigger] t.items[i])
}

pub open spec fn settled_impl_item(v: VisitorView, i: ImplItemView) -> bool {
    match i {
        ImplItemView::Type(t) => settled_generics(v, t.generics) && settled_type(v, t.ty),
        ImplItemView::Other(pieces) => settled_pieces(v, pieces),
    }
}

pub open spec fn settled_item_impl(v: VisitorView, t: ItemImplView) -> bool {
    &&& settled_generics(v, t.generics)
    &&& match t.trait_ {
        Some(tr) => settled_path(v, tr.path),
        None => true,
    }
    &&& settled_type(v, t.self_ty)
    &&& forall|i: int| 0 <= i < t.items.len() ==> settled_impl_item(v, #[trigger] t.items[i])
}

proof fn lemma_settled_opt(v: VisitorView, t: Option<TypeView>)
    requires
        settled_opt(v, t),
    ensures
        visited_opt(v, t) == t,
{
    match t {
        Some(t) => lemma_settled_type(v, t),
        None => {},
    }
}

proof fn lemma_settled_type_param(v: VisitorView, p: TypeParamView)
    requires
        settled_type_param(v, p),
    ensures
        visited_type_param(v, p) == p,
{
    lemma_settled_bounds(v, p.bounds);
    lemma_settled_opt(v, p.default);
}

proof fn lemma_settled_predicate(v: VisitorView, p: PredicateTypeView)
    requires
        settled_predicate(v, p),
    ensures
        visited_predicate(v, p) == p,
{
    lemma_settled_bounds(v, p.bounds);
    lemma_settled_type(v, p.bounded_ty);
}

/// The walk of settled generics is the generics.
pub proof fn lemma_settled_generics(v: VisitorView, g: GenericsView)
    requires
        settled_generics(v, g),
    ensures
        visited_generics(v, g) == g,
{
    let out = visited_generics(v, g);
    assert forall|i: int| 0 <= i < g.params.len() implies #[trigger] out.params[i] == g.params[i] by {
        assert(settled_param(v, g.params[i]));
        match g.params[i] {
            GenericParamView::Type(p) => lemma_settled_type_param(v, p),
            GenericParamView::Lifetime(_) => {},
            GenericParamView::Const(c) => {
                lemma_settled_type(v, c.ty);
                match c.default {
                    Some(e) => lemma_settled_expr(v, e),
                    None => {},
                }
            },
        }
    }
    assert(out.params =~= g.params);
    match g.where_clause {
        Some(w) => {
            let out_w = out.where_clause->0;
            assert forall|i: int| 0 <= i < w.len() implies #[trigger] out_w[i] == w[i] by {
                assert(settled_where_predicate(v, w[i]));
                match w[i] {
                    WherePredicateView::Type(p) => lemma_settled_predicate(v, p),
                    WherePredicateView::Lifetime { .. } => {},
                    WherePredicateView::Eq { lhs_ty, rhs_ty } => {
                        lemma_settled_type(v, lhs_ty);
                        lemma_settled_type(v, rhs_ty);
                    },
                }
            }
            assert(out_w =~= w);
        },
        None => {},
    }
}

/// The walk of settled pieces is the pieces.
pub proof fn lemma_settled_pieces(v: VisitorView, s: Seq<PieceView>)
    requires
        settled_pieces(v, s),
    ensures
        visited_pieces(v, s) == s,
{
    assert forall|i: int| 0 <= i < s.len() implies #[trigger] visited_pieces(v, s)[i] == s[i] by {
        assert(settled_piece(v, s[i]));
        match s[i] {
            PieceView::Tokens(_) => {},
            PieceView::Type(t) => lemma_settled_type(v, t),
            PieceView::TypeParam(p) => lemma_settled_type_param(v, p),
            PieceView::Predicate(p) => lemma_settled_predicate(v, p),
            PieceView::Item(_) => {},
        }
    }
    assert(visited_pieces(v, s) =~= s);
}

/// The walk of a settled trait is the trait.
pub proof fn lemma_settled_item_trait(v: VisitorView, t: ItemTraitView)
    requires
        settled_item_trait(v, t),
    ensures
        visited_item_trait(v, t) == t,
{
    lemma_settled_generics(v, t.generics);
    lemma_settled_bounds(v, t.supertraits);
    let out = visited_item_trait(v, t);
    assert forall|i: int| 0 <= i < t.items.len() implies #[trigger] out.items[i] == t.items[i] by {
        assert(settled_trait_item(v, t.items[i]));
        match t.items[i] {
            TraitItemView::Type(a) => {
                lemma_settled_generics(v, a.generics);
                lemma_settled_bounds(v, a.bounds);
                lemma_settled_opt(v, a.default);
            },
            TraitItemView::Other(pieces) => lemma_settled_pieces(v, pieces),
        }
    }
    assert(out.items =~= t.items);
}

/// The walk of a settled impl is the impl.
pub proof fn lemma_settled_item_impl(v: VisitorView, t: ItemImplView)
    requires
        settled_item_impl(v, t),
    ensures
        visited_item_impl(v, t) == t,
{
    lemma_settled_generics(v, t.generics);
    lemma_settled_type(v, t.self_ty);
    match t.trait_ {
        Some(tr) => lemma_settled_path(v, tr.path),
        None => {},
    }
    let out = visited_item_impl(v, t);
    assert forall|i: int| 0 <= i < t.items.len() implies #[trigger] out.items[i] == t.items[i] by {
        assert(settled_impl_item(v, t.items[i]));
        match t.items[i] {
            ImplItemView::Type(a) => {
                lemma_settled_generics(v, a.generics);
                lemma_settled_type(v, a.ty);
            },
            ImplItemView::Other(pieces) => lemma_settled_pieces(v, pieces),
        }
    }
    assert(out.items =~= t.items);
}

proof fn lemma_walk_settles_opt(v: VisitorView, w: VisitorView, t: Option<TypeView>)
    requires
        keeps(v, w, settled_opt(w, t)),
    ensures
        settled_opt(w, visited_opt(v, t)),
{
    match t {
        Some(t) => lemma_walk_settles_type(v, w, t),
        None => {},
    }
}

/// The bounds of a type parameter or `where` predicate are settled once the
/// types in them were walked and the visitor was asked about the list.
proof fn lemma_walk_settles_hooked_bounds(v: VisitorView, w: VisitorView, bounds: Seq<TypeParamBoundView>)
    requires
        keeps(v, w, settled_hooked_bounds(w, bounds)),
    ensures
        settled_hooked_bounds(w, bounds_hook(v, visited_bounds(v, bounds))),
{
    lemma_walk_settles_bounds(v, w, bounds);
    let walked = visited_bounds(v, bounds);
    match v {
        VisitorView::ApplyGat => {
            lemma_handled_bounds_settled(w, walked);
            lemma_handled_bounds_idempotent(walked);
        },
        VisitorView::ReplaceSelf(_) => {},
    }
}

proof fn lemma_walk_settles_type_param(v: VisitorView, w: VisitorView, p: TypeParamView)
    requires
        keeps(v, w, settled_type_param(w, p)),
    ensures
        settled_type_param(w, visited_type_param(v, p)),
{
    lemma_walk_settles_hooked_bounds(v, w, p.bounds);
    lemma_walk_settles_opt(v, w, p.default);
}

proof fn lemma_walk_settles_predicate(v: VisitorView, w: VisitorView, p: PredicateTypeView)
    requires
        keeps(v, w, settled_predicate(w, p)),
    ensures
        settled_predicate(w, visited_predicate(v, p)),
{
    lemma_walk_settles_hooked_bounds(v, w, p.bounds);
    lemma_walk_settles_type(v, w, p.bounded_ty);
}

/// Walked generics are settled.
pub proof fn lemma_walk_settles_generics(v: VisitorView, w: VisitorView, g: GenericsView)
    requires
        keeps(v, w, settled_generics(w, g)),
    ensures
        settled_generics(w, visited_generics(v, g)),
{
    let out = visited_generics(v, g);
    assert forall|i: int| 0 <= i < out.params.len() implies settled_param(w, #[trigger] out.params[i]) by {
        if v != w {
            assert(settled_param(w, g.params[i]));
        }
        match g.params[i] {
            GenericParamView::Type(p) => lemma_walk_settles_type_param(v, w, p),
            GenericParamView::Lifetime(_) => {},
            GenericParamView::Const(c) => {
                lemma_walk_settles_type(v, w, c.ty);
                match c.default {
                    Some(e) => lemma_walk_settles_expr(v, w, e),
                    None => {},
                }
            },
        }
    }
    match g.where_clause {
        Some(predicates) => {
            let out_w = out.where_clause->0;
            assert forall|i: int| 0 <= i < out_w.len() implies settled_where_predicate(w, #[trigger] out_w[i]) by {
                if v != w {
                    assert(settled_where_predicate(w, predicates[i]));
                }
                match predicates[i] {
                    WherePredicateView::Type(p) => lemma_walk_settles_predicate(v, w, p),
                    WherePredicateView::Lifetime { .. } => {},
                    WherePredicateView::Eq { lhs_ty, rhs_ty } => {
                        lemma_walk_settles_type(v, w, lhs_ty);
                        lemma_walk_settles_type(v, w, rhs_ty);
                    },
                }
            }
        },
        None => {},
    }
}

/// Walked pieces are settled.
pub proof fn lemma_walk_settles_pieces(v: VisitorView, w: VisitorView, s: Seq<PieceView>)
    requires
        keeps(v, w, settled_pieces(w, s)),
    ensures
        settled_pieces(w, visited_pieces(v, s)),
{
    assert forall|i: int| 0 <= i < s.len() implies settled_piece(w, #[trigger] visited_pieces(v, s)[i]) by {
        if v != w {
            assert(settled_piece(w, s[i]));
        }
        match s[i] {
            PieceView::Tokens(_) => {},
            PieceView::Type(t) => lemma_walk_settles_type(v, w, t),
            PieceView::TypeParam(p) => lemma_walk_settles_type_param(v, w, p),
            PieceView::Predicate(p) => lemma_walk_settles_predicate(v, w, p),
            PieceView::Item(_) => {},
        }
    }
}

/// A walked trait is settled.
pub proof fn lemma_walk_settles_item_trait(v: VisitorView, w: VisitorView, t: ItemTraitView)
    requires
        keeps(v, w, settled_item_trait(w, t)),
    ensures
        settled_item_trait(w, visited_item_trait(v, t)),
{
    lemma_walk_settles_generics(v, w, t.generics);
    lemma_walk_settles_bounds(v, w, t.supertraits);
    let out = visited_item_trait(v, t);
    assert forall|i: int| 0 <= i < out.items.len() implies settled_trait_item(w, #[trigger] out.items[i]) by {
        if v != w {
            assert(settled_trait_item(w, t.items[i]));
        }
        match t.items[i] {
            TraitItemView::Type(a) => {
                lemma_walk_settles_generics(v, w, a.generics);
                lemma_walk_settles_bounds(v, w, a.bounds);
                lemma_walk_settles_opt(v, w, a.default);
            },
            TraitItemView::Other(pieces) => lemma_walk_settles_pieces(v, w, pieces),
        }
    }
}

/// A walked impl is settled.
pub proof fn lemma_walk_settles_item_impl(v: VisitorView, w: VisitorView, t: ItemImplView)
    requires
        keeps(v, w, settled_item_impl(w, t)),
    ensures
        settled_item_impl(w, visited_item_impl(v, t)),
{
    lemma_walk_settles_generics(v, w, t.generics);
    lemma_walk_settles_type(v, w, t.self_ty);
    match t.trait_ {
        Some(tr) => lemma_walk_settles_path(v, w, tr.path),
        None => {},
    }
    let out = visited_item_impl(v, t);
    assert forall|i: int| 0 <= i < out.items.len() implies settled_impl_item(w, #[trigger] out.items[i]) by {
        if v != w {
            assert(settled_impl_item(w, t.items[i]));
        }
        match t.items[i] {
            ImplItemView::Type(a) => {
                lemma_walk_settles_generics(v, w, a.generics);
                lemma_walk_settles_type(v, w, a.ty);
            },
            ImplItemView::Other(pieces) => lemma_walk_settles_pieces(v, w, pieces),
        }
    }
}

} // verus!
