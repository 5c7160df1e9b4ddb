//! The walk settles what it walks: after a visitor has walked a tree, it
//! finds nothing more to change in it; and what was settled for the visitor
//! that qualifies `Self` stays so when the paths are rewritten.
use vstd::prelude::*;
use crate::gat_attr::is_self_assoc;
use crate::gat_attr::qualified_self;
use crate::gat_attr::self_keyword;
use crate::gat_attr::self_type;
use crate::gat_bang::handled_bounds;
use crate::gat_bang::rewritten_path;
use crate::handled::lemma_handled_bounds_idempotent;
use crate::handled::lemma_handled_bounds_settled;
use crate::settled::settled_arg;
use crate::settled::settled_args;
use crate::settled::settled_bound;
use crate::settled::settled_bounds;
use crate::settled::settled_expr;
use crate::settled::settled_fn_args;
use crate::settled::settled_inside;
use crate::settled::settled_opt_type;
use crate::settled::settled_path;
use crate::settled::settled_segment;
use crate::settled::settled_type;
use crate::settled::settled_type_path;
use crate::settled::settled_types;
use crate::syntax::BareFnArgView;
use crate::syntax::ExprPieceView;
use crate::syntax::GenericArgumentView;
use crate::syntax::PathArgumentsView;
use crate::syntax::PathSegmentView;
use crate::syntax::PathView;
use crate::syntax::TypeBareFnView;
use crate::syntax::TypeParamBoundView;
use crate::syntax::TypePathView;
use crate::syntax::TypeView;
use crate::visit::type_hook;
use crate::visit::visited_arg;
use crate::visit::visited_args;
use crate::visit::visited_bound;
use crate::visit::visited_bounds;
use crate::visit::visited_expr;
use crate::visit::visited_fn_args;
use crate::visit::visited_opt_type;
use crate::visit::visited_path;
use crate::visit::visited_segment;
use crate::visit::visited_type;
use crate::visit::visited_type_path;
use crate::visit::visited_types;
use crate::visit::VisitorView;

verus! {

/// Whether a visitor can be trusted to finish its work in one walk. The
/// visitor that rewrites paths always can. The one that qualifies `Self`
/// can where the path of its trait has a segment, does not start with
/// `Self`, and holds itself no `Self::Assoc<..>` left to qualify.
pub open spec fn thorough(v: VisitorView) -> bool {
    match v {
        VisitorView::ApplyGat => true,
        VisitorView::ReplaceSelf(current) => current.segments.len() > 0 && current.segments[0].ident
            != self_keyword() && settled_path(v, current),
    }
}

/// Whether what `w` has settled stays settled under a walk of `v` over `t`:
/// the two are one visitor, or `v` rewrites paths in a tree settled for `w`.
pub open spec fn keeps(v: VisitorView, w: VisitorView, settled: bool) -> bool {
    thorough(v) && thorough(w) && (v == w || (v is ApplyGat && settled))
}

/// The walk changes neither the names of the segments of a path nor the
/// kind of their arguments, so a path looks like `Self::Assoc<..>` after it
/// if and only if it did before.
proof fn lemma_same_shape(v: VisitorView, p: TypePathView)
    ensures
        is_self_assoc(visited_type_path(v, p)) == is_self_assoc(p),
{
    reveal_with_fuel(visited_type_path, 3);
    let q = visited_type_path(v, p);
    if p.path.segments.len() > 0 {
        assert(q.path.segments[0] == visited_segment(v, p.path.segments[0]));
        assert(q.path.segments.last() == visited_segment(v, p.path.segments.last()));
    }
}

/// A rewritten path is settled for every thorough visitor for which the
/// parts of the path were.
proof fn lemma_rewritten_is_settled(w: VisitorView, p: TypePathView)
    requires
        thorough(w),
        settled_type_path(w, p),
        rewritten_path(p) is Ok,
    ensures
        settled_type(w, TypeView::Path(rewritten_path(p)->Ok_0)),
{
    let q = rewritten_path(p)->Ok_0;
    let pos = p.qself->0.position as int;
    assert(settled_segment(w, p.path.segments[pos]));
    assert(settled_segment(w, p.path.segments[pos - 1]));
    assert forall|i: int| 0 <= i < q.path.segments.len() implies settled_segment(w, #[trigger] q.path.segments[i]) by {
        if i < pos - 1 {
            assert(q.path.segments[i] == p.path.segments[i]);
        } else if i == pos - 1 {
            let args = q.path.segments[i].arguments->AngleBracketed_args;
            let assoc_args = p.path.segments[pos].arguments->AngleBracketed_args;
            assert forall|k: int| 0 <= k < args.len() implies settled_arg(w, #[trigger] args[k]) by {
                match p.path.segments[pos - 1].arguments {
                    PathArgumentsView::AngleBracketed { args: trait_args, .. } => {
                        if k < trait_args.len() {
                            assert(args[k] == trait_args[k]);
                        } else {
                            assert(args[k] == assoc_args[k - trait_args.len()]);
                        }
                    },
                    _ => {
                        assert(args[k] == assoc_args[k]);
                    },
                }
            }
        } else {
        }
    }
    assert(settled_type_path(w, q));
    assert(q.path.segments.last().arguments is Absent);
    match w {
        VisitorView::ApplyGat => {
            assert(rewritten_path(q) is Err);
        },
        VisitorView::ReplaceSelf(current) => {
            assert(!is_self_assoc(q));
        },
    }
}

/// What the visitor makes of a type whose parts are settled is settled.
proof fn lemma_hook_settles(v: VisitorView, w: VisitorView, n: TypeView)
    requires
        keeps(v, w, type_hook(w, n) == n),
        settled_inside(w, n),
    ensures
        settled_type(w, type_hook(v, n)),
{
    match v {
        VisitorView::ApplyGat => match n {
            TypeView::Path(p) => {
                assert(settled_type_path(w, p));
                if rewritten_path(p) is Ok {
                    lemma_rewritten_is_settled(w, p);
                } else {
                    assert(type_hook(v, n) == n);
                    assert(type_hook(w, n) == n);
                }
            },
            TypeView::ImplTrait(bounds) => {
                assert(settled_bounds(w, bounds));
                lemma_handled_bounds_settled(w, bounds);
                lemma_handled_bounds_idempotent(bounds);
                let out = TypeView::ImplTrait(handled_bounds(bounds));
                assert(type_hook(v, n) == out);
                assert(type_hook(w, out) == out);
                assert(settled_inside(w, out));
            },
            _ => {
                assert(type_hook(v, n) == n);
                assert(type_hook(w, n) == n);
            },
        },
        VisitorView::ReplaceSelf(current) => match n {
            TypeView::Path(p) => {
                assert(settled_type_path(w, p));
                assert(settled_path(w, p.path));
                if is_self_assoc(p) {
                    let q = qualified_self(current, p);
                    assert(q.path.segments[0] == current.segments[0]);
                    assert(!is_self_assoc(q));
                    let own = self_type()->Path_0;
                    assert(!is_self_assoc(own));
                    assert(settled_segment(w, own.path.segments[0]));
                    assert(settled_path(w, own.path));
                    assert(settled_type_path(w, own));
                    assert(settled_inside(w, self_type()));
                    assert(type_hook(w, self_type()) == self_type());
                    assert(settled_type(w, self_type()));
                    assert(settled_segment(w, p.path.segments[p.path.segments.len() - 1]));
                    assert forall|i: int| 0 <= i < q.path.segments.len() implies settled_segment(
                        w,
                        #[trigger] q.path.segments[i],
                    ) by {
                        if i < current.segments.len() {
                            assert(q.path.segments[i] == current.segments[i]);
                        } else {
                        }
                    }
                    assert(settled_path(w, q.path));
                    assert(settled_type_path(w, q));
                    assert(settled_inside(w, TypeView::Path(q)));
                    assert(type_hook(w, TypeView::Path(q)) == TypeView::Path(q));
                } else {
                }
            },
            _ => {},
        },
    }
}

/// A type that a visitor has walked is settled for it; and a type settled
/// for the visitor that qualifies `Self` is so still after the paths in it
/// were rewritten.
pub proof fn lemma_walk_settles_type(v: VisitorView, w: VisitorView, t: TypeView)
    requires
        keeps(v, w, settled_type(w, t)),
    ensures
        settled_type(w, visited_type(v, t)),
    decreases t,
{
    let n = match t {
        TypeView::Array { elem, len } => {
            lemma_walk_settles_type(v, w, *elem);
            lemma_walk_settles_expr(v, w, len);
            TypeView::Array { elem: Box::new(visited_type(v, *elem)), len: visited_expr(v, len) }
        },
        TypeView::BareFn(f) => {
            lemma_walk_settles_fn_args(v, w, f.inputs);
            lemma_walk_settles_opt_type(v, w, f.output);
            TypeView::BareFn(
                TypeBareFnView {
                    prefix: f.prefix,
                    inputs: visited_fn_args(v, f.inputs),
                    variadic: f.variadic,
                    output: visited_opt_type(v, f.output),
                },
            )
        },
        TypeView::Group(elem) => {
            lemma_walk_settles_type(v, w, *elem);
            TypeView::Group(Box::new(visited_type(v, *elem)))
        },
        TypeView::ImplTrait(bounds) => {
            lemma_walk_settles_bounds(v, w, bounds);
            TypeView::ImplTrait(visited_bounds(v, bounds))
        },
        TypeView::Infer => t,
        TypeView::Macro(_) => t,
        TypeView::Never => t,
        TypeView::Paren(elem) => {
            lemma_walk_settles_type(v, w, *elem);
            TypeView::Paren(Box::new(visited_type(v, *elem)))
        },
        TypeView::Path(p) => {
            lemma_walk_settles_type_path(v, w, p);
            lemma_same_shape(v, p);
            TypeView::Path(visited_type_path(v, p))
        },
        TypeView::Ptr { mutable, elem } => {
            lemma_walk_settles_type(v, w, *elem);
            TypeView::Ptr { mutable, elem: Box::new(visited_type(v, *elem)) }
        },
        TypeView::Reference { lifetime, mutable, elem } => {
            lemma_walk_settles_type(v, w, *elem);
            TypeView::Reference { lifetime, mutable, elem: Box::new(visited_type(v, *elem)) }
        },
        TypeView::Slice(elem) => {
            lemma_walk_settles_type(v, w, *elem);
            TypeView::Slice(Box::new(visited_type(v, *elem)))
        },
        TypeView::TraitObject { dyn_token, bounds } => {
            lemma_walk_settles_bounds(v, w, bounds);
            TypeView::TraitObject { dyn_token, bounds: visited_bounds(v, bounds) }
        },
        TypeView::Tuple(elems) => {
            lemma_walk_settles_types(v, w, elems);
            TypeView::Tuple(visited_types(v, elems))
        },
        TypeView::Verbatim(_) => t,
    };
    assert(visited_type(v, t) == type_hook(v, n));
    assert(settled_inside(w, n));
    if v != w {
        assert(type_hook(w, n) == n);
    }
    lemma_hook_settles(v, w, n);
}

pub proof fn lemma_walk_settles_fn_args(v: VisitorView, w: VisitorView, s: Seq<BareFnArgView>)
    requires
        keeps(v, w, settled_fn_args(w, s)),
    ensures
        settled_fn_args(w, visited_fn_args(v, s)),
    decreases s,
{
    assert forall|i: int| 0 <= i < s.len() implies settled_type(w, (#[trigger] visited_fn_args(v, s)[i]).ty) by {
        if v != w {
            assert(settled_type(w, s[i].ty));
        }
        lemma_walk_settles_type(v, w, s[i].ty);
    }
}

pub proof fn lemma_walk_settles_opt_type(v: VisitorView, w: VisitorView, t: Option<Box<TypeView>>)
    requires
        keeps(v, w, settled_opt_type(w, t)),
    ensures
        settled_opt_type(w, visited_opt_type(v, t)),
    decreases t,
{
    match t {
        Some(t) => lemma_walk_settles_type(v, w, *t),
        None => {},
    }
}

pub proof fn lemma_walk_settles_types(v: VisitorView, w: VisitorView, s: Seq<TypeView>)
    requires
        keeps(v, w, settled_types(w, s)),
    ensures
        settled_types(w, visited_types(v, s)),
    decreases s,
{
    assert forall|i: int| 0 <= i < s.len() implies settled_type(w, #[trigger] visited_types(v, s)[i]) by {
        if v != w {
            assert(settled_type(w, s[i]));
        }
        lemma_walk_settles_type(v, w, s[i]);
    }
}

pub proof fn lemma_walk_settles_type_path(v: VisitorView, w: VisitorView, p: TypePathView)
    requires
        keeps(v, w, settled_type_path(w, p)),
    ensures
        settled_type_path(w, visited_type_path(v, p)),
    decreases p,
{
    match p.qself {
        Some(q) => lemma_walk_settles_type(v, w, *q.ty),
        None => {},
    }
    lemma_walk_settles_path(v, w, p.path);
}

pub proof fn lemma_walk_settles_path(v: VisitorView, w: VisitorView, p: PathView)
    requires
        keeps(v, w, settled_path(w, p)),
    ensures
        settled_path(w, visited_path(v, p)),
    decreases p,
{
    assert forall|i: int| 0 <= i < p.segments.len() implies settled_segment(
        w,
        #[trigger] visited_path(v, p).segments[i],
    ) by {
        if v != w {
            assert(settled_segment(w, p.segments[i]));
        }
        lemma_walk_settles_segment(v, w, p.segments[i]);
    }
}

pub proof fn lemma_walk_settles_segment(v: VisitorView, w: VisitorView, s: PathSegmentView)
    requires
        keeps(v, w, settled_segment(w, s)),
    ensures
        settled_segment(w, visited_segment(v, s)),
    decreases s,
{
    match s.arguments {
        PathArgumentsView::Absent => {},
        PathArgumentsView::AngleBracketed { args, .. } => lemma_walk_settles_args(v, w, args),
        PathArgumentsView::Parenthesized { inputs, output } => {
            lemma_walk_settles_types(v, w, inputs);
            lemma_walk_settles_opt_type(v, w, output);
        },
    }
}

pub proof fn lemma_walk_settles_args(v: VisitorView, w: VisitorView, s: Seq<GenericArgumentView>)
    requires
        keeps(v, w, settled_args(w, s)),
    ensures
        settled_args(w, visited_args(v, s)),
    decreases s,
{
    assert forall|i: int| 0 <= i < s.len() implies settled_arg(w, #[trigger] visited_args(v, s)[i]) by {
        if v != w {
            assert(settled_arg(w, s[i]));
        }
        lemma_walk_settles_arg(v, w, s[i]);
    }
}

pub proof fn lemma_walk_settles_arg(v: VisitorView, w: VisitorView, a: GenericArgumentView)
    requires
        keeps(v, w, settled_arg(w, a)),
    ensures
        settled_arg(w, visited_arg(v, a)),
    decreases a,
{
    match a {
        GenericArgumentView::Lifetime(_) => {},
        GenericArgumentView::Type(t) => lemma_walk_settles_type(v, w, t),
        GenericArgumentView::Binding { ty, .. } => lemma_walk_settles_type(v, w, ty),
        GenericArgumentView::Constraint { bounds, .. } => lemma_walk_settles_bounds(v, w, bounds),
        GenericArgumentView::Const(e) => lemma_walk_settles_expr(v, w, e),
        GenericArgumentView::GatBinding(b) => lemma_walk_settles_type(v, w, b.ty),
    }
}

pub proof fn lemma_walk_settles_expr(v: VisitorView, w: VisitorView, s: Seq<ExprPieceView>)
    requires
        keeps(v, w, settled_expr(w, s)),
    ensures
        settled_expr(w, visited_expr(v, s)),
    decreases s,
{
    assert forall|i: int| 0 <= i < s.len() implies ((#[trigger] visited_expr(v, s)[i]) matches ExprPieceView::Type(
        t,
    ) ==> settled_type(w, t)) by {
        match s[i] {
            ExprPieceView::Type(t) => {
                if v != w {
                    assert(settled_type(w, t));
                }
                lemma_walk_settles_type(v, w, t);
            },
            _ => {},
        }
    }
}

pub proof fn lemma_walk_settles_bounds(v: VisitorView, w: VisitorView, s: Seq<TypeParamBoundView>)
    requires
        keeps(v, w, settled_bounds(w, s)),
    ensures
        settled_bounds(w, visited_bounds(v, s)),
    decreases s,
{
    assert forall|i: int| 0 <= i < s.len() implies settled_bound(w, #[trigger] visited_bounds(v, s)[i]) by {
        if v != w {
            assert(settled_bound(w, s[i]));
        }
        lemma_walk_settles_bound(v, w, s[i]);
    }
}

pub proof fn lemma_walk_settles_bound(v: VisitorView, w: VisitorView, b: TypeParamBoundView)
    requires
        keeps(v, w, settled_bound(w, b)),
    ensures
        settled_bound(w, visited_bound(v, b)),
    decreases b,
{
    match b {
        TypeParamBoundView::Trait(t) => lemma_walk_settles_path(v, w, t.path),
        TypeParamBoundView::Lifetime(_) => {},
    }
}

} // verus!
