//! What holds of bounds once the bindings of generic associated types were
//! taken out of them: no such binding is left, so that handling them again
//! changes nothing; and what was settled for a visitor stays settled.
use vstd::prelude::*;
use crate::syntax::GatBindingView;
use crate::gat_bang::as_lifetime_arg;
use crate::gat_bang::auxiliary_bound;
use crate::gat_bang::auxiliary_bounds;
use crate::gat_bang::binding;
use crate::gat_bang::binding_in;
use crate::gat_bang::bound_auxiliaries;
use crate::gat_bang::bound_without_bindings;
use crate::gat_bang::handled_bounds;
use crate::gat_bang::has_angle_args;
use crate::gat_bang::last_args;
use crate::gat_bang::lifetime_arg;
use crate::gat_bang::no_binding;
use crate::gat_bang::type_or_const_arg;
use crate::gat_bang::without_bindings;
use crate::seqs::lemma_filter_all;
use crate::seqs::lemma_filter_keeps;
use crate::seqs::lemma_filter_map_keeps;
use crate::seqs::lemma_filter_map_none;
use crate::seqs::lemma_flatten_empty;
use crate::seqs::lemma_flatten_keeps;
use crate::settled::settled_arg;
use crate::settled::settled_bound;
use crate::settled::settled_bounds;
use crate::settled::settled_path;
use crate::settled::settled_segment;
use crate::settled::settled_type;
use crate::syntax::GenericArgumentView;
use crate::syntax::TraitBoundView;
use crate::syntax::TypeParamBoundView;
use crate::visit::VisitorView;

verus! {

/// Whether no argument of the last segment of `t` is a binding.
pub open spec fn binding_free(t: TraitBoundView) -> bool {
    has_angle_args(t) ==> forall|i: int| 0 <= i < last_args(t).len() ==> binding_in(#[trigger] last_args(t)[i]) is None
}

pub open spec fn bound_binding_free(b: TypeParamBoundView) -> bool {
    match b {
        TypeParamBoundView::Trait(t) => binding_free(t),
        TypeParamBoundView::Lifetime(_) => true,
    }
}

/// A bound without bindings stays as it is and gets no auxiliary bound.
pub proof fn lemma_binding_free(t: TraitBoundView)
    requires
        binding_free(t),
    ensures
        without_bindings(t) == t,
        auxiliary_bounds(t) == Seq::<TypeParamBoundView>::empty(),
{
    if has_angle_args(t) {
        lemma_filter_all(last_args(t), no_binding());
        lemma_filter_map_none(last_args(t), binding());
        assert(t.path.segments.drop_last().push(t.path.segments.last()) =~= t.path.segments);
        assert(auxiliary_bounds(t) =~= Seq::<TypeParamBoundView>::empty());
    }
}

/// No binding is left in a bound once they were taken out.
pub proof fn lemma_without_bindings_is_free(t: TraitBoundView)
    ensures
        binding_free(without_bindings(t)),
{
    if has_angle_args(t) {
        lemma_filter_keeps(last_args(t), no_binding(), |a: GenericArgumentView| true);
    }
}

/// An auxiliary bound holds no binding of a generic associated type.
pub proof fn lemma_auxiliary_bound_is_free(t: TraitBoundView, b: GatBindingView)
    requires
        has_angle_args(t),
        binding_free(t),
    ensures
        binding_free(auxiliary_bound(t, b)),
{
    let args = last_args(auxiliary_bound(t, b));
    lemma_filter_keeps(last_args(t), lifetime_arg(), no_binding());
    lemma_filter_keeps(last_args(t), type_or_const_arg(), no_binding());
    let first = last_args(t).filter(lifetime_arg());
    let second = b.lifetimes.map_values(as_lifetime_arg());
    let third = last_args(t).filter(type_or_const_arg());
    assert forall|i: int| 0 <= i < args.len() implies binding_in(#[trigger] args[i]) is None by {
        if i < first.len() {
            assert(args[i] == first[i]);
            assert(no_binding()(first[i]));
        } else if i < first.len() + second.len() {
            assert(args[i] == second[i - first.len()]);
        } else if i < first.len() + second.len() + third.len() {
            assert(args[i] == third[i - first.len() - second.len()]);
            assert(no_binding()(third[i - first.len() - second.len()]));
        } else {
        }
    }
}

/// Every bound of a handled list is free of bindings.
pub proof fn lemma_handled_bounds_are_free(bounds: Seq<TypeParamBoundView>)
    ensures
        forall|i: int|
            0 <= i < handled_bounds(bounds).len() ==> bound_binding_free(#[trigger] handled_bounds(bounds)[i]),
{
    let stripped = bounds.map_values(|b: TypeParamBoundView| bound_without_bindings(b));
    let parts = bounds.map_values(|b: TypeParamBoundView| bound_auxiliaries(b));
    let free = |b: TypeParamBoundView| bound_binding_free(b);
    assert forall|j: int, k: int| 0 <= j < parts.len() && 0 <= k < parts[j].len() implies free(
        #[trigger] parts[j][k],
    ) by {
        match bounds[j] {
            TypeParamBoundView::Trait(t) => {
                lemma_without_bindings_is_free(t);
                let made = last_args(t).filter_map(binding());
                lemma_auxiliary_bound_is_free(without_bindings(t), made[k]);
            },
            TypeParamBoundView::Lifetime(_) => {},
        }
    }
    lemma_flatten_keeps(parts, free);
    assert forall|i: int| 0 <= i < handled_bounds(bounds).len() implies bound_binding_free(
        #[trigger] handled_bounds(bounds)[i],
    ) by {
        if i < stripped.len() {
            match bounds[i] {
                TypeParamBoundView::Trait(t) => lemma_without_bindings_is_free(t),
                TypeParamBoundView::Lifetime(_) => {},
            }
        } else {
            assert(handled_bounds(bounds)[i] == parts.flatten()[i - stripped.len()]);
            assert(free(parts.flatten()[i - stripped.len()]));
        }
    }
}

/// Bounds that are free of bindings are handled already.
pub proof fn lemma_free_bounds_are_handled(bounds: Seq<TypeParamBoundView>)
    requires
        forall|i: int| 0 <= i < bounds.len() ==> bound_binding_free(#[trigger] bounds[i]),
    ensures
        handled_bounds(bounds) == bounds,
{
    let stripped = bounds.map_values(|b: TypeParamBoundView| bound_without_bindings(b));
    let parts = bounds.map_values(|b: TypeParamBoundView| bound_auxiliaries(b));
    assert forall|i: int| 0 <= i < bounds.len() implies (#[trigger] parts[i]).len() == 0 by {
        match bounds[i] {
            TypeParamBoundView::Trait(t) => lemma_binding_free(t),
            TypeParamBoundView::Lifetime(_) => {},
        }
    }
    assert forall|i: int| 0 <= i < bounds.len() implies #[trigger] stripped[i] == bounds[i] by {
        match bounds[i] {
            TypeParamBoundView::Trait(t) => lemma_binding_free(t),
            TypeParamBoundView::Lifetime(_) => {},
        }
    }
    lemma_flatten_empty(parts);
    assert(stripped =~= bounds);
    assert(handled_bounds(bounds) =~= bounds);
}

/// Handling bounds a second time changes nothing.
pub proof fn lemma_handled_bounds_idempotent(bounds: Seq<TypeParamBoundView>)
    ensures
        handled_bounds(handled_bounds(bounds)) == handled_bounds(bounds),
{
    lemma_handled_bounds_are_free(bounds);
    lemma_free_bounds_are_handled(handled_bounds(bounds));
}

/// Where the path of `t` is settled, so is the path of `t` without its
/// bindings.
pub proof fn lemma_without_bindings_settled(w: VisitorView, t: TraitBoundView)
    requires
        settled_path(w, t.path),
    ensures
        settled_path(w, without_bindings(t).path),
{
    if has_angle_args(t) {
        let s = without_bindings(t);
        assert(settled_segment(w, t.path.segments[t.path.segments.len() - 1]));
        lemma_filter_keeps(last_args(t), no_binding(), |a: GenericArgumentView| settled_arg(w, a));
        assert forall|i: int| 0 <= i < s.path.segments.len() implies settled_segment(
            w,
            #[trigger] s.path.segments[i],
        ) by {
            if i < s.path.segments.len() - 1 {
                assert(s.path.segments[i] == t.path.segments[i]);
            } else {
                let args = last_args(s);
                assert forall|k: int| 0 <= k < args.len() implies settled_arg(w, #[trigger] args[k]) by {
                    let q = |a: GenericArgumentView| settled_arg(w, a);
                    assert(q(last_args(t).filter(no_binding())[k]));
                }
            }
        }
    }
}

/// Where the path of `t` is settled, so is every auxiliary bound of a
/// binding whose value is settled.
pub proof fn lemma_auxiliary_bound_settled(w: VisitorView, t: TraitBoundView, b: GatBindingView)
    requires
        has_angle_args(t),
        settled_path(w, t.path),
        settled_type(w, b.ty),
    ensures
        settled_path(w, auxiliary_bound(t, b).path),
{
    let a = auxiliary_bound(t, b);
    let q = |a: GenericArgumentView| settled_arg(w, a);
    assert(settled_segment(w, t.path.segments[t.path.segments.len() - 1]));
    lemma_filter_keeps(last_args(t), lifetime_arg(), q);
    lemma_filter_keeps(last_args(t), type_or_const_arg(), q);
    let first = last_args(t).filter(lifetime_arg());
    let second = b.lifetimes.map_values(as_lifetime_arg());
    let third = last_args(t).filter(type_or_const_arg());
    assert forall|i: int| 0 <= i < a.path.segments.len() implies settled_segment(w, #[trigger] a.path.segments[i]) by {
        if i < a.path.segments.len() - 1 {
            assert(a.path.segments[i] == t.path.segments[i]);
        } else {
            let args = last_args(a);
            assert forall|k: int| 0 <= k < args.len() implies settled_arg(w, #[trigger] args[k]) by {
                if k < first.len() {
                    assert(args[k] == first[k]);
                    assert(q(first[k]));
                } else if k < first.len() + second.len() {
                    assert(args[k] == second[k - first.len()]);
                } else if k < first.len() + second.len() + third.len() {
                    assert(args[k] == third[k - first.len() - second.len()]);
                    assert(q(third[k - first.len() - second.len()]));
                } else {
                }
            }
        }
    }
}

/// Handling settled bounds leaves them settled.
pub proof fn lemma_handled_bounds_settled(w: VisitorView, bounds: Seq<TypeParamBoundView>)
    requires
        settled_bounds(w, bounds),
    ensures
        settled_bounds(w, handled_bounds(bounds)),
{
    let stripped = bounds.map_values(|b: TypeParamBoundView| bound_without_bindings(b));
    let parts = bounds.map_values(|b: TypeParamBoundView| bound_auxiliaries(b));
    let q = |b: TypeParamBoundView| settled_bound(w, b);
    assert forall|j: int, k: int| 0 <= j < parts.len() && 0 <= k < parts[j].len() implies q(
        #[trigger] parts[j][k],
    ) by {
        assert(settled_bound(w, bounds[j]));
        match bounds[j] {
            TypeParamBoundView::Trait(t) => {
                lemma_without_bindings_settled(w, t);
                let made = last_args(t).filter_map(binding());
                let value_settled = |b: GatBindingView| settled_type(w, b.ty);
                assert(settled_segment(w, t.path.segments[t.path.segments.len() - 1]));
                assert forall|i: int|
                    0 <= i < last_args(t).len() && binding()(#[trigger] last_args(t)[i]) is Some implies value_settled(
                    binding()(last_args(t)[i])->0,
                ) by {
                    assert(settled_arg(w, last_args(t)[i]));
                }
                lemma_filter_map_keeps(last_args(t), binding(), value_settled);
                assert(value_settled(made[k]));
                lemma_auxiliary_bound_settled(w, without_bindings(t), made[k]);
            },
            TypeParamBoundView::Lifetime(_) => {},
        }
    }
    lemma_flatten_keeps(parts, q);
    assert forall|i: int| 0 <= i < handled_bounds(bounds).len() implies settled_bound(
        w,
        #[trigger] handled_bounds(bounds)[i],
    ) by {
        if i < stripped.len() {
            assert(settled_bound(w, bounds[i]));
            match bounds[i] {
                TypeParamBoundView::Trait(t) => lemma_without_bindings_settled(w, t),
                TypeParamBoundView::Lifetime(_) => {},
            }
        } else {
            assert(handled_bounds(bounds)[i] == parts.flatten()[i - stripped.len()]);
            assert(q(parts.flatten()[i - stripped.len()]));
        }
    }
}

} // verus!
