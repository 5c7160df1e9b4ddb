//! What holds of the transformations taken together.
use vstd::prelude::*;
use crate::gat_attr::is_self_assoc;
use crate::error::Violation;
use crate::gat_attr::self_keyword;
use crate::gat_attr::LGatView;
use crate::gat_attr::trait_def::current_trait;
use crate::gat_attr::trait_def::forwarded_arg;
use crate::gat_attr::trait_def::normalized_trait;
use crate::gat_attr::trait_def::supertrait;
use crate::gat_attr::trait_def::trait_expansion;
use crate::gat_attr::trait_def::trait_lgats;
use crate::gat_attr::trait_impl::impl_expansion;
use crate::gat_attr::trait_impl::impl_lgats;
use crate::gat_attr::trait_impl::implemented_trait;
use crate::gat_attr::trait_impl::normalized_impl;
use crate::gat_bang::combined_name;
use crate::gat_bang::rewritten_path;
use crate::gat_bang::synthetic_assoc;
use crate::item::GenericParamView;
use crate::item::ItemImplView;
use crate::item::ItemTraitView;
use crate::item::PieceView;
use crate::item::TraitItemView;
use crate::syntax::GenericArgumentView;
use crate::syntax::PathArgumentsView;
use crate::syntax::PathSegmentView;
use crate::syntax::TypePathView;
use crate::settled::lemma_settled_type;
use crate::settled::settled_arg;
use crate::settled::settled_inside;
use crate::settled::settled_path;
use crate::settled::settled_type_path;
use crate::visit::type_hook;
use crate::settled::settled_segment;
use crate::settled::settled_type;
use crate::settled_item::lemma_settled_item_impl;
use crate::settled_item::lemma_settled_item_trait;
use crate::settled_item::lemma_settled_pieces;
use crate::settled_item::lemma_walk_settles_item_impl;
use crate::settled_item::lemma_walk_settles_item_trait;
use crate::settled_item::lemma_walk_settles_pieces;
use crate::settles::lemma_walk_settles_type;
use crate::settles::thorough;
use crate::syntax::PathView;
use crate::syntax::TypeView;
use crate::visit::visited_item_impl;
use crate::visit::visited_item_trait;
use crate::visit::visited_pieces;
use crate::visit::visited_type;
use crate::visit::VisitorView;

verus! {

/// The lifetime-generic associated types that the trait `t` declares.
pub open spec fn declared_lgats(t: ItemTraitView) -> Result<Seq<LGatView>, Violation> {
    trait_lgats(normalized_trait(t).items)
}

/// The lifetime-generic associated types that the impl `i` defines.
pub open spec fn implemented_lgats(i: ItemImplView) -> Result<Seq<LGatView>, Violation> {
    impl_lgats(normalized_impl(i, implemented_trait(i)->Ok_0).items)
}

/// A trait and an impl of it agree on the name of the auxiliary trait of an
/// associated type: where the `j`-th lifetime-generic associated type of
/// the trait `t` and the `k`-th of the impl `i` have the same name, and the
/// path of the trait that `i` implements ends in the name of `t`, the
/// auxiliary trait that `t` declares, the supertrait that `t` gets and the
/// last segment of the trait that the auxiliary impl implements all bear the
/// name of `t`, `__`, and the name of the associated type.
pub proof fn lemma_trait_and_impl_agree_on_names(t: ItemTraitView, i: ItemImplView, j: int, k: int)
    requires
        trait_expansion(t) is Ok,
        impl_expansion(i) is Ok,
        implemented_trait(i)->Ok_0.segments.last().ident == t.ident,
        0 <= j < declared_lgats(t)->Ok_0.len(),
        0 <= k < implemented_lgats(i)->Ok_0.len(),
        declared_lgats(t)->Ok_0[j].ident == implemented_lgats(i)->Ok_0[k].ident,
    ensures
        ({
            let name = combined_name(t.ident, declared_lgats(t)->Ok_0[j].ident);
            let declared = trait_expansion(t)->Ok_0;
            let implemented = impl_expansion(i)->Ok_0;
            &&& declared.auxiliaries[j].ident == name
            &&& declared.item.supertraits[normalized_trait(t).supertraits.len() + j]->Trait_0.path.segments.last().ident
                == name
            &&& implemented.auxiliaries[k].trait_.segments.last().ident == name
        }),
{
    let n = normalized_trait(t);
    let lgats = declared_lgats(t)->Ok_0;
    assert(n.ident == t.ident);
    assert(supertrait(n, lgats[j])->Trait_0.path.segments.last().ident == combined_name(t.ident, lgats[j].ident));
}

/// `<Ty as Trait<G>>::Assoc<L>` becomes `<Ty as Trait__Assoc<G, L>>::T`: a
/// path with a qualifier and `as`, whose trait has the arguments `g` and is
/// followed by one segment with the arguments `l`, is rewritten. The
/// qualifier and the segments in front of the trait stay; the trait's
/// segment gets the combined name and the arguments `g` followed by `l`; the
/// last segment is `T` without arguments.
pub proof fn lemma_trait_arguments_come_first(p: TypePathView, g: Seq<GenericArgumentView>, l: Seq<GenericArgumentView>)
    requires
        p.qself is Some,
        p.qself->0.as_token,
        p.qself->0.position >= 1,
        p.path.segments.len() == p.qself->0.position + 1,
        p.path.segments[p.qself->0.position - 1].arguments matches PathArgumentsView::AngleBracketed { args, .. }
            && args == g,
        p.path.segments.last().arguments matches PathArgumentsView::AngleBracketed { args, .. } && args == l,
    ensures
        rewritten_path(p) matches Ok(q) && {
            let pos = p.qself->0.position as int;
            &&& q.qself == p.qself
            &&& q.path.leading_colon == p.path.leading_colon
            &&& q.path.segments.len() == pos + 1
            &&& forall|i: int| 0 <= i < pos - 1 ==> q.path.segments[i] == p.path.segments[i]
            &&& q.path.segments[pos - 1].ident == combined_name(
                p.path.segments[pos - 1].ident,
                p.path.segments[pos].ident,
            )
            &&& q.path.segments[pos - 1].arguments matches PathArgumentsView::AngleBracketed { args, .. } && args == g
                + l
            &&& q.path.segments[pos] == (PathSegmentView {
                ident: synthetic_assoc(),
                arguments: PathArgumentsView::Absent,
            })
        },
{
}

/// The walk does not enter an item that stands inside what it walks:
/// whatever the visitor, the pieces stay as many, and a piece that is an
/// item, or plain text, comes out as it went in.
pub proof fn lemma_inner_items_are_left_alone(v: VisitorView, pieces: Seq<PieceView>, i: int)
    requires
        0 <= i < pieces.len(),
        pieces[i] is Item || pieces[i] is Tokens,
    ensures
        visited_pieces(v, pieces).len() == pieces.len(),
        visited_pieces(v, pieces)[i] == pieces[i],
{
}

/// A type after `Self::Assoc<..>` was qualified in it by the path
/// `current` and the paths through generic associated types were rewritten.
pub open spec fn normalized_type(current: PathView, t: TypeView) -> TypeView {
    visited_type(VisitorView::ApplyGat, visited_type(VisitorView::ReplaceSelf(current), t))
}

/// Pieces after `Self::Assoc<..>` was qualified in them by the path
/// `current` and the paths through generic associated types were rewritten.
pub open spec fn normalized_pieces(current: PathView, pieces: Seq<PieceView>) -> Seq<PieceView> {
    visited_pieces(VisitorView::ApplyGat, visited_pieces(VisitorView::ReplaceSelf(current), pieces))
}

/// Qualifying `Self` and rewriting the paths a second time changes nothing
/// in a type, where the path of the trait has a segment, does not start
/// with `Self` and holds no `Self::Assoc<..>` itself.
pub proof fn lemma_normalizing_twice_type(current: PathView, t: TypeView)
    requires
        thorough(VisitorView::ReplaceSelf(current)),
    ensures
        normalized_type(current, normalized_type(current, t)) == normalized_type(current, t),
{
    let qualify = VisitorView::ReplaceSelf(current);
    let rewrite = VisitorView::ApplyGat;
    let qualified = visited_type(qualify, t);
    let once = visited_type(rewrite, qualified);
    lemma_walk_settles_type(qualify, qualify, t);
    lemma_walk_settles_type(rewrite, qualify, qualified);
    lemma_walk_settles_type(rewrite, rewrite, qualified);
    lemma_settled_type(qualify, once);
    lemma_settled_type(rewrite, once);
}

/// The same of the pieces of an item: of its types, and of the bounds of
/// its type parameters and `where` predicates.
pub proof fn lemma_normalizing_twice_pieces(current: PathView, pieces: Seq<PieceView>)
    requires
        thorough(VisitorView::ReplaceSelf(current)),
    ensures
        normalized_pieces(current, normalized_pieces(current, pieces)) == normalized_pieces(current, pieces),
{
    let qualify = VisitorView::ReplaceSelf(current);
    let rewrite = VisitorView::ApplyGat;
    let qualified = visited_pieces(qualify, pieces);
    let once = visited_pieces(rewrite, qualified);
    lemma_walk_settles_pieces(qualify, qualify, pieces);
    lemma_walk_settles_pieces(rewrite, qualify, qualified);
    lemma_walk_settles_pieces(rewrite, rewrite, qualified);
    lemma_settled_pieces(qualify, once);
    lemma_settled_pieces(rewrite, once);
}

/// The path by which a trait names itself finishes its work in one walk,
/// unless the trait is named `Self`.
pub proof fn lemma_current_trait_is_thorough(t: ItemTraitView)
    requires
        t.ident != self_keyword(),
    ensures
        thorough(VisitorView::ReplaceSelf(current_trait(t))),
{
    let current = current_trait(t);
    let v = VisitorView::ReplaceSelf(current);
    let params = t.generics.params;
    if params.len() > 0 {
        let args = current.segments[0].arguments->AngleBracketed_args;
        assert forall|i: int| 0 <= i < args.len() implies settled_arg(v, #[trigger] args[i]) by {
            assert(args[i] == forwarded_arg(params[i]));
            match args[i] {
                GenericArgumentView::Type(ty) => {
                    let p = ty->Path_0;
                    assert(p.path.segments.last().arguments is Absent);
                    assert(settled_segment(v, p.path.segments[0]));
                    assert(settled_path(v, p.path));
                    assert(!is_self_assoc(p));
                    assert(settled_type_path(v, p));
                    assert(settled_inside(v, ty));
                    assert(type_hook(v, ty) == ty);
                    assert(settled_type(v, ty));
                },
                _ => {},
            }
        }
    }
    assert(settled_segment(v, current.segments[0]));
}

/// Walking a trait changes neither its name nor the names of its
/// parameters, so the path by which it names itself stays the same.
pub proof fn lemma_current_trait_survives(v: VisitorView, t: ItemTraitView)
    ensures
        current_trait(visited_item_trait(v, t)) == current_trait(t),
{
    let out = visited_item_trait(v, t);
    let before = t.generics.params.map_values(|p: GenericParamView| forwarded_arg(p));
    let after = out.generics.params.map_values(|p: GenericParamView| forwarded_arg(p));
    assert(after =~= before);
    assert(current_trait(out).segments =~= current_trait(t).segments);
}

/// Normalizing a trait a second time changes nothing, unless the trait is
/// named `Self`.
pub proof fn lemma_normalizing_twice_trait(t: ItemTraitView)
    requires
        t.ident != self_keyword(),
    ensures
        normalized_trait(normalized_trait(t)) == normalized_trait(t),
{
    let qualify = VisitorView::ReplaceSelf(current_trait(t));
    let rewrite = VisitorView::ApplyGat;
    let qualified = visited_item_trait(qualify, t);
    let once = visited_item_trait(rewrite, qualified);
    lemma_current_trait_is_thorough(t);
    lemma_current_trait_survives(qualify, t);
    lemma_current_trait_survives(rewrite, qualified);
    lemma_walk_settles_item_trait(qualify, qualify, t);
    lemma_walk_settles_item_trait(rewrite, qualify, qualified);
    lemma_walk_settles_item_trait(rewrite, rewrite, qualified);
    lemma_settled_item_trait(qualify, once);
    lemma_settled_item_trait(rewrite, once);
}

/// Normalizing an impl a second time by the same path changes nothing,
/// where that path has a segment, does not start with `Self` and holds no
/// `Self::Assoc<..>` itself.
pub proof fn lemma_normalizing_twice_impl(i: ItemImplView, path: PathView)
    requires
        thorough(VisitorView::ReplaceSelf(path)),
    ensures
        normalized_impl(normalized_impl(i, path), path) == normalized_impl(i, path),
{
    let qualify = VisitorView::ReplaceSelf(path);
    let rewrite = VisitorView::ApplyGat;
    let qualified = visited_item_impl(qualify, i);
    let once = visited_item_impl(rewrite, qualified);
    lemma_walk_settles_item_impl(qualify, qualify, i);
    lemma_walk_settles_item_impl(rewrite, qualify, qualified);
    lemma_walk_settles_item_impl(rewrite, rewrite, qualified);
    lemma_settled_item_impl(qualify, once);
    lemma_settled_item_impl(rewrite, once);
}

/// An item inside a method of a trait is not touched when the trait is
/// normalized: the item at `k` stays an item of as many pieces, and its
/// piece at `i` stays as it is where it is an item or plain text.
pub proof fn lemma_items_inside_a_trait_are_left_alone(t: ItemTraitView, k: int, i: int)
    requires
        0 <= k < t.items.len(),
        t.items[k] matches TraitItemView::Other(pieces) && 0 <= i < pieces.len() && (pieces[i] is Item
            || pieces[i] is Tokens),
    ensures
        normalized_trait(t).items.len() == t.items.len(),
        normalized_trait(t).items[k] matches TraitItemView::Other(pieces) && pieces.len()
            == t.items[k]->Other_0.len() && pieces[i] == t.items[k]->Other_0[i],
{
}

} // verus!
