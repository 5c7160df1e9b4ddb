//! The rewriting of every path through a generic associated type that an
//! item holds.
use vstd::prelude::*;
use crate::item::Item;
use crate::item::ItemView;
use crate::visit::visit_item_impl;
use crate::visit::visit_item_trait;
use crate::visit::visit_pieces;
use crate::visit::visited_item_impl;
use crate::visit::visited_item_trait;
use crate::visit::visited_pieces;
use crate::visit::Visitor;
use crate::visit::VisitorView;

verus! {

/// The item with each of its types rewritten where that can be done, from
/// the innermost outwards, and with the bounds of its type parameters and
/// `where` predicates handled. An import holds no type and stays as it is.
pub open spec fn adjugated(input: ItemView) -> ItemView {
    match input {
        ItemView::Trait(t) => ItemView::Trait(visited_item_trait(VisitorView::ApplyGat, t)),
        ItemView::Impl(t) => ItemView::Impl(visited_item_impl(VisitorView::ApplyGat, t)),
        ItemView::Use(_) => input,
        ItemView::Other(pieces) => ItemView::Other(visited_pieces(VisitorView::ApplyGat, pieces)),
    }
}

/// Rewrites every path through a generic associated type that `input`
/// holds, and leaves what cannot be rewritten.
pub fn adjugate(input: Item) -> (r: Item)
    ensures
        r@ == adjugated(input@),
{
    let visitor = Visitor::ApplyGat;
    match input {
        Item::Trait(t) => Item::Trait(visit_item_trait(&visitor, &t)),
        Item::Impl(t) => Item::Impl(visit_item_impl(&visitor, &t)),
        Item::Use(t) => Item::Use(t),
        Item::Other(pieces) => Item::Other(visit_pieces(&visitor, &pieces)),
    }
}

} // verus!
