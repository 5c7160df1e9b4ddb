//! Lifetime-generic associated types, emulated by rewriting syntax.
//!
//! A trait that declares `type Item<'next> where Self: 'next;` is turned
//! into a trait with one auxiliary supertrait per such associated type, and
//! every `<Type as Trait>::Item<'a>` is turned into a path through that
//! auxiliary trait. The library works on a model of the syntax tree made of
//! plain values; every transformation is a verified function whose contract
//! is stated over the views of that model.
#![allow(nonstandard_style)]

pub mod adjugate;
pub mod error;
pub mod gat_attr;
pub mod gat_bang;
pub mod handled;
pub mod item;
pub mod laws;
pub mod seqs;
pub mod settled;
pub mod settled_item;
pub mod settles;
pub mod syntax;
pub mod utils;
pub mod visit;

use vstd::prelude::*;
use crate::error::DiagnosticView;
use crate::error::Error;
use crate::gat_attr::attr_expansion;
use crate::gat_attr::Expansion;
use crate::gat_bang::gat_expansion;
use crate::gat_bang::Input;
use crate::item::Item;
use crate::utils::reported;
use crate::utils::unwrap;

verus! {

/// The name under which the attribute reports its errors.
pub open spec fn attribute_name() -> Seq<char> {
    "#[::nougat::gat]"@
}

/// The name under which the macro for paths reports its errors.
pub open spec fn macro_name() -> Seq<char> {
    "::nougat::Gat!"@
}

/// The attribute `#[gat]`: expands the annotated trait, impl or import,
/// or reports under the attribute's name the rule that the item breaks.
pub fn gat(attrs: &Vec<String>, input: Item) -> (r: Result<Expansion, Error>)
    ensures
        match attr_expansion(attrs.deep_view(), input@) {
            Ok(expansion) => r matches Ok(out) && out@ == expansion,
            Err(violation) => r matches Err(error) && error@ == seq![
                reported(attribute_name(), violation.diagnostic()),
            ],
        },
{
    let result = match gat_attr::gat(attrs, input) {
        Ok(expansion) => Ok(expansion),
        Err(violation) => Err(Error::from_violation(violation)),
    };
    let ghost before = result;
    let r = unwrap("#[::nougat::gat]", result);
    proof {
        if let Err(error) = before {
            assert(error@.map_values(|d: DiagnosticView| reported(attribute_name(), d)) =~= seq![
                reported(attribute_name(), error@[0]),
            ]);
        }
    }
    r
}

/// The macro `Gat!`: rewrites a qualified path, the bounds of an
/// `impl Trait`, or every type of an item, or reports under the macro's name
/// the rule that the path breaks.
pub fn Gat(input: Input) -> (r: Result<Input, Error>)
    ensures
        match gat_expansion(input@) {
            Ok(expansion) => r matches Ok(out) && out@ == expansion,
            Err(violation) => r matches Err(error) && error@ == seq![
                reported(macro_name(), violation.diagnostic()),
            ],
        },
{
    let result = match gat_bang::Gat(input) {
        Ok(expansion) => Ok(expansion),
        Err(violation) => Err(Error::from_violation(violation)),
    };
    let ghost before = result;
    let r = unwrap("::nougat::Gat!", result);
    proof {
        if let Err(error) = before {
            assert(error@.map_values(|d: DiagnosticView| reported(macro_name(), d)) =~= seq![
                reported(macro_name(), error@[0]),
            ]);
        }
    }
    r
}

} // verus!
