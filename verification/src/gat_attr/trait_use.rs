//! The transformation of an import of a trait: beside it, an import of the
//! auxiliary traits of the associated types that the annotation names.
use vstd::prelude::*;
use crate::error::Place;
use crate::error::Rule;
use crate::error::Violation;
use crate::gat_bang::combine_trait_name_and_assoc_type;
use crate::gat_bang::combined_name;
use crate::item::ItemUse;
use crate::item::ItemUseView;
use crate::item::UseTree;
use crate::item::UseTreeView;
use crate::item::Visibility;
use crate::item::VisibilityView;

verus! {

/// The one name that an import brings in: `ident`, or `ident as rename`.
#[derive(Debug, PartialEq, Eq)]
pub enum NameType {
    Name { ident: String },
    Rename { ident: String, rename: String },
}

pub enum NameTypeView {
    Name { ident: Seq<char> },
    Rename { ident: Seq<char>, rename: Seq<char> },
}

impl View for NameType {
    type V = NameTypeView;

    open spec fn view(&self) -> NameTypeView {
        match self {
            NameType::Name { ident } => NameTypeView::Name { ident: ident@ },
            NameType::Rename { ident, rename } => NameTypeView::Rename { ident: ident@, rename: rename@ },
        }
    }
}

pub open spec fn opt_string_view(s: Option<String>) -> Option<Seq<char>> {
    match s {
        Some(s) => Some(s@),
        None => None,
    }
}

/// `name`, or `name as rename`, in the braces of the companion import.
#[derive(Debug, PartialEq, Eq)]
pub struct CompanionName {
    pub name: String,
    pub rename: Option<String>,
}

pub struct CompanionNameView {
    pub name: Seq<char>,
    pub rename: Option<Seq<char>>,
}

impl View for CompanionName {
    type V = CompanionNameView;

    open spec fn view(&self) -> CompanionNameView {
        CompanionNameView { name: self.name@, rename: opt_string_view(self.rename) }
    }
}

/// `vis use a::b::{names};`
#[derive(Debug, PartialEq, Eq)]
pub struct Companion {
    pub vis: Visibility,
    pub path: Vec<String>,
    pub names: Vec<CompanionName>,
}

pub struct CompanionView {
    pub vis: VisibilityView,
    pub path: Seq<Seq<char>>,
    pub names: Seq<CompanionNameView>,
}

impl View for Companion {
    type V = CompanionView;

    open spec fn view(&self) -> CompanionView {
        CompanionView {
            vis: self.vis@,
            path: self.path.deep_view(),
            names: self.names@.map_values(|n: CompanionName| n@),
        }
    }
}

/// What an import expands to: the import itself, then its companion.
#[derive(Debug, PartialEq, Eq)]
pub struct UseExpansion {
    pub item: ItemUse,
    pub companion: Companion,
}

pub struct UseExpansionView {
    pub item: ItemUseView,
    pub companion: CompanionView,
}

impl View for UseExpansion {
    type V = UseExpansionView;

    open spec fn view(&self) -> UseExpansionView {
        UseExpansionView { item: self.item@, companion: self.companion@ }
    }
}

/// The segments in front of the one name that `tree` imports, after those
/// of `accumulated`, and that name. A group is accepted where it holds one
/// name, plain or renamed, and nothing else; `*` is not.
pub open spec fn use_path_and_name(accumulated: Seq<Seq<char>>, tree: UseTreeView) -> Result<
    (Seq<Seq<char>>, NameTypeView),
    Violation,
>
    decreases tree,
{
    match tree {
        UseTreeView::Path { ident, tree } => use_path_and_name(accumulated.push(ident), *tree),
        UseTreeView::Name { ident } => Ok((accumulated, NameTypeView::Name { ident })),
        UseTreeView::Rename { ident, rename } => Ok((accumulated, NameTypeView::Rename { ident, rename })),
        UseTreeView::Group(items) => if items.len() == 1 && items[0] is Rename {
            Ok(
                (
                    accumulated,
                    NameTypeView::Rename { ident: items[0]->Rename_ident, rename: items[0]->Rename_rename },
                ),
            )
        } else if items.len() == 1 && items[0] is Name {
            Ok((accumulated, NameTypeView::Name { ident: items[0]->Name_ident }))
        } else {
            Err(Violation::at(Rule::ExpectedSingleImport, Place::CallSite))
        },
        UseTreeView::Glob => Err(Violation::at(Rule::ExpectedSingleImport, Place::CallSite)),
    }
}

/// Walks down an import to the one name that it brings in, and collects
/// the segments on the way behind those of `accumulated_path`.
pub fn find_use_path_and_name(accumulated_path: Vec<String>, use_tree: &UseTree) -> (r: Result<
    (Vec<String>, NameType),
    Violation,
>)
    ensures
        match use_path_and_name(accumulated_path.deep_view(), use_tree@) {
            Ok((path, name)) => r matches Ok(out) && out.0.deep_view() == path && out.1@ == name,
            Err(violation) => r == Err::<(Vec<String>, NameType), Violation>(violation),
        },
    decreases use_tree,
{
    let mut accumulated_path = accumulated_path;
    match use_tree {
        UseTree::Path { ident, tree } => {
            let ghost before = accumulated_path.deep_view();
            accumulated_path.push(ident.clone());
            assert(accumulated_path.deep_view() =~= before.push(ident@));
            find_use_path_and_name(accumulated_path, tree)
        },
        UseTree::Name { ident } => Ok((accumulated_path, NameType::Name { ident: ident.clone() })),
        UseTree::Rename { ident, rename } => Ok(
            (accumulated_path, NameType::Rename { ident: ident.clone(), rename: rename.clone() }),
        ),
        UseTree::Group(items) => {
            if items.len() == 1 {
                assert(use_tree@->Group_0[0] == items[0]@);
                match &items[0] {
                    UseTree::Rename { ident, rename } => {
                        return Ok((accumulated_path, NameType::Rename { ident: ident.clone(), rename: rename.clone() }));
                    },
                    UseTree::Name { ident } => {
                        return Ok((accumulated_path, NameType::Name { ident: ident.clone() }));
                    },
                    _ => {},
                }
            }
            Err(Violation::new(Rule::ExpectedSingleImport, Place::CallSite))
        },
        UseTree::Glob => Err(Violation::new(Rule::ExpectedSingleImport, Place::CallSite)),
    }
}

/// The auxiliary trait of the associated type `assoc_type` as the import
/// names it: under the trait's own name and, where the import renames the
/// trait, renamed alike.
pub open spec fn companion_name(name: NameTypeView, assoc_type: Seq<char>) -> CompanionNameView {
    match name {
        NameTypeView::Name { ident } => CompanionNameView { name: combined_name(ident, assoc_type), rename: None },
        NameTypeView::Rename { ident, rename } => CompanionNameView {
            name: combined_name(ident, assoc_type),
            rename: Some(combined_name(rename, assoc_type)),
        },
    }
}

/// What the import `item` expands to for the associated types
/// `assoc_types`: the companion has the visibility of `item`, the path in
/// front of its one name, and one name for each associated type.
pub open spec fn use_expansion(item: ItemUseView, assoc_types: Seq<Seq<char>>) -> Result<
    UseExpansionView,
    Violation,
> {
    match use_path_and_name(Seq::empty(), item.tree) {
        Err(violation) => Err(violation),
        Ok((path, name)) => Ok(
            UseExpansionView {
                item,
                companion: CompanionView {
                    vis: item.vis,
                    path,
                    names: assoc_types.map_values(|assoc_type: Seq<char>| companion_name(name, assoc_type)),
                },
            },
        ),
    }
}

/// Expands an annotated import.
pub fn handle(assoc_type_use: ItemUse, assoc_types: &Vec<String>) -> (r: Result<UseExpansion, Violation>)
    ensures
        match use_expansion(assoc_type_use@, assoc_types.deep_view()) {
            Ok(expansion) => r matches Ok(out) && out@ == expansion,
            Err(violation) => r == Err::<UseExpansion, Violation>(violation),
        },
{
    let none: Vec<String> = Vec::new();
    assert(none.deep_view() =~= Seq::empty());
    let (path, name) = match find_use_path_and_name(none, &assoc_type_use.tree) {
        Ok(found) => found,
        Err(violation) => {
            return Err(violation);
        },
    };
    let mut names: Vec<CompanionName> = Vec::new();
    let mut i: usize = 0;
    while i < assoc_types.len()
        invariant
            i <= assoc_types.len(),
            names.len() == i,
            forall|j: int| 0 <= j < i ==> names[j]@ == companion_name(name@, assoc_types[j]@),
        decreases assoc_types.len() - i,
    {
        let assoc_type = assoc_types[i].as_str();
        let entry = match &name {
            NameType::Name { ident } => CompanionName {
                name: combine_trait_name_and_assoc_type(ident.as_str(), assoc_type),
                rename: None,
            },
            NameType::Rename { ident, rename } => CompanionName {
                name: combine_trait_name_and_assoc_type(ident.as_str(), assoc_type),
                rename: Some(combine_trait_name_and_assoc_type(rename.as_str(), assoc_type)),
            },
        };
        names.push(entry);
        i += 1;
    }
    assert(names@.map_values(|n: CompanionName| n@) =~= assoc_types.deep_view().map_values(
        |assoc_type: Seq<char>| companion_name(name@, assoc_type),
    ));
    let vis = assoc_type_use.vis.copy();
    Ok(UseExpansion { item: assoc_type_use, companion: Companion { vis, path, names } })
}

} // verus!
