//! The transformation of an impl: each lifetime-generic associated type
//! leaves the impl and becomes an impl of its auxiliary trait.
use vstd::prelude::*;
use crate::error::Place;
use crate::error::Rule;
use crate::error::Violation;
use crate::gat_attr::parsed_generics;
use crate::gat_attr::trait_def::lifetime_params;
use crate::gat_attr::trait_def::with_lifetime_params;
use crate::gat_attr::LGat;
use crate::gat_attr::LGatView;
use crate::gat_bang::as_lifetime_arg;
use crate::gat_bang::combine_trait_name_and_assoc_type;
use crate::gat_bang::combined_name;
use crate::gat_bang::concat_args;
use crate::item::copy_opt;
use crate::item::copy_where_clause;
use crate::item::impl_items_view;
use crate::item::opt_view;
use crate::item::Generics;
use crate::item::GenericsView;
use crate::item::ImplItem;
use crate::item::ImplItemType;
use crate::item::ImplItemTypeView;
use crate::item::ImplItemView;
use crate::item::ItemImpl;
use crate::item::ItemImplView;
use crate::item::Visibility;
use crate::syntax::arg_view;
use crate::syntax::args_view;
use crate::syntax::copy_path;
use crate::syntax::copy_segment;
use crate::syntax::copy_strings;
use crate::syntax::copy_type;
use crate::syntax::lifetimes_view;
use crate::syntax::path_view;
use crate::syntax::GenericArgument;
use crate::syntax::GenericArgumentView;
use crate::syntax::Lifetime;
use crate::syntax::Path;
use crate::syntax::PathArguments;
use crate::syntax::PathArgumentsView;
use crate::syntax::PathSegment;
use crate::syntax::PathSegmentView;
use crate::syntax::PathView;
use crate::syntax::Type;
use crate::syntax::TypeView;
use crate::visit::visit_item_impl;
use crate::visit::visited_item_impl;
use crate::gat_attr::collect_lgats;
use crate::gat_attr::collected_lgats;
use crate::gat_attr::reading_view;
use crate::gat_attr::readings_view;
use crate::seqs::lemma_filter_keeps;
use crate::utils::lemma_marked_views;
use crate::utils::marked;
use crate::utils::DrainFilterExt;
use crate::visit::Visitor;
use crate::visit::VisitorView;

verus! {

/// `#[attrs] impl<generics> trait_ for self_ty where .. { type T = value; }`
#[derive(Debug, PartialEq, Eq)]
pub struct AuxiliaryImpl {
    pub attrs: Vec<String>,
    pub generics: Generics,
    pub trait_: Path,
    pub self_ty: Type,
    pub value: Option<Type>,
}

pub struct AuxiliaryImplView {
    pub attrs: Seq<Seq<char>>,
    pub generics: GenericsView,
    pub trait_: PathView,
    pub self_ty: TypeView,
    pub value: Option<TypeView>,
}

impl View for AuxiliaryImpl {
    type V = AuxiliaryImplView;

    open spec fn view(&self) -> AuxiliaryImplView {
        AuxiliaryImplView {
            attrs: self.attrs.deep_view(),
            generics: self.generics@,
            trait_: self.trait_@,
            self_ty: self.self_ty@,
            value: opt_view(self.value),
        }
    }
}

/// What an impl expands to: the impls of the auxiliary traits, then the
/// impl itself.
#[derive(Debug, PartialEq, Eq)]
pub struct ImplExpansion {
    pub auxiliaries: Vec<AuxiliaryImpl>,
    pub item: ItemImpl,
}

pub struct ImplExpansionView {
    pub auxiliaries: Seq<AuxiliaryImplView>,
    pub item: ItemImplView,
}

impl View for ImplExpansion {
    type V = ImplExpansionView;

    open spec fn view(&self) -> ImplExpansionView {
        ImplExpansionView { auxiliaries: self.auxiliaries@.map_values(|a: AuxiliaryImpl| a@), item: self.item@ }
    }
}

/// The associated type of an impl as a lifetime-generic associated type:
/// the violation of its visibility, if it has one; else that of `default`;
/// else that of its generics.
pub open spec fn lgat_of_impl_item(t: ImplItemTypeView) -> Result<LGatView, Violation> {
    if !(t.vis is Inherited) {
        Err(Violation::at(Rule::NotSupported, Place::Visibility))
    } else if t.defaultness {
        Err(Violation::at(Rule::NotSupported, Place::Defaultness))
    } else {
        match parsed_generics(t.generics) {
            Err(violation) => Err(violation),
            Ok((generic_lifetimes, super_types)) => Ok(
                LGatView {
                    attrs: t.attrs,
                    ident: t.ident,
                    bounds: Seq::empty(),
                    generic_lifetimes,
                    super_types,
                    value: Some(t.ty),
                },
            ),
        }
    }
}

impl LGat {
    /// Reads an associated type of an impl as a lifetime-generic associated
    /// type, or says what is not supported in it.
    pub fn from_trait_impl(assoc_ty: ImplItemType) -> (r: Result<LGat, Violation>)
        ensures
            match lgat_of_impl_item(assoc_ty@) {
                Ok(lgat) => r matches Ok(out) && out@ == lgat,
                Err(violation) => r == Err::<LGat, Violation>(violation),
            },
    {
        let ImplItemType { attrs, vis, defaultness, ident, generics, ty } = assoc_ty;
        match vis {
            Visibility::Inherited => {},
            Visibility::Explicit(_) => {
                return Err(Violation::new(Rule::NotSupported, Place::Visibility));
            },
        }
        if defaultness {
            return Err(Violation::new(Rule::NotSupported, Place::Defaultness));
        }
        let (generic_lifetimes, super_types) = match LGat::parse_generics(generics) {
            Ok(parsed) => parsed,
            Err(violation) => {
                return Err(violation);
            },
        };
        let lgat = LGat { attrs, ident, bounds: Vec::new(), generic_lifetimes, super_types, value: Some(ty) };
        assert(lgat@.bounds =~= Seq::empty());
        Ok(lgat)
    }
}

/// The path of the trait that `t` implements, if `t` is `impl Trait for`.
pub open spec fn implemented_trait(t: ItemImplView) -> Result<PathView, Violation> {
    match t.trait_ {
        None => Err(Violation::at(Rule::ExpectedTraitFor, Place::SelfType)),
        Some(tr) => if tr.negative {
            Err(Violation::at(Rule::NotSupported, Place::Negative))
        } else if tr.path.segments.len() == 0 {
            Err(Violation::at(Rule::ExpectedTraitFor, Place::SelfType))
        } else {
            Ok(tr.path)
        },
    }
}

/// The impl after `Self::Assoc<..>` was qualified in it by `path` and the
/// paths through generic associated types were rewritten.
pub open spec fn normalized_impl(t: ItemImplView, path: PathView) -> ItemImplView {
    visited_item_impl(VisitorView::ApplyGat, visited_item_impl(VisitorView::ReplaceSelf(path), t))
}

/// Whether an item of an impl is an associated type with generic
/// parameters.
pub open spec fn is_lgat_impl_item(i: ImplItemView) -> bool {
    i matches ImplItemView::Type(t) && t.generics.params.len() > 0
}

pub open spec fn no_lgat_impl_item() -> spec_fn(ImplItemView) -> bool {
    |i: ImplItemView| !is_lgat_impl_item(i)
}

pub open spec fn lgat_impl_item() -> spec_fn(ImplItemView) -> bool {
    |i: ImplItemView| is_lgat_impl_item(i)
}

/// What reading an associated type that was taken out of a body gives.
pub open spec fn impl_reading() -> spec_fn(ImplItemView) -> Result<LGatView, Violation> {
    |i: ImplItemView| lgat_of_impl_item(i->Type_0)
}

/// The lifetime-generic associated types of a body, or the violation of
/// the first of them that has one, with its index among them.
pub open spec fn impl_lgats(items: Seq<ImplItemView>) -> Result<Seq<LGatView>, Violation> {
    let readings = items.filter(lgat_impl_item()).map_values(impl_reading());
    collected_lgats(readings, readings.len())
}

/// The path of the auxiliary trait of `l`, for the path `path` of the
/// trait: the last segment gets the combined name, and the lifetimes of `l`
/// in front of its arguments.
pub open spec fn auxiliary_path(path: PathView, l: LGatView) -> PathView
    recommends
        path.segments.len() > 0,
        !(path.segments.last().arguments is Parenthesized),
{
    let last = path.segments.last();
    let lifetimes = l.generic_lifetimes.map_values(as_lifetime_arg());
    PathView {
        leading_colon: path.leading_colon,
        segments: path.segments.drop_last().push(
            PathSegmentView {
                ident: combined_name(last.ident, l.ident),
                arguments: match last.arguments {
                    PathArgumentsView::AngleBracketed { colon2_token, args } => PathArgumentsView::AngleBracketed {
                        colon2_token,
                        args: lifetimes + args,
                    },
                    _ => PathArgumentsView::AngleBracketed { colon2_token: false, args: lifetimes },
                },
            },
        ),
    }
}

/// The impl of the auxiliary trait of `l`, for the impl `t` of the trait at
/// `path`: its parameters are the lifetimes of `l` and the parameters of
/// `t`.
pub open spec fn auxiliary_impl(t: ItemImplView, path: PathView, l: LGatView) -> AuxiliaryImplView {
    AuxiliaryImplView {
        attrs: l.attrs,
        generics: GenericsView {
            params: lifetime_params(l.generic_lifetimes) + t.generics.params,
            where_clause: t.generics.where_clause,
        },
        trait_: auxiliary_path(path, l),
        self_ty: t.self_ty,
        value: l.value,
    }
}

/// What the impl `t` expands to, or the first violation: that of its
/// header, else the first among its lifetime-generic associated types, else
/// that of the arguments of the trait, which must not stand in round
/// brackets where there is such an associated type.
pub open spec fn impl_expansion(t: ItemImplView) -> Result<ImplExpansionView, Violation> {
    match implemented_trait(t) {
        Err(violation) => Err(violation),
        Ok(path) => {
            let n = normalized_impl(t, path);
            match impl_lgats(n.items) {
                Err(violation) => Err(violation),
                Ok(lgats) => if lgats.len() > 0 && path.segments.last().arguments is Parenthesized {
                    Err(Violation::at(Rule::ExpectedAngleBrackets, Place::TraitArguments))
                } else {
                    Ok(
                        ImplExpansionView {
                            auxiliaries: lgats.map_values(|l: LGatView| auxiliary_impl(n, path, l)),
                            item: ItemImplView {
                                attrs: n.attrs,
                                defaultness: n.defaultness,
                                unsafety: n.unsafety,
                                generics: n.generics,
                                trait_: n.trait_,
                                self_ty: n.self_ty,
                                items: n.items.filter(no_lgat_impl_item()),
                            },
                        },
                    )
                },
            }
        },
    }
}

fn lifetime_args_of(lifetimes: &Vec<Lifetime>) -> (r: Vec<GenericArgument>)
    ensures
        args_view(r) == lifetimes_view(*lifetimes).map_values(as_lifetime_arg()),
{
    let mut out: Vec<GenericArgument> = Vec::new();
    let mut i: usize = 0;
    while i < lifetimes.len()
        invariant
            i <= lifetimes.len(),
            out.len() == i,
            forall|j: int| 0 <= j < i ==> out[j]@ == GenericArgumentView::Lifetime(lifetimes[j]@),
        decreases lifetimes.len() - i,
    {
        let arg = GenericArgument::Lifetime(lifetimes[i].copy());
        proof {
            reveal_with_fuel(arg_view, 2);
        }
        out.push(arg);
        i += 1;
    }
    assert(args_view(out) =~= lifetimes_view(*lifetimes).map_values(as_lifetime_arg()));
    out
}

fn auxiliary_path_for(path: &Path, lgat: &LGat) -> (r: Path)
    requires
        path.segments.len() > 0,
    ensures
        r@ == auxiliary_path(path@, lgat@),
{
    proof {
        reveal_with_fuel(path_view, 2);
    }
    let n = path.segments.len();
    let last = &path.segments[n - 1];
    assert(path@.segments.last() == last@);
    let lifetimes = lifetime_args_of(&lgat.generic_lifetimes);
    let arguments = match &last.arguments {
        PathArguments::AngleBracketed { colon2_token, args } => PathArguments::AngleBracketed {
            colon2_token: *colon2_token,
            args: concat_args(&lifetimes, args),
        },
        _ => PathArguments::AngleBracketed { colon2_token: false, args: lifetimes },
    };
    let segment = PathSegment {
        ident: combine_trait_name_and_assoc_type(last.ident.as_str(), lgat.ident.as_str()),
        arguments,
    };
    let mut out: Vec<PathSegment> = Vec::new();
    let mut i: usize = 0;
    while i < n - 1
        invariant
            i <= n - 1,
            n == path.segments.len(),
            out.len() == i,
            forall|j: int| 0 <= j < i ==> out[j]@ == path.segments[j]@,
        decreases n - 1 - i,
    {
        out.push(copy_segment(&path.segments[i]));
        i += 1;
    }
    out.push(segment);
    let r = Path { leading_colon: path.leading_colon, segments: out };
    assert(r@.segments =~= auxiliary_path(path@, lgat@).segments);
    r
}

/// Reads each of the associated types that were taken out of a body.
fn read_lgats(taken: Vec<ImplItem>) -> (r: Vec<Result<LGat, Violation>>)
    requires
        forall|i: int| 0 <= i < taken.len() ==> is_lgat_impl_item(#[trigger] impl_items_view(taken)[i]),
    ensures
        readings_view(r) == impl_items_view(taken).map_values(impl_reading()),
{
    let ghost all = impl_items_view(taken);
    let n = taken.len();
    let mut source = taken;
    let mut readings: Vec<Result<LGat, Violation>> = Vec::new();
    let mut i: usize = 0;
    assert(impl_items_view(source) =~= all.skip(0));
    while i < n
        invariant
            i <= n,
            n == all.len(),
            forall|j: int| 0 <= j < n ==> is_lgat_impl_item(#[trigger] all[j]),
            impl_items_view(source) == all.skip(i as int),
            readings.len() == i,
            forall|j: int| 0 <= j < i ==> reading_view(#[trigger] readings[j]) == impl_reading()(all[j]),
        decreases n - i,
    {
        let ghost source_before = source@;
        assert(impl_items_view(source).len() == source.len());
        assert(impl_items_view(source)[0] == source@[0]@);
        let item = source.remove(0);
        proof {
            assert(item@ == all[i as int]);
            assert forall|j: int| 0 <= j < source@.len() implies #[trigger] impl_items_view(source)[j] == all.skip(
                i + 1,
            )[j] by {
                assert(source@[j] == source_before[j + 1]);
                assert(all.skip(i as int)[j + 1] == source_before[j + 1]@);
            }
            assert(impl_items_view(source) =~= all.skip(i + 1));
        }
        let reading = match item {
            ImplItem::Type(assoc_ty) => LGat::from_trait_impl(assoc_ty),
            ImplItem::Other(_) => unreached(),
        };
        readings.push(reading);
        i += 1;
    }
    assert(readings_view(readings) =~= all.map_values(impl_reading()));
    readings
}

/// Takes the lifetime-generic associated types out of a body and reads
/// them.
fn extract_lgats(items: Vec<ImplItem>) -> (r: Result<(Vec<ImplItem>, Vec<LGat>), Violation>)
    ensures
        match impl_lgats(impl_items_view(items)) {
            Ok(lgats) => r matches Ok(out) && impl_items_view(out.0) == impl_items_view(items).filter(no_lgat_impl_item())
                && out.1@.map_values(|l: LGat| l@) == lgats,
            Err(violation) => r == Err::<(Vec<ImplItem>, Vec<LGat>), Violation>(violation),
        },
{
    let ghost all = items@;
    let mut kept = items;
    let is_lgat = |item: &ImplItem| -> (b: bool)
        ensures
            b == is_lgat_impl_item(item@),
        {
            match item {
                ImplItem::Type(assoc_ty) => assoc_ty.generics.params.len() > 0,
                ImplItem::Other(_) => false,
            }
        };
    let taken = kept.drain_filter(is_lgat);
    proof {
        let marks = choose|marks: Seq<bool>|
            {
                &&& marks.len() == all.len()
                &&& forall|i: int| 0 <= i < marks.len() ==> call_ensures(is_lgat, (&#[trigger] all[i],), marks[i])
                &&& kept@ == marked(all, marks, false)
                &&& taken@ == marked(all, marks, true)
            };
        lemma_marked_views(all, marks, true, lgat_impl_item());
        lemma_marked_views(all, marks, false, no_lgat_impl_item());
        assert(impl_items_view(items) =~= all.map_values(|x: ImplItem| x@));
        assert(impl_items_view(taken) =~= taken@.map_values(|x: ImplItem| x@));
        assert(impl_items_view(kept) =~= kept@.map_values(|x: ImplItem| x@));
        lemma_filter_keeps(impl_items_view(items), lgat_impl_item(), |i: ImplItemView| true);
        assert forall|i: int| 0 <= i < taken.len() implies is_lgat_impl_item(#[trigger] impl_items_view(taken)[i]) by {
            assert(lgat_impl_item()(impl_items_view(items).filter(lgat_impl_item())[i]));
        }
    }
    match collect_lgats(read_lgats(taken)) {
        Ok(lgats) => Ok((kept, lgats)),
        Err(violation) => Err(violation),
    }
}

/// Expands an annotated impl.
pub fn handle(impl_: ItemImpl) -> (r: Result<ImplExpansion, Violation>)
    ensures
        match impl_expansion(impl_@) {
            Ok(expansion) => r matches Ok(out) && out@ == expansion,
            Err(violation) => r == Err::<ImplExpansion, Violation>(violation),
        },
{
    let path_to_trait = match &impl_.trait_ {
        None => {
            return Err(Violation::new(Rule::ExpectedTraitFor, Place::SelfType));
        },
        Some(tr) => {
            if tr.negative {
                return Err(Violation::new(Rule::NotSupported, Place::Negative));
            }
            if tr.path.segments.len() == 0 {
                return Err(Violation::new(Rule::ExpectedTraitFor, Place::SelfType));
            }
            copy_path(&tr.path)
        },
    };
    let ghost path = path_to_trait@;
    assert(implemented_trait(impl_@) == Ok::<PathView, Violation>(path));
    let replace_self = Visitor::ReplaceSelf(copy_path(&path_to_trait));
    let qualified = visit_item_impl(&replace_self, &impl_);
    let normalized = visit_item_impl(&Visitor::ApplyGat, &qualified);
    let ghost n = normalized_impl(impl_@, path);
    let ItemImpl { attrs, defaultness, unsafety, generics, trait_, self_ty, items } = normalized;
    let (items, lgats) = match extract_lgats(items) {
        Ok(parted) => parted,
        Err(violation) => {
            return Err(violation);
        },
    };
    let ghost lgat_views = lgats@.map_values(|l: LGat| l@);
    let n_segments = path_to_trait.segments.len();
    assert(path.segments.last() == path_to_trait.segments[n_segments - 1]@) by {
        reveal_with_fuel(path_view, 2);
    }
    let parenthesized = match &path_to_trait.segments[n_segments - 1].arguments {
        PathArguments::Parenthesized { .. } => true,
        _ => false,
    };
    if lgats.len() > 0 && parenthesized {
        return Err(Violation::new(Rule::ExpectedAngleBrackets, Place::TraitArguments));
    }
    let mut auxiliaries: Vec<AuxiliaryImpl> = Vec::new();
    let mut k: usize = 0;
    while k < lgats.len()
        invariant
            k <= lgats.len(),
            path_to_trait.segments.len() > 0,
            path == path_to_trait@,
            generics@ == n.generics,
            self_ty@ == n.self_ty,
            auxiliaries.len() == k,
            forall|j: int| 0 <= j < k ==> auxiliaries[j]@ == auxiliary_impl(n, path, lgats[j]@),
        decreases lgats.len() - k,
    {
        let lgat = &lgats[k];
        let aux = AuxiliaryImpl {
            attrs: copy_strings(&lgat.attrs),
            generics: Generics {
                params: with_lifetime_params(&lgat.generic_lifetimes, &generics.params),
                where_clause: copy_where_clause(&generics.where_clause),
            },
            trait_: auxiliary_path_for(&path_to_trait, lgat),
            self_ty: copy_type(&self_ty),
            value: copy_opt(&lgat.value),
        };
        auxiliaries.push(aux);
        k += 1;
    }
    assert(auxiliaries@.map_values(|a: AuxiliaryImpl| a@) =~= lgat_views.map_values(
        |l: LGatView| auxiliary_impl(n, path, l),
    ));
    Ok(ImplExpansion { auxiliaries, item: ItemImpl { attrs, defaultness, unsafety, generics, trait_, self_ty, items } })
}

} // verus!
