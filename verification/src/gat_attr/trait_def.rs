//! The transformation of a trait: each lifetime-generic associated type
//! leaves the trait and becomes an auxiliary trait, which the trait gets as a
//! supertrait for all lifetimes.
use vstd::prelude::*;
use crate::error::Place;
use crate::error::Rule;
use crate::error::Violation;
use crate::gat_attr::parsed_generics;
use crate::gat_attr::self_type;
use crate::gat_attr::LGat;
use crate::gat_attr::LGatView;
use crate::gat_bang::combine_trait_name_and_assoc_type;
use crate::gat_bang::combined_name;
use crate::item::copy_params;
use crate::item::copy_where_clause;
use crate::item::opt_view;
use crate::item::params_view;
use crate::item::trait_items_view;
use crate::item::GenericParam;
use crate::item::GenericParamView;
use crate::item::Generics;
use crate::item::GenericsView;
use crate::item::ItemTrait;
use crate::item::ItemTraitView;
use crate::item::TraitItem;
use crate::item::TraitItemType;
use crate::item::TraitItemTypeView;
use crate::item::TraitItemView;
use crate::item::TypeParam;
use crate::item::TypeParamView;
use crate::syntax::arg_view;
use crate::syntax::args_view;
use crate::syntax::bound_view;
use crate::syntax::lifetime_defs_view;
use crate::syntax::type_view;
use crate::gat_attr::super_types_view;
use crate::syntax::bounds_view;
use crate::syntax::copy_bounds;
use crate::syntax::copy_strings;
use crate::syntax::copy_type;
use crate::syntax::lifetimes_view;
use crate::syntax::GenericArgument;
use crate::syntax::GenericArgumentView;
use crate::syntax::Lifetime;
use crate::syntax::LifetimeDef;
use crate::syntax::LifetimeDefView;
use crate::syntax::Path;
use crate::syntax::PathArguments;
use crate::syntax::PathArgumentsView;
use crate::syntax::PathSegment;
use crate::syntax::PathSegmentView;
use crate::syntax::PathView;
use crate::syntax::TraitBound;
use crate::syntax::TraitBoundView;
use crate::syntax::Type;
use crate::syntax::TypeParamBound;
use crate::syntax::TypeParamBoundView;
use crate::syntax::TypePath;
use crate::syntax::TypePathView;
use crate::syntax::TypeView;
use crate::visit::visit_item_trait;
use crate::visit::visited_item_trait;
use crate::gat_attr::collect_lgats;
use crate::gat_attr::collected_lgats;
use crate::gat_attr::reading_view;
use crate::gat_attr::readings_view;
use crate::seqs::lemma_filter_keeps;
use crate::utils::lemma_marked_views;
use crate::utils::marked;
use crate::utils::DrainFilterExt;
use crate::visit::Visitor;
use crate::visit::VisitorView;

verus! {

/// `#[attrs] trait ident<generics> where .. { type T: bounds; }`
#[derive(Debug, PartialEq, Eq)]
pub struct AuxiliaryTrait {
    pub attrs: Vec<String>,
    pub ident: String,
    pub generics: Generics,
    pub bounds: Vec<TypeParamBound>,
}

pub struct AuxiliaryTraitView {
    pub attrs: Seq<Seq<char>>,
    pub ident: Seq<char>,
    pub generics: GenericsView,
    pub bounds: Seq<TypeParamBoundView>,
}

impl View for AuxiliaryTrait {
    type V = AuxiliaryTraitView;

    open spec fn view(&self) -> AuxiliaryTraitView {
        AuxiliaryTraitView {
            attrs: self.attrs.deep_view(),
            ident: self.ident@,
            generics: self.generics@,
            bounds: bounds_view(self.bounds),
        }
    }
}

/// What a trait expands to: the auxiliary traits, then the trait itself.
#[derive(Debug, PartialEq, Eq)]
pub struct TraitExpansion {
    pub auxiliaries: Vec<AuxiliaryTrait>,
    pub item: ItemTrait,
}

pub struct TraitExpansionView {
    pub auxiliaries: Seq<AuxiliaryTraitView>,
    pub item: ItemTraitView,
}

impl View for TraitExpansion {
    type V = TraitExpansionView;

    open spec fn view(&self) -> TraitExpansionView {
        TraitExpansionView { auxiliaries: self.auxiliaries@.map_values(|a: AuxiliaryTrait| a@), item: self.item@ }
    }
}

/// The associated type of a trait as a lifetime-generic associated type:
/// the violation of its generics, if they have one; else that of its
/// default, if it has one.
pub open spec fn lgat_of_trait_item(t: TraitItemTypeView) -> Result<LGatView, Violation> {
    match parsed_generics(t.generics) {
        Err(violation) => Err(violation),
        Ok((generic_lifetimes, super_types)) => if t.default is Some {
            Err(Violation::at(Rule::DefaultGat, Place::DefaultValue))
        } else {
            Ok(
                LGatView {
                    attrs: t.attrs,
                    ident: t.ident,
                    bounds: t.bounds,
                    generic_lifetimes,
                    super_types,
                    value: None,
                },
            )
        },
    }
}

impl LGat {
    /// Reads an associated type of a trait as a lifetime-generic associated
    /// type, or says what is not supported in it.
    pub fn from_trait_def(assoc_ty: TraitItemType) -> (r: Result<LGat, Violation>)
        ensures
            match lgat_of_trait_item(assoc_ty@) {
                Ok(lgat) => r matches Ok(out) && out@ == lgat,
                Err(violation) => r == Err::<LGat, Violation>(violation),
            },
    {
        let TraitItemType { attrs, ident, generics, colon_token: _, bounds, default } = assoc_ty;
        let (generic_lifetimes, super_types) = match LGat::parse_generics(generics) {
            Ok(parsed) => parsed,
            Err(violation) => {
                return Err(violation);
            },
        };
        if default.is_some() {
            return Err(Violation::new(Rule::DefaultGat, Place::DefaultValue));
        }
        Ok(LGat { attrs, ident, bounds, generic_lifetimes, super_types, value: None })
    }
}

/// The type that is the one name `ident`.
pub open spec fn ident_type(ident: Seq<char>) -> TypeView {
    TypeView::Path(
        TypePathView {
            qself: None,
            path: PathView {
                leading_colon: false,
                segments: seq![PathSegmentView { ident, arguments: PathArgumentsView::Absent }],
            },
        },
    )
}

/// A generic parameter handed on as an argument: its name.
pub open spec fn forwarded_arg(p: GenericParamView) -> GenericArgumentView {
    match p {
        GenericParamView::Lifetime(def) => GenericArgumentView::Lifetime(def.lifetime),
        GenericParamView::Type(t) => GenericArgumentView::Type(ident_type(t.ident)),
        GenericParamView::Const(c) => GenericArgumentView::Type(ident_type(c.ident)),
    }
}

/// The parameters of a declaration handed on as arguments; no arguments at
/// all where there is no parameter.
pub open spec fn forwarded_generics(params: Seq<GenericParamView>) -> PathArgumentsView {
    if params.len() == 0 {
        PathArgumentsView::Absent
    } else {
        PathArgumentsView::AngleBracketed {
            colon2_token: false,
            args: params.map_values(|p: GenericParamView| forwarded_arg(p)),
        }
    }
}

/// The path by which a trait names itself: its name with its own parameters
/// as arguments.
pub open spec fn current_trait(t: ItemTraitView) -> PathView {
    PathView {
        leading_colon: false,
        segments: seq![PathSegmentView { ident: t.ident, arguments: forwarded_generics(t.generics.params) }],
    }
}

/// The trait after `Self::Assoc<..>` was qualified in it and the paths
/// through generic associated types were rewritten.
pub open spec fn normalized_trait(t: ItemTraitView) -> ItemTraitView {
    visited_item_trait(VisitorView::ApplyGat, visited_item_trait(VisitorView::ReplaceSelf(current_trait(t)), t))
}

/// Whether an item of a trait is an associated type with generic
/// parameters.
pub open spec fn is_lgat_item(i: TraitItemView) -> bool {
    i matches TraitItemView::Type(t) && t.generics.params.len() > 0
}

pub open spec fn no_lgat_item() -> spec_fn(TraitItemView) -> bool {
    |i: TraitItemView| !is_lgat_item(i)
}

pub open spec fn lgat_item() -> spec_fn(TraitItemView) -> bool {
    |i: TraitItemView| is_lgat_item(i)
}

/// What reading an associated type that was taken out of a body gives.
pub open spec fn trait_reading() -> spec_fn(TraitItemView) -> Result<LGatView, Violation> {
    |i: TraitItemView| lgat_of_trait_item(i->Type_0)
}

/// The lifetime-generic associated types of a body, or the violation of
/// the first of them that has one, with its index among them.
pub open spec fn trait_lgats(items: Seq<TraitItemView>) -> Result<Seq<LGatView>, Violation> {
    let readings = items.filter(lgat_item()).map_values(trait_reading());
    collected_lgats(readings, readings.len())
}

/// The parameter that declares the lifetime `l`.
pub open spec fn lifetime_def(l: Seq<char>) -> LifetimeDefView {
    LifetimeDefView { attrs: Seq::empty(), lifetime: l, bounds: Seq::empty() }
}

pub open spec fn lifetime_params(lifetimes: Seq<Seq<char>>) -> Seq<GenericParamView> {
    lifetimes.map_values(|l: Seq<char>| GenericParamView::Lifetime(lifetime_def(l)))
}

/// `&'a Type` for the relation `Type: 'a`.
pub open spec fn implicit_bound(relation: (Seq<char>, Option<TypeView>)) -> TypeView {
    TypeView::Reference {
        lifetime: Some(relation.0),
        mutable: false,
        elem: Box::new(
            match relation.1 {
                Some(t) => t,
                None => self_type(),
            },
        ),
    }
}

/// The name of the last parameter of every auxiliary trait.
pub open spec fn implicit_bounds_name() -> Seq<char> {
    "__ImplicitBounds"@
}

/// `__ImplicitBounds = (&'a Type, ..)`: a parameter that nothing reads,
/// whose default mentions each relation `Type: 'a` and so implies it.
pub open spec fn implicit_bounds_param(l: LGatView) -> GenericParamView {
    GenericParamView::Type(
        TypeParamView {
            attrs: Seq::empty(),
            ident: implicit_bounds_name(),
            colon_token: false,
            bounds: Seq::empty(),
            default: Some(
                TypeView::Tuple(l.super_types.map_values(|r: (Seq<char>, Option<TypeView>)| implicit_bound(r))),
            ),
        },
    )
}

/// The auxiliary trait of `l` in the trait `t`: its parameters are the
/// lifetimes of `l`, the parameters of `t` and the implicit bounds.
pub open spec fn auxiliary_trait(t: ItemTraitView, l: LGatView) -> AuxiliaryTraitView {
    AuxiliaryTraitView {
        attrs: l.attrs,
        ident: combined_name(t.ident, l.ident),
        generics: GenericsView {
            params: lifetime_params(l.generic_lifetimes) + t.generics.params + seq![implicit_bounds_param(l)],
            where_clause: t.generics.where_clause,
        },
        bounds: l.bounds,
    }
}

/// `for<'a> Trait__Assoc<'a, P..>`: the bound that makes the auxiliary
/// trait of `l` a supertrait of `t`, for all lifetimes of `l`.
pub open spec fn supertrait(t: ItemTraitView, l: LGatView) -> TypeParamBoundView {
    TypeParamBoundView::Trait(
        TraitBoundView {
            paren_token: false,
            maybe: false,
            lifetimes: Some(l.generic_lifetimes.map_values(|x: Seq<char>| lifetime_def(x))),
            path: PathView {
                leading_colon: false,
                segments: seq![
                    PathSegmentView {
                        ident: combined_name(t.ident, l.ident),
                        arguments: forwarded_generics(lifetime_params(l.generic_lifetimes) + t.generics.params),
                    },
                ],
            },
        },
    )
}

/// What the trait `t` expands to, or the first violation among its
/// lifetime-generic associated types.
pub open spec fn trait_expansion(t: ItemTraitView) -> Result<TraitExpansionView, Violation> {
    let n = normalized_trait(t);
    match trait_lgats(n.items) {
        Err(violation) => Err(violation),
        Ok(lgats) => Ok(
            TraitExpansionView {
                auxiliaries: lgats.map_values(|l: LGatView| auxiliary_trait(n, l)),
                item: ItemTraitView {
                    attrs: n.attrs,
                    vis: n.vis,
                    unsafety: n.unsafety,
                    auto_token: n.auto_token,
                    ident: n.ident,
                    generics: n.generics,
                    colon_token: true,
                    supertraits: n.supertraits + lgats.map_values(|l: LGatView| supertrait(n, l)),
                    items: n.items.filter(no_lgat_item()),
                },
            },
        ),
    }
}

/// Builds the type that is the one name `ident`.
pub fn ident_type_of(ident: &str) -> (r: Type)
    ensures
        r@ == ident_type(ident@),
{
    let mut segments: Vec<PathSegment> = Vec::new();
    segments.push(PathSegment { ident: ident.to_owned(), arguments: PathArguments::Absent });
    let r = Type::Path(TypePath { qself: None, path: Path { leading_colon: false, segments } });
    proof {
        reveal_with_fuel(type_view, 4);
        assert(r@->Path_0.path.segments =~= ident_type(ident@)->Path_0.path.segments);
    }
    r
}

/// Builds the segment `ident<params..>`, with the parameters handed on as
/// arguments.
pub fn forwarded_segment(ident: String, params: &Vec<GenericParam>) -> (r: PathSegment)
    ensures
        r@ == (PathSegmentView { ident: ident@, arguments: forwarded_generics(params_view(*params)) }),
{
    if params.len() == 0 {
        return PathSegment { ident, arguments: PathArguments::Absent };
    }
    let mut args: Vec<GenericArgument> = Vec::new();
    let mut i: usize = 0;
    while i < params.len()
        invariant
            i <= params.len(),
            args.len() == i,
            forall|j: int| 0 <= j < i ==> args[j]@ == forwarded_arg(params[j]@),
        decreases params.len() - i,
    {
        let arg = match &params[i] {
            GenericParam::Lifetime(def) => GenericArgument::Lifetime(def.lifetime.copy()),
            GenericParam::Type(t) => GenericArgument::Type(ident_type_of(t.ident.as_str())),
            GenericParam::Const(c) => GenericArgument::Type(ident_type_of(c.ident.as_str())),
        };
        proof {
            reveal_with_fuel(arg_view, 2);
        }
        args.push(arg);
        i += 1;
    }
    assert(args_view(args) =~= params_view(*params).map_values(|p: GenericParamView| forwarded_arg(p)));
    PathSegment { ident, arguments: PathArguments::AngleBracketed { colon2_token: false, args } }
}

fn lifetime_defs_of(lifetimes: &Vec<Lifetime>) -> (r: Vec<LifetimeDef>)
    ensures
        lifetime_defs_view(r) == lifetimes_view(*lifetimes).map_values(|x: Seq<char>| lifetime_def(x)),
{
    let mut out: Vec<LifetimeDef> = Vec::new();
    let mut i: usize = 0;
    while i < lifetimes.len()
        invariant
            i <= lifetimes.len(),
            out.len() == i,
            forall|j: int| 0 <= j < i ==> out[j]@ == lifetime_def(lifetimes[j]@),
        decreases lifetimes.len() - i,
    {
        let def = LifetimeDef { attrs: Vec::new(), lifetime: lifetimes[i].copy(), bounds: Vec::new() };
        assert(def@.attrs =~= Seq::empty());
        assert(def@.bounds =~= Seq::empty());
        out.push(def);
        i += 1;
    }
    assert(lifetime_defs_view(out) =~= lifetimes_view(*lifetimes).map_values(|x: Seq<char>| lifetime_def(x)));
    out
}

/// The lifetimes as parameters, followed by copies of `params`.
pub fn with_lifetime_params(lifetimes: &Vec<Lifetime>, params: &Vec<GenericParam>) -> (r: Vec<GenericParam>)
    ensures
        params_view(r) == lifetime_params(lifetimes_view(*lifetimes)) + params_view(*params),
{
    let mut out: Vec<GenericParam> = Vec::new();
    let mut i: usize = 0;
    while i < lifetimes.len()
        invariant
            i <= lifetimes.len(),
            out.len() == i,
            forall|j: int| 0 <= j < i ==> out[j]@ == GenericParamView::Lifetime(lifetime_def(lifetimes[j]@)),
        decreases lifetimes.len() - i,
    {
        let def = LifetimeDef { attrs: Vec::new(), lifetime: lifetimes[i].copy(), bounds: Vec::new() };
        assert(def@.attrs =~= Seq::empty());
        assert(def@.bounds =~= Seq::empty());
        out.push(GenericParam::Lifetime(def));
        i += 1;
    }
    let ghost head = params_view(out);
    assert(head =~= lifetime_params(lifetimes_view(*lifetimes)));
    let mut rest = copy_params(params);
    out.append(&mut rest);
    assert(params_view(out) =~= head + params_view(*params));
    out
}

fn implicit_bounds_of(lgat: &LGat) -> (r: GenericParam)
    ensures
        r@ == implicit_bounds_param(lgat@),
{
    let mut elems: Vec<Type> = Vec::new();
    let mut i: usize = 0;
    while i < lgat.super_types.len()
        invariant
            i <= lgat.super_types.len(),
            elems.len() == i,
            forall|j: int| 0 <= j < i ==> elems[j]@ == implicit_bound(super_types_view(lgat.super_types)[j]),
        decreases lgat.super_types.len() - i,
    {
        let relation = &lgat.super_types[i];
        let elem = match &relation.1 {
            Some(t) => copy_type(t),
            None => ident_type_of("Self"),
        };
        let bound = Type::Reference { lifetime: Some(relation.0.copy()), mutable: false, elem: Box::new(elem) };
        proof {
            reveal_with_fuel(type_view, 2);
            assert(super_types_view(lgat.super_types)[i as int] == (relation.0@, opt_view(relation.1)));
        }
        elems.push(bound);
        i += 1;
    }
    let default = Type::Tuple(elems);
    proof {
        reveal_with_fuel(type_view, 2);
        assert(default@->Tuple_0 =~= super_types_view(lgat.super_types).map_values(
            |r: (Seq<char>, Option<TypeView>)| implicit_bound(r),
        ));
    }
    let param = TypeParam {
        attrs: Vec::new(),
        ident: "__ImplicitBounds".to_owned(),
        colon_token: false,
        bounds: Vec::new(),
        default: Some(default),
    };
    assert(param@.attrs =~= Seq::empty());
    assert(param@.bounds =~= Seq::empty());
    GenericParam::Type(param)
}

fn auxiliary_trait_for(t: &ItemTrait, lgat: &LGat) -> (r: AuxiliaryTrait)
    ensures
        r@ == auxiliary_trait(t@, lgat@),
{
    let mut params = with_lifetime_params(&lgat.generic_lifetimes, &t.generics.params);
    let ghost before = params_view(params);
    let last = implicit_bounds_of(lgat);
    params.push(last);
    assert(params_view(params) =~= before + seq![implicit_bounds_param(lgat@)]);
    AuxiliaryTrait {
        attrs: copy_strings(&lgat.attrs),
        ident: combine_trait_name_and_assoc_type(t.ident.as_str(), lgat.ident.as_str()),
        generics: Generics { params, where_clause: copy_where_clause(&t.generics.where_clause) },
        bounds: copy_bounds(&lgat.bounds),
    }
}

fn supertrait_for(t: &ItemTrait, lgat: &LGat) -> (r: TypeParamBound)
    ensures
        r@ == supertrait(t@, lgat@),
{
    let params = with_lifetime_params(&lgat.generic_lifetimes, &t.generics.params);
    let segment = forwarded_segment(
        combine_trait_name_and_assoc_type(t.ident.as_str(), lgat.ident.as_str()),
        &params,
    );
    let mut segments: Vec<PathSegment> = Vec::new();
    segments.push(segment);
    let r = TypeParamBound::Trait(
        TraitBound {
            paren_token: false,
            maybe: false,
            lifetimes: Some(lifetime_defs_of(&lgat.generic_lifetimes)),
            path: Path { leading_colon: false, segments },
        },
    );
    proof {
        reveal_with_fuel(bound_view, 3);
        assert(r@->Trait_0.path.segments =~= supertrait(t@, lgat@)->Trait_0.path.segments);
    }
    r
}

/// Reads each of the associated types that were taken out of a body.
fn read_lgats(taken: Vec<TraitItem>) -> (r: Vec<Result<LGat, Violation>>)
    requires
        forall|i: int| 0 <= i < taken.len() ==> is_lgat_item(#[trigger] trait_items_view(taken)[i]),
    ensures
        readings_view(r) == trait_items_view(taken).map_values(trait_reading()),
{
    let ghost all = trait_items_view(taken);
    let n = taken.len();
    let mut source = taken;
    let mut readings: Vec<Result<LGat, Violation>> = Vec::new();
    let mut i: usize = 0;
    assert(trait_items_view(source) =~= all.skip(0));
    while i < n
        invariant
            i <= n,
            n == all.len(),
            forall|j: int| 0 <= j < n ==> is_lgat_item(#[trigger] all[j]),
            trait_items_view(source) == all.skip(i as int),
            readings.len() == i,
            forall|j: int| 0 <= j < i ==> reading_view(#[trigger] readings[j]) == trait_reading()(all[j]),
        decreases n - i,
    {
        let ghost source_before = source@;
        assert(trait_items_view(source).len() == source.len());
        assert(trait_items_view(source)[0] == source@[0]@);
        let item = source.remove(0);
        proof {
            assert(item@ == all[i as int]);
            assert forall|j: int| 0 <= j < source@.len() implies #[trigger] trait_items_view(source)[j] == all.skip(
                i + 1,
            )[j] by {
                assert(source@[j] == source_before[j + 1]);
                assert(all.skip(i as int)[j + 1] == source_before[j + 1]@);
            }
            assert(trait_items_view(source) =~= all.skip(i + 1));
        }
        let reading = match item {
            TraitItem::Type(assoc_ty) => LGat::from_trait_def(assoc_ty),
            TraitItem::Other(_) => unreached(),
        };
        readings.push(reading);
        i += 1;
    }
    assert(readings_view(readings) =~= all.map_values(trait_reading()));
    readings
}

/// Takes the lifetime-generic associated types out of a body and reads
/// them.
fn extract_lgats(items: Vec<TraitItem>) -> (r: Result<(Vec<TraitItem>, Vec<LGat>), Violation>)
    ensures
        match trait_lgats(trait_items_view(items)) {
            Ok(lgats) => r matches Ok(out) && trait_items_view(out.0) == trait_items_view(items).filter(no_lgat_item())
                && out.1@.map_values(|l: LGat| l@) == lgats,
            Err(violation) => r == Err::<(Vec<TraitItem>, Vec<LGat>), Violation>(violation),
        },
{
    let ghost all = items@;
    let mut kept = items;
    let is_lgat = |item: &TraitItem| -> (b: bool)
        ensures
            b == is_lgat_item(item@),
        {
            match item {
                TraitItem::Type(assoc_ty) => assoc_ty.generics.params.len() > 0,
                TraitItem::Other(_) => false,
            }
        };
    let taken = kept.drain_filter(is_lgat);
    proof {
        let marks = choose|marks: Seq<bool>|
            {
                &&& marks.len() == all.len()
                &&& forall|i: int| 0 <= i < marks.len() ==> call_ensures(is_lgat, (&#[trigger] all[i],), marks[i])
                &&& kept@ == marked(all, marks, false)
                &&& taken@ == marked(all, marks, true)
            };
        lemma_marked_views(all, marks, true, lgat_item());
        lemma_marked_views(all, marks, false, no_lgat_item());
        assert(trait_items_view(items) =~= all.map_values(|x: TraitItem| x@));
        assert(trait_items_view(taken) =~= taken@.map_values(|x: TraitItem| x@));
        assert(trait_items_view(kept) =~= kept@.map_values(|x: TraitItem| x@));
        lemma_filter_keeps(trait_items_view(items), lgat_item(), |i: TraitItemView| true);
        assert forall|i: int| 0 <= i < taken.len() implies is_lgat_item(#[trigger] trait_items_view(taken)[i]) by {
            assert(lgat_item()(trait_items_view(items).filter(lgat_item())[i]));
        }
    }
    match collect_lgats(read_lgats(taken)) {
        Ok(lgats) => Ok((kept, lgats)),
        Err(violation) => Err(violation),
    }
}

/// Expands an annotated trait.
pub fn handle(trait_: ItemTrait) -> (r: Result<TraitExpansion, Violation>)
    ensures
        match trait_expansion(trait_@) {
            Ok(expansion) => r matches Ok(out) && out@ == expansion,
            Err(violation) => r == Err::<TraitExpansion, Violation>(violation),
        },
{
    let mut current: Vec<PathSegment> = Vec::new();
    current.push(forwarded_segment(trait_.ident.clone(), &trait_.generics.params));
    let replace_self = Visitor::ReplaceSelf(Path { leading_colon: false, segments: current });
    proof {
        reveal_with_fuel(crate::syntax::path_view, 2);
        assert(replace_self@->ReplaceSelf_0.segments =~= current_trait(trait_@).segments);
    }
    let qualified = visit_item_trait(&replace_self, &trait_);
    let normalized = visit_item_trait(&Visitor::ApplyGat, &qualified);
    let ItemTrait { attrs, vis, unsafety, auto_token, ident, generics, colon_token: _, supertraits, items } =
        normalized;
    let ghost n = normalized_trait(trait_@);
    let (items, lgats) = match extract_lgats(items) {
        Ok(parted) => parted,
        Err(violation) => {
            return Err(violation);
        },
    };
    let mut header = ItemTrait {
        attrs,
        vis,
        unsafety,
        auto_token,
        ident,
        generics,
        colon_token: true,
        supertraits,
        items: Vec::new(),
    };
    let ghost lgat_views = lgats@.map_values(|l: LGat| l@);
    let mut auxiliaries: Vec<AuxiliaryTrait> = Vec::new();
    let mut more: Vec<TypeParamBound> = Vec::new();
    let mut k: usize = 0;
    while k < lgats.len()
        invariant
            k <= lgats.len(),
            header@.ident == n.ident,
            header@.generics == n.generics,
            auxiliaries.len() == k,
            more.len() == k,
            forall|j: int| 0 <= j < k ==> auxiliaries[j]@ == auxiliary_trait(n, lgats[j]@),
            forall|j: int| 0 <= j < k ==> more[j]@ == supertrait(n, lgats[j]@),
        decreases lgats.len() - k,
    {
        let aux = auxiliary_trait_for(&header, &lgats[k]);
        let bound = supertrait_for(&header, &lgats[k]);
        auxiliaries.push(aux);
        more.push(bound);
        k += 1;
    }
    let ghost old_supertraits = bounds_view(header.supertraits);
    let ghost added = bounds_view(more);
    header.supertraits.append(&mut more);
    header.items = items;
    proof {
        assert(added =~= lgat_views.map_values(|l: LGatView| supertrait(n, l)));
        assert(bounds_view(header.supertraits) =~= old_supertraits + added);
        assert(auxiliaries@.map_values(|a: AuxiliaryTrait| a@) =~= lgat_views.map_values(
            |l: LGatView| auxiliary_trait(n, l),
        ));
    }
    Ok(TraitExpansion { auxiliaries, item: header })
}

} // verus!
