//! The transformation of an annotated trait, impl or import.
use vstd::prelude::*;
use crate::error::Place;
use crate::error::Rule;
use crate::error::Violation;
use crate::gat_attr::trait_def::trait_expansion;
use crate::gat_attr::trait_def::TraitExpansion;
use crate::gat_attr::trait_def::TraitExpansionView;
use crate::gat_attr::trait_impl::impl_expansion;
use crate::gat_attr::trait_impl::ImplExpansion;
use crate::gat_attr::trait_impl::ImplExpansionView;
use crate::gat_attr::trait_use::use_expansion;
use crate::gat_attr::trait_use::UseExpansion;
use crate::gat_attr::trait_use::UseExpansionView;
use crate::item::opt_view;
use crate::item::Item;
use crate::item::ItemView;
use crate::item::predicates_view;
use crate::item::GenericParam;
use crate::item::GenericParamView;
use crate::item::Generics;
use crate::item::GenericsView;
use crate::item::PredicateType;
use crate::item::PredicateTypeView;
use crate::item::WherePredicate;
use crate::item::WherePredicateView;
use crate::syntax::bounds_view;
use crate::syntax::copy_segment;
use crate::syntax::copy_type;
use crate::syntax::lifetimes_view;
use crate::syntax::Lifetime;
use crate::syntax::TypeParamBound;
use crate::syntax::TypeParamBoundView;
use crate::syntax::type_path_view;
use crate::syntax::Path;
use crate::syntax::PathArguments;
use crate::syntax::PathArgumentsView;
use crate::syntax::PathSegment;
use crate::syntax::PathSegmentView;
use crate::syntax::PathView;
use crate::syntax::QSelf;
use crate::syntax::QSelfView;
use crate::syntax::Type;
use crate::syntax::TypePath;
use crate::syntax::TypePathView;
use crate::syntax::TypeView;

pub mod trait_def;
pub mod trait_impl;
pub mod trait_use;

verus! {

/// The keyword by which a trait or impl names its own type.
pub open spec fn self_keyword() -> Seq<char> {
    "Self"@
}

/// The type `Self`.
pub open spec fn self_type() -> TypeView {
    TypeView::Path(
        TypePathView {
            qself: None,
            path: PathView {
                leading_colon: false,
                segments: seq![PathSegmentView { ident: self_keyword(), arguments: PathArgumentsView::Absent }],
            },
        },
    )
}

/// Whether `p` starts with `Self` and ends in a segment with arguments in
/// `<..>`.
pub open spec fn is_self_assoc(p: TypePathView) -> bool {
    p.path.segments.len() > 0 && p.path.segments[0].ident == self_keyword()
        && p.path.segments.last().arguments is AngleBracketed
}

/// `Self::Assoc<..>` as `<Self as current>::Assoc<..>`: the segments of
/// `current` followed by the last segment of `p`, qualified by `Self`. Any
/// other path stays as it is.
pub open spec fn qualified_self(current: PathView, p: TypePathView) -> TypePathView {
    if is_self_assoc(p) {
        TypePathView {
            qself: Some(QSelfView { ty: Box::new(self_type()), position: current.segments.len(), as_token: true }),
            path: PathView {
                leading_colon: p.path.leading_colon,
                segments: current.segments.push(p.path.segments.last()),
            },
        }
    } else {
        p
    }
}

/// Turns `Self::Assoc<..>` into `<Self as current>::Assoc<..>`, and hands
/// any other path back.
pub fn qualify_self(current: &Path, p: TypePath) -> (r: TypePath)
    ensures
        r@ == qualified_self(current@, p@),
{
    proof {
        reveal_with_fuel(type_path_view, 3);
    }
    let n = p.path.segments.len();
    if n == 0 {
        return p;
    }
    let self_ = "Self".to_owned();
    let starts = p.path.segments[0].ident == self_;
    let angle = match &p.path.segments[n - 1].arguments {
        PathArguments::AngleBracketed { .. } => true,
        _ => false,
    };
    assert(p@.path.segments[0] == p.path.segments[0]@);
    assert(p@.path.segments.last() == p.path.segments[n - 1]@);
    if !(starts && angle) {
        return p;
    }
    let mut segments: Vec<PathSegment> = Vec::new();
    let mut i: usize = 0;
    while i < current.segments.len()
        invariant
            i <= current.segments.len(),
            segments.len() == i,
            forall|j: int| 0 <= j < i ==> segments[j]@ == current.segments[j]@,
        decreases current.segments.len() - i,
    {
        segments.push(copy_segment(&current.segments[i]));
        i += 1;
    }
    let leading_colon = p.path.leading_colon;
    let ghost last = p@.path.segments.last();
    let mut tail = p.path.segments;
    let last_segment = tail.remove(n - 1);
    assert(last_segment@ == last);
    segments.push(last_segment);
    let mut self_segments: Vec<PathSegment> = Vec::new();
    self_segments.push(PathSegment { ident: self_, arguments: PathArguments::Absent });
    let self_ty = Type::Path(TypePath { qself: None, path: Path { leading_colon: false, segments: self_segments } });
    proof {
        reveal_with_fuel(crate::syntax::type_view, 4);
        assert(self_ty@->Path_0.path.segments =~= self_type()->Path_0.path.segments);
        assert(self_ty@ == self_type());
    }
    let r = TypePath {
        qself: Some(QSelf { ty: Box::new(self_ty), position: current.segments.len(), as_token: true }),
        path: Path { leading_colon, segments },
    };
    proof {
        assert(r@.path.segments =~= current@.segments.push(last)) by {
            reveal_with_fuel(crate::syntax::path_view, 2);
        }
    }
    r
}

/// A lifetime-generic associated type, as it was found in a trait or impl.
#[derive(Debug, PartialEq, Eq)]
pub struct LGat {
    pub attrs: Vec<String>,
    pub ident: String,
    /// The bounds of the associated type of a trait.
    pub bounds: Vec<TypeParamBound>,
    /// The lifetimes that the associated type declares.
    pub generic_lifetimes: Vec<Lifetime>,
    /// For each `where Type: 'a`, the lifetime `'a` and `Type`; where the
    /// type is missing, `Self` is meant.
    pub super_types: Vec<(Lifetime, Option<Type>)>,
    /// The type that an impl gives the associated type.
    pub value: Option<Type>,
}

pub struct LGatView {
    pub attrs: Seq<Seq<char>>,
    pub ident: Seq<char>,
    pub bounds: Seq<TypeParamBoundView>,
    pub generic_lifetimes: Seq<Seq<char>>,
    pub super_types: Seq<(Seq<char>, Option<TypeView>)>,
    pub value: Option<TypeView>,
}

pub open spec fn super_types_view(v: Vec<(Lifetime, Option<Type>)>) -> Seq<(Seq<char>, Option<TypeView>)> {
    v@.map_values(|p: (Lifetime, Option<Type>)| (p.0@, opt_view(p.1)))
}

impl View for LGat {
    type V = LGatView;

    open spec fn view(&self) -> LGatView {
        LGatView {
            attrs: self.attrs.deep_view(),
            ident: self.ident@,
            bounds: bounds_view(self.bounds),
            generic_lifetimes: lifetimes_view(self.generic_lifetimes),
            super_types: super_types_view(self.super_types),
            value: opt_view(self.value),
        }
    }
}

/// The lifetime that the parameter at `param` declares, if the parameter is
/// a lifetime without attributes and bounds.
pub open spec fn declared_lifetime(p: GenericParamView, param: usize) -> Result<Seq<char>, Violation> {
    match p {
        GenericParamView::Lifetime(def) => if def.attrs.len() > 0 {
            Err(Violation::at(Rule::Unsupported, Place::ParamAttr { param }))
        } else if def.bounds.len() > 0 {
            Err(Violation::at(Rule::Unsupported, Place::ParamBound { param }))
        } else {
            Ok(def.lifetime)
        },
        _ => Err(Violation::at(Rule::NonLifetimeGat, Place::Param { param })),
    }
}

/// The lifetimes that the first `n` parameters declare, or the violation of
/// the first parameter among them that has one.
pub open spec fn declared_lifetimes(params: Seq<GenericParamView>, n: nat) -> Result<Seq<Seq<char>>, Violation>
    decreases n,
{
    if n == 0 {
        Ok(Seq::empty())
    } else {
        match declared_lifetimes(params, (n - 1) as nat) {
            Err(violation) => Err(violation),
            Ok(lifetimes) => match declared_lifetime(params[n - 1], (n - 1) as usize) {
                Err(violation) => Err(violation),
                Ok(lifetime) => Ok(lifetimes.push(lifetime)),
            },
        }
    }
}

/// What the bound at `bound` of the predicate at `predicate` says: that the
/// bounded type outlives a declared lifetime.
pub open spec fn bound_relation(
    declared: Seq<Seq<char>>,
    bounded_ty: TypeView,
    b: TypeParamBoundView,
    predicate: usize,
    bound: usize,
) -> Result<(Seq<char>, Option<TypeView>), Violation> {
    match b {
        TypeParamBoundView::Lifetime(lifetime) => if declared.contains(lifetime) {
            Ok((lifetime, Some(bounded_ty)))
        } else {
            Err(Violation::at(Rule::ExpectedGatLifetime, Place::PredicateBound { predicate, bound }))
        },
        TypeParamBoundView::Trait(_) => Err(
            Violation::at(Rule::Unsupported, Place::PredicateBound { predicate, bound }),
        ),
    }
}

/// What the first `n` bounds of a predicate say, or the violation of the
/// first bound among them that has one.
pub open spec fn bound_relations(
    declared: Seq<Seq<char>>,
    p: PredicateTypeView,
    predicate: usize,
    n: nat,
) -> Result<Seq<(Seq<char>, Option<TypeView>)>, Violation>
    decreases n,
{
    if n == 0 {
        Ok(Seq::empty())
    } else {
        match bound_relations(declared, p, predicate, (n - 1) as nat) {
            Err(violation) => Err(violation),
            Ok(relations) => match bound_relation(declared, p.bounded_ty, p.bounds[n - 1], predicate, (n - 1) as usize) {
                Err(violation) => Err(violation),
                Ok(relation) => Ok(relations.push(relation)),
            },
        }
    }
}

/// What the predicate at `predicate` says, if it bounds a type, without
/// `for<..>`, by declared lifetimes alone.
pub open spec fn predicate_relations(declared: Seq<Seq<char>>, w: WherePredicateView, predicate: usize) -> Result<
    Seq<(Seq<char>, Option<TypeView>)>,
    Violation,
> {
    match w {
        WherePredicateView::Type(p) => if p.lifetimes is Some && p.lifetimes->0.len() > 0 {
            Err(Violation::at(Rule::HigherOrderLifetime, Place::PredicateFor { predicate }))
        } else {
            bound_relations(declared, p, predicate, p.bounds.len())
        },
        _ => Err(Violation::at(Rule::UnsupportedWherePredicate, Place::Predicate { predicate })),
    }
}

/// What the first `n` predicates say, or the violation of the first among
/// them that has one.
pub open spec fn where_relations(declared: Seq<Seq<char>>, predicates: Seq<WherePredicateView>, n: nat) -> Result<
    Seq<(Seq<char>, Option<TypeView>)>,
    Violation,
>
    decreases n,
{
    if n == 0 {
        Ok(Seq::empty())
    } else {
        match where_relations(declared, predicates, (n - 1) as nat) {
            Err(violation) => Err(violation),
            Ok(relations) => match predicate_relations(declared, predicates[n - 1], (n - 1) as usize) {
                Err(violation) => Err(violation),
                Ok(more) => Ok(relations + more),
            },
        }
    }
}

/// The predicates of the `where` clause; none where there is no clause.
pub open spec fn where_predicates(g: GenericsView) -> Seq<WherePredicateView> {
    match g.where_clause {
        Some(predicates) => predicates,
        None => Seq::empty(),
    }
}

/// The lifetimes that the generics of an associated type declare and what
/// its `where` clause says of them, or the first violation: those of the
/// parameters come before those of the `where` clause.
pub open spec fn parsed_generics(g: GenericsView) -> Result<
    (Seq<Seq<char>>, Seq<(Seq<char>, Option<TypeView>)>),
    Violation,
> {
    match declared_lifetimes(g.params, g.params.len()) {
        Err(violation) => Err(violation),
        Ok(declared) => match where_relations(declared, where_predicates(g), where_predicates(g).len()) {
            Err(violation) => Err(violation),
            Ok(relations) => Ok((declared, relations)),
        },
    }
}

/// Whether `lifetime` is among `declared`.
fn declares(declared: &Vec<Lifetime>, lifetime: &Lifetime) -> (r: bool)
    ensures
        r == lifetimes_view(*declared).contains(lifetime@),
{
    let mut i: usize = 0;
    while i < declared.len()
        invariant
            i <= declared.len(),
            forall|j: int| 0 <= j < i ==> lifetimes_view(*declared)[j] != lifetime@,
        decreases declared.len() - i,
    {
        if declared[i].ident == lifetime.ident {
            assert(lifetimes_view(*declared)[i as int] == lifetime@);
            return true;
        }
        i += 1;
    }
    false
}

fn relations_of(declared: &Vec<Lifetime>, p: &PredicateType, predicate: usize) -> (r: Result<
    Vec<(Lifetime, Option<Type>)>,
    Violation,
>)
    ensures
        match bound_relations(lifetimes_view(*declared), p@, predicate, p.bounds.len() as nat) {
            Ok(relations) => r matches Ok(out) && super_types_view(out) == relations,
            Err(violation) => r == Err::<Vec<(Lifetime, Option<Type>)>, Violation>(violation),
        },
{
    let mut out: Vec<(Lifetime, Option<Type>)> = Vec::new();
    let mut k: usize = 0;
    assert(super_types_view(out) =~= Seq::empty());
    while k < p.bounds.len()
        invariant
            k <= p.bounds.len(),
            bound_relations(lifetimes_view(*declared), p@, predicate, k as nat) == Ok::<
                Seq<(Seq<char>, Option<TypeView>)>,
                Violation,
            >(super_types_view(out)),
        decreases p.bounds.len() - k,
    {
        let ghost before = super_types_view(out);
        proof {
            reveal_with_fuel(crate::syntax::bound_view, 2);
            assert(p@.bounds[k as int] == p.bounds[k as int]@);
        }
        match &p.bounds[k] {
            TypeParamBound::Lifetime(lifetime) => {
                if declares(declared, lifetime) {
                    out.push((lifetime.copy(), Some(copy_type(&p.bounded_ty))));
                    assert(super_types_view(out) =~= before.push((lifetime@, Some(p@.bounded_ty))));
                } else {
                    proof {
                        lemma_bound_relations_fail(lifetimes_view(*declared), p@, predicate, k as nat + 1, p.bounds.len() as nat);
                    }
                    return Err(Violation::new(Rule::ExpectedGatLifetime, Place::PredicateBound { predicate, bound: k }));
                }
            },
            TypeParamBound::Trait(_) => {
                proof {
                    lemma_bound_relations_fail(lifetimes_view(*declared), p@, predicate, k as nat + 1, p.bounds.len() as nat);
                }
                return Err(Violation::new(Rule::Unsupported, Place::PredicateBound { predicate, bound: k }));
            },
        }
        k += 1;
    }
    Ok(out)
}

/// A violation among the first `n` bounds is the violation among the first
/// `m`, for `m` from `n` on.
proof fn lemma_bound_relations_fail(declared: Seq<Seq<char>>, p: PredicateTypeView, predicate: usize, n: nat, m: nat)
    requires
        n <= m,
        bound_relations(declared, p, predicate, n) is Err,
    ensures
        bound_relations(declared, p, predicate, m) == bound_relations(declared, p, predicate, n),
    decreases m - n,
{
    if n < m {
        lemma_bound_relations_fail(declared, p, predicate, n, (m - 1) as nat);
    }
}

proof fn lemma_declared_lifetimes_fail(params: Seq<GenericParamView>, n: nat, m: nat)
    requires
        n <= m,
        declared_lifetimes(params, n) is Err,
    ensures
        declared_lifetimes(params, m) == declared_lifetimes(params, n),
    decreases m - n,
{
    if n < m {
        lemma_declared_lifetimes_fail(params, n, (m - 1) as nat);
    }
}

proof fn lemma_where_relations_fail(declared: Seq<Seq<char>>, predicates: Seq<WherePredicateView>, n: nat, m: nat)
    requires
        n <= m,
        where_relations(declared, predicates, n) is Err,
    ensures
        where_relations(declared, predicates, m) == where_relations(declared, predicates, n),
    decreases m - n,
{
    if n < m {
        lemma_where_relations_fail(declared, predicates, n, (m - 1) as nat);
    }
}

impl LGat {
    /// Reads the generics of an associated type: the lifetimes it declares,
    /// and for each bound `Type: 'a` of its `where` clause the pair of `'a`
    /// and `Type`.
    pub fn parse_generics(generics: Generics) -> (r: Result<
        (Vec<Lifetime>, Vec<(Lifetime, Option<Type>)>),
        Violation,
    >)
        ensures
            match parsed_generics(generics@) {
                Ok((declared, relations)) => r matches Ok(out) && lifetimes_view(out.0) == declared
                    && super_types_view(out.1) == relations,
                Err(violation) => r == Err::<(Vec<Lifetime>, Vec<(Lifetime, Option<Type>)>), Violation>(violation),
            },
    {
        let mut generic_lifetimes: Vec<Lifetime> = Vec::new();
        let mut i: usize = 0;
        assert(lifetimes_view(generic_lifetimes) =~= Seq::empty());
        while i < generics.params.len()
            invariant
                i <= generics.params.len(),
                declared_lifetimes(generics@.params, i as nat) == Ok::<Seq<Seq<char>>, Violation>(
                    lifetimes_view(generic_lifetimes),
                ),
            decreases generics.params.len() - i,
        {
            let ghost before = lifetimes_view(generic_lifetimes);
            assert(generics@.params[i as int] == generics.params[i as int]@);
            match &generics.params[i] {
                GenericParam::Lifetime(def) => {
                    if def.attrs.len() > 0 {
                        proof {
                            lemma_declared_lifetimes_fail(generics@.params, i as nat + 1, generics.params.len() as nat);
                        }
                        return Err(Violation::new(Rule::Unsupported, Place::ParamAttr { param: i }));
                    }
                    if def.bounds.len() > 0 {
                        proof {
                            lemma_declared_lifetimes_fail(generics@.params, i as nat + 1, generics.params.len() as nat);
                        }
                        return Err(Violation::new(Rule::Unsupported, Place::ParamBound { param: i }));
                    }
                    generic_lifetimes.push(def.lifetime.copy());
                    assert(lifetimes_view(generic_lifetimes) =~= before.push(def.lifetime@));
                },
                _ => {
                    proof {
                        lemma_declared_lifetimes_fail(generics@.params, i as nat + 1, generics.params.len() as nat);
                    }
                    return Err(Violation::new(Rule::NonLifetimeGat, Place::Param { param: i }));
                },
            }
            i += 1;
        }
        let ghost declared = lifetimes_view(generic_lifetimes);
        let mut super_types: Vec<(Lifetime, Option<Type>)> = Vec::new();
        assert(super_types_view(super_types) =~= Seq::empty());
        match &generics.where_clause {
            Some(predicates) => {
                let mut j: usize = 0;
                while j < predicates.len()
                    invariant
                        j <= predicates.len(),
                        declared == lifetimes_view(generic_lifetimes),
                        where_predicates(generics@) == predicates_view(*predicates),
                        declared_lifetimes(generics@.params, generics@.params.len()) == Ok::<
                            Seq<Seq<char>>,
                            Violation,
                        >(declared),
                        where_relations(declared, predicates_view(*predicates), j as nat) == Ok::<
                            Seq<(Seq<char>, Option<TypeView>)>,
                            Violation,
                        >(super_types_view(super_types)),
                    decreases predicates.len() - j,
                {
                    let ghost before = super_types_view(super_types);
                    assert(predicates_view(*predicates)[j as int] == predicates[j as int]@);
                    match &predicates[j] {
                        WherePredicate::Type(p) => {
                            let higher = match &p.lifetimes {
                                Some(lifetimes) => lifetimes.len() > 0,
                                None => false,
                            };
                            if higher {
                                proof {
                                    lemma_where_relations_fail(
                                        declared,
                                        predicates_view(*predicates),
                                        j as nat + 1,
                                        predicates.len() as nat,
                                    );
                                }
                                return Err(
                                    Violation::new(Rule::HigherOrderLifetime, Place::PredicateFor { predicate: j }),
                                );
                            }
                            match relations_of(&generic_lifetimes, p, j) {
                                Ok(mut more) => {
                                    let ghost added = super_types_view(more);
                                    super_types.append(&mut more);
                                    assert(super_types_view(super_types) =~= before + added);
                                },
                                Err(violation) => {
                                    proof {
                                        lemma_where_relations_fail(
                                            declared,
                                            predicates_view(*predicates),
                                            j as nat + 1,
                                            predicates.len() as nat,
                                        );
                                    }
                                    return Err(violation);
                                },
                            }
                        },
                        _ => {
                            proof {
                                lemma_where_relations_fail(
                                    declared,
                                    predicates_view(*predicates),
                                    j as nat + 1,
                                    predicates.len() as nat,
                                );
                            }
                            return Err(
                                Violation::new(Rule::UnsupportedWherePredicate, Place::Predicate { predicate: j }),
                            );
                        },
                    }
                    j += 1;
                }
            },
            None => {},
        }
        Ok((generic_lifetimes, super_types))
    }
}

pub open spec fn reading_view(r: Result<LGat, Violation>) -> Result<LGatView, Violation> {
    match r {
        Ok(lgat) => Ok(lgat@),
        Err(violation) => Err(violation),
    }
}

pub open spec fn readings_view(v: Vec<Result<LGat, Violation>>) -> Seq<Result<LGatView, Violation>> {
    v@.map_values(|r: Result<LGat, Violation>| reading_view(r))
}

/// The associated types that the first `n` readings gave, or the violation
/// of the first reading among them that failed, with its index.
pub open spec fn collected_lgats(readings: Seq<Result<LGatView, Violation>>, n: nat) -> Result<
    Seq<LGatView>,
    Violation,
>
    decreases n,
{
    if n == 0 {
        Ok(Seq::empty())
    } else {
        match collected_lgats(readings, (n - 1) as nat) {
            Err(violation) => Err(violation),
            Ok(lgats) => match readings[n - 1] {
                Err(violation) => Err(violation.within((n - 1) as usize)),
                Ok(lgat) => Ok(lgats.push(lgat)),
            },
        }
    }
}

proof fn lemma_collected_lgats_fail(readings: Seq<Result<LGatView, Violation>>, n: nat, m: nat)
    requires
        n <= m,
        collected_lgats(readings, n) is Err,
    ensures
        collected_lgats(readings, m) == collected_lgats(readings, n),
    decreases m - n,
{
    if n < m {
        lemma_collected_lgats_fail(readings, n, (m - 1) as nat);
    }
}

/// Hands out the associated types that were read, or the violation of the
/// first that could not be, with its index among them.
pub fn collect_lgats(readings: Vec<Result<LGat, Violation>>) -> (r: Result<Vec<LGat>, Violation>)
    ensures
        match collected_lgats(readings_view(readings), readings.len() as nat) {
            Ok(lgats) => r matches Ok(out) && out@.map_values(|l: LGat| l@) == lgats,
            Err(violation) => r == Err::<Vec<LGat>, Violation>(violation),
        },
{
    let ghost all = readings_view(readings);
    let n = readings.len();
    let mut source = readings;
    let mut lgats: Vec<LGat> = Vec::new();
    let mut i: usize = 0;
    proof {
        assert(lgats@.map_values(|l: LGat| l@) =~= Seq::empty());
        assert(readings_view(source) =~= all.skip(0));
    }
    while i < n
        invariant
            i <= n,
            n == all.len(),
            n == readings.len(),
            all == readings_view(readings),
            readings_view(source) == all.skip(i as int),
            collected_lgats(all, i as nat) == Ok::<Seq<LGatView>, Violation>(lgats@.map_values(|l: LGat| l@)),
        decreases n - i,
    {
        let ghost before = lgats@.map_values(|l: LGat| l@);
        let ghost source_before = source@;
        assert(readings_view(source).len() == source.len());
        assert(readings_view(source)[0] == reading_view(source@[0]));
        let reading = source.remove(0);
        proof {
            assert(reading_view(reading) == all[i as int]);
            assert forall|j: int| 0 <= j < source@.len() implies #[trigger] readings_view(source)[j] == all.skip(
                i + 1,
            )[j] by {
                assert(source@[j] == source_before[j + 1]);
                assert(all.skip(i as int)[j + 1] == reading_view(source_before[j + 1]));
            }
            assert(readings_view(source) =~= all.skip(i + 1));
        }
        match reading {
            Ok(lgat) => {
                lgats.push(lgat);
                assert(lgats@.map_values(|l: LGat| l@) =~= before.push(lgat@));
            },
            Err(violation) => {
                proof {
                    lemma_collected_lgats_fail(all, i as nat + 1, n as nat);
                }
                return Err(violation.in_item(i));
            },
        }
        i += 1;
    }
    Ok(lgats)
}

/// What an annotated item expands to.
#[derive(Debug, PartialEq, Eq)]
pub enum Expansion {
    Trait(TraitExpansion),
    Impl(ImplExpansion),
    Use(UseExpansion),
}

pub enum ExpansionView {
    Trait(TraitExpansionView),
    Impl(ImplExpansionView),
    Use(UseExpansionView),
}

impl View for Expansion {
    type V = ExpansionView;

    open spec fn view(&self) -> ExpansionView {
        match self {
            Expansion::Trait(e) => ExpansionView::Trait(e@),
            Expansion::Impl(e) => ExpansionView::Impl(e@),
            Expansion::Use(e) => ExpansionView::Use(e@),
        }
    }
}

/// What the item `input` expands to under the annotation with the
/// arguments `attrs`. A trait and an impl take no argument; an import takes
/// the names of the associated types; any other item is refused.
pub open spec fn attr_expansion(attrs: Seq<Seq<char>>, input: ItemView) -> Result<ExpansionView, Violation> {
    match input {
        ItemView::Trait(t) => if attrs.len() > 0 {
            Err(Violation::at(Rule::UnexpectedToken, Place::Argument))
        } else {
            match trait_expansion(t) {
                Ok(e) => Ok(ExpansionView::Trait(e)),
                Err(violation) => Err(violation),
            }
        },
        ItemView::Impl(t) => if attrs.len() > 0 {
            Err(Violation::at(Rule::UnexpectedToken, Place::Argument))
        } else {
            match impl_expansion(t) {
                Ok(e) => Ok(ExpansionView::Impl(e)),
                Err(violation) => Err(violation),
            }
        },
        ItemView::Use(t) => match use_expansion(t, attrs) {
            Ok(e) => Ok(ExpansionView::Use(e)),
            Err(violation) => Err(violation),
        },
        ItemView::Other(_) => Err(Violation::at(Rule::ExpectedTraitOrImpl, Place::CallSite)),
    }
}

/// Expands an annotated item.
pub fn gat(attrs: &Vec<String>, input: Item) -> (r: Result<Expansion, Violation>)
    ensures
        match attr_expansion(attrs.deep_view(), input@) {
            Ok(expansion) => r matches Ok(out) && out@ == expansion,
            Err(violation) => r == Err::<Expansion, Violation>(violation),
        },
{
    match input {
        Item::Trait(item_trait) => {
            if attrs.len() > 0 {
                return Err(Violation::new(Rule::UnexpectedToken, Place::Argument));
            }
            match trait_def::handle(item_trait) {
                Ok(e) => Ok(Expansion::Trait(e)),
                Err(violation) => Err(violation),
            }
        },
        Item::Impl(item_impl) => {
            if attrs.len() > 0 {
                return Err(Violation::new(Rule::UnexpectedToken, Place::Argument));
            }
            match trait_impl::handle(item_impl) {
                Ok(e) => Ok(Expansion::Impl(e)),
                Err(violation) => Err(violation),
            }
        },
        Item::Use(item_use) => match trait_use::handle(item_use, attrs) {
            Ok(e) => Ok(Expansion::Use(e)),
            Err(violation) => Err(violation),
        },
        Item::Other(_) => Err(Violation::new(Rule::ExpectedTraitOrImpl, Place::CallSite)),
    }
}

} // verus!
