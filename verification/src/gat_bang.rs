//! The rewriting of one qualified path, `<Type as Trait<..>>::Assoc<'a>`,
//! into a path through the auxiliary trait of `Assoc`, and of the bounds
//! `Trait<Assoc<'a> = Value>`.
use vstd::prelude::*;
use crate::adjugate::adjugate;
use crate::adjugate::adjugated;
use crate::syntax::copy_binding;
use crate::syntax::GatBinding;
use crate::syntax::GatBindingView;
use crate::error::Place;
use crate::error::Rule;
use crate::error::Violation;
use crate::item::Item;
use crate::item::ItemView;
use crate::syntax::args_view;
use crate::syntax::copy_arg;
use crate::syntax::copy_args;
use crate::syntax::copy_segment;
use crate::syntax::copy_type;
use crate::syntax::copy_trait_bound;
use crate::syntax::copy_type_path;
use crate::syntax::bound_view;
use crate::syntax::bounds_view;
use crate::syntax::copy_opt_lifetime_defs;
use crate::syntax::lifetimes_view;
use crate::syntax::trait_bound_view;
use crate::syntax::type_path_view;
use crate::syntax::Lifetime;
use crate::syntax::TraitBound;
use crate::syntax::TraitBoundView;
use crate::syntax::Type;
use crate::syntax::TypeParamBound;
use crate::syntax::TypeParamBoundView;
use crate::syntax::GenericArgument;
use crate::syntax::GenericArgumentView;
use crate::syntax::Path;
use crate::syntax::PathArguments;
use crate::syntax::PathArgumentsView;
use crate::syntax::PathSegment;
use crate::syntax::PathSegmentView;
use crate::syntax::PathView;
use crate::syntax::QSelf;
use crate::syntax::TypePath;
use crate::syntax::TypePathView;

verus! {

/// The name of the auxiliary trait that stands for the associated type
/// `assoc_type` of the trait `trait_name`: the two names with `__` between.
pub open spec fn combined_name(trait_name: Seq<char>, assoc_type: Seq<char>) -> Seq<char> {
    trait_name + "__"@ + assoc_type
}

/// The name of the one associated type of every auxiliary trait.
pub open spec fn synthetic_assoc() -> Seq<char> {
    "T"@
}

/// The name of the one associated type of every auxiliary trait.
pub fn synthetic_assoc_name() -> (r: String)
    ensures
        r@ == synthetic_assoc(),
{
    "T".to_owned()
}

/// Names the auxiliary trait of the associated type `assoc_type` of the
/// trait `trait_name`.
pub fn combine_trait_name_and_assoc_type(trait_name: &str, assoc_type: &str) -> (r: String)
    ensures
        r@ == combined_name(trait_name@, assoc_type@),
{
    let mut name = trait_name.to_owned();
    name.append("__");
    name.append(assoc_type);
    name
}

/// `first` followed by `second`.
pub fn concat_args(first: &Vec<GenericArgument>, second: &Vec<GenericArgument>) -> (r: Vec<GenericArgument>)
    ensures
        args_view(r) == args_view(*first) + args_view(*second),
{
    let mut out: Vec<GenericArgument> = Vec::new();
    let mut i: usize = 0;
    while i < first.len()
        invariant
            i <= first.len(),
            out.len() == i,
            forall|j: int| 0 <= j < i ==> out[j]@ == first[j]@,
        decreases first.len() - i,
    {
        out.push(copy_arg(&first[i]));
        i += 1;
    }
    let mut k: usize = 0;
    while k < second.len()
        invariant
            k <= second.len(),
            out.len() == first.len() + k,
            forall|j: int| 0 <= j < first.len() ==> out[j]@ == first[j]@,
            forall|j: int| 0 <= j < k ==> out[first.len() + j]@ == second[j]@,
        decreases second.len() - k,
    {
        out.push(copy_arg(&second[k]));
        k += 1;
    }
    assert(args_view(out) =~= args_view(*first) + args_view(*second));
    out
}

/// The path `p` with the segments of its trait and of its associated type
/// replaced by a segment for the auxiliary trait, which carries `args`, and
/// the segment `T`.
pub open spec fn spliced_path(p: TypePathView, colon2_token: bool, args: Seq<GenericArgumentView>) -> TypePathView
    recommends
        p.qself is Some,
        1 <= p.qself->0.position < p.path.segments.len(),
{
    let pos = p.qself->0.position as int;
    let trait_ = p.path.segments[pos - 1];
    let assoc = p.path.segments[pos];
    TypePathView {
        qself: p.qself,
        path: PathView {
            leading_colon: p.path.leading_colon,
            segments: p.path.segments.take(pos - 1).push(
                PathSegmentView {
                    ident: combined_name(trait_.ident, assoc.ident),
                    arguments: PathArgumentsView::AngleBracketed { colon2_token, args },
                },
            ).push(PathSegmentView { ident: synthetic_assoc(), arguments: PathArgumentsView::Absent }),
        },
    }
}

/// What becomes of the qualified path `p`: the path through the auxiliary
/// trait, whose arguments are those of the trait followed by those of the
/// associated type, or the first rule that `p` breaks.
pub open spec fn rewritten_path(p: TypePathView) -> Result<TypePathView, Violation> {
    match p.qself {
        None => Err(Violation::at(Rule::ExpectedQualifier, Place::FirstSegment)),
        Some(q) => {
            let segments = p.path.segments;
            let pos = q.position as int;
            if !q.as_token {
                Err(Violation::at(Rule::ExpectedAs, Place::QualifierEnd))
            } else if pos == 0 || pos >= segments.len() {
                Err(Violation::at(Rule::ExpectedQualifiedPath, Place::CallSite))
            } else if segments.len() > pos + 1 {
                Err(Violation::at(Rule::NestedAssociatedPath, Place::AfterAssociated))
            } else {
                match segments[pos].arguments {
                    PathArgumentsView::Absent => Err(
                        Violation::at(Rule::MissingLifetimeGenerics, Place::AssociatedName),
                    ),
                    PathArgumentsView::Parenthesized { .. } => Err(
                        Violation::at(Rule::ExpectedAngleBrackets, Place::AssociatedArguments),
                    ),
                    PathArgumentsView::AngleBracketed { colon2_token, args } => match segments[pos - 1].arguments {
                        PathArgumentsView::Parenthesized { .. } => Err(
                            Violation::at(Rule::ExpectedAngleBrackets, Place::TraitArguments),
                        ),
                        PathArgumentsView::Absent => Ok(spliced_path(p, colon2_token, args)),
                        PathArgumentsView::AngleBracketed { args: trait_args, .. } => Ok(
                            spliced_path(p, colon2_token, trait_args + args),
                        ),
                    },
                }
            }
        },
    }
}

/// Builds `spliced_path` of `p` with the arguments `args`.
fn splice(p: &TypePath, colon2_token: bool, args: Vec<GenericArgument>) -> (r: TypePath)
    requires
        p.qself is Some,
        1 <= p.qself->0.position < p.path.segments.len(),
    ensures
        r@ == spliced_path(p@, colon2_token, args_view(args)),
{
    let qself = match &p.qself {
        Some(q) => q,
        None => {
            return copy_type_path(p);
        },
    };
    let pos: usize = qself.position;
    let segments = &p.path.segments;
    let mut out: Vec<PathSegment> = Vec::new();
    let mut i: usize = 0;
    while i < pos - 1
        invariant
            i <= pos - 1,
            pos < segments.len(),
            out.len() == i,
            forall|j: int| 0 <= j < i ==> out[j]@ == segments[j]@,
        decreases pos - 1 - i,
    {
        out.push(copy_segment(&segments[i]));
        i += 1;
    }
    let ident = combine_trait_name_and_assoc_type(segments[pos - 1].ident.as_str(), segments[pos].ident.as_str());
    out.push(PathSegment { ident, arguments: PathArguments::AngleBracketed { colon2_token, args } });
    out.push(PathSegment { ident: synthetic_assoc_name(), arguments: PathArguments::Absent });
    let rewritten = TypePath {
        qself: Some(QSelf { ty: Box::new(copy_type(&qself.ty)), position: pos, as_token: qself.as_token }),
        path: Path { leading_colon: p.path.leading_colon, segments: out },
    };
    proof {
        reveal_with_fuel(type_path_view, 3);
        assert(rewritten@.path.segments =~= spliced_path(p@, colon2_token, args_view(args)).path.segments);
    }
    rewritten
}

/// Rewrites `<Type as Trait<G>>::Assoc<'a>` into `<Type as Trait__Assoc<G, 'a>>::T`.
pub fn rewrite_qualified_path(p: &TypePath) -> (r: Result<TypePath, Violation>)
    ensures
        match rewritten_path(p@) {
            Ok(path) => r matches Ok(out) && out@ == path,
            Err(violation) => r == Err::<TypePath, Violation>(violation),
        },
{
    let qself = match &p.qself {
        None => {
            return Err(Violation::new(Rule::ExpectedQualifier, Place::FirstSegment));
        },
        Some(q) => q,
    };
    if !qself.as_token {
        return Err(Violation::new(Rule::ExpectedAs, Place::QualifierEnd));
    }
    let pos: usize = qself.position;
    let segments = &p.path.segments;
    if pos == 0 || pos >= segments.len() {
        return Err(Violation::new(Rule::ExpectedQualifiedPath, Place::CallSite));
    }
    if segments.len() > pos + 1 {
        return Err(Violation::new(Rule::NestedAssociatedPath, Place::AfterAssociated));
    }
    proof {
        reveal_with_fuel(type_path_view, 3);
    }
    match &segments[pos].arguments {
        PathArguments::Absent => Err(Violation::new(Rule::MissingLifetimeGenerics, Place::AssociatedName)),
        PathArguments::Parenthesized { .. } => Err(
            Violation::new(Rule::ExpectedAngleBrackets, Place::AssociatedArguments),
        ),
        PathArguments::AngleBracketed { colon2_token, args } => match &segments[pos - 1].arguments {
            PathArguments::Parenthesized { .. } => Err(
                Violation::new(Rule::ExpectedAngleBrackets, Place::TraitArguments),
            ),
            PathArguments::Absent => Ok(splice(p, *colon2_token, copy_args(args))),
            PathArguments::AngleBracketed { args: trait_args, .. } => Ok(
                splice(p, *colon2_token, concat_args(trait_args, args)),
            ),
        },
    }
}

/// The binding that an argument is, if it binds an associated type with
/// one lifetime parameter at least.
pub open spec fn binding_in(arg: GenericArgumentView) -> Option<GatBindingView> {
    match arg {
        GenericArgumentView::GatBinding(b) => if b.lifetimes.len() > 0 {
            Some(b)
        } else {
            None
        },
        _ => None,
    }
}

pub open spec fn binding() -> spec_fn(GenericArgumentView) -> Option<GatBindingView> {
    |arg: GenericArgumentView| binding_in(arg)
}

pub open spec fn no_binding() -> spec_fn(GenericArgumentView) -> bool {
    |arg: GenericArgumentView| binding_in(arg) is None
}

pub open spec fn lifetime_arg() -> spec_fn(GenericArgumentView) -> bool {
    |arg: GenericArgumentView| arg is Lifetime
}

pub open spec fn type_or_const_arg() -> spec_fn(GenericArgumentView) -> bool {
    |arg: GenericArgumentView| arg is Type || arg is Const
}

pub open spec fn as_lifetime_arg() -> spec_fn(Seq<char>) -> GenericArgumentView {
    |lifetime: Seq<char>| GenericArgumentView::Lifetime(lifetime)
}

/// Whether the last segment of the path of `t` has arguments in `<..>`.
pub open spec fn has_angle_args(t: TraitBoundView) -> bool {
    t.path.segments.len() > 0 && t.path.segments.last().arguments is AngleBracketed
}

/// The arguments of the last segment of the path of `t`.
pub open spec fn last_args(t: TraitBoundView) -> Seq<GenericArgumentView>
    recommends
        has_angle_args(t),
{
    t.path.segments.last().arguments->AngleBracketed_args
}

/// `t` with another last segment.
pub open spec fn with_last_segment(t: TraitBoundView, segment: PathSegmentView) -> TraitBoundView
    recommends
        t.path.segments.len() > 0,
{
    TraitBoundView {
        paren_token: t.paren_token,
        maybe: t.maybe,
        lifetimes: t.lifetimes,
        path: PathView {
            leading_colon: t.path.leading_colon,
            segments: t.path.segments.drop_last().push(segment),
        },
    }
}

/// `t` without the bindings `Assoc<'a> = Value` among its arguments.
pub open spec fn without_bindings(t: TraitBoundView) -> TraitBoundView {
    if has_angle_args(t) {
        let last = t.path.segments.last();
        with_last_segment(
            t,
            PathSegmentView {
                ident: last.ident,
                arguments: PathArgumentsView::AngleBracketed {
                    colon2_token: last.arguments->AngleBracketed_colon2_token,
                    args: last_args(t).filter(no_binding()),
                },
            },
        )
    } else {
        t
    }
}

/// The bound that stands for the binding `b` of the bound `t`, which holds
/// no binding any more: the auxiliary trait of `b`, with the lifetimes of
/// `t`, the lifetimes of `b`, the types and constants of `t`, and `T = Value`.
/// A bound whose path does not end in arguments in `<..>` can have had no
/// binding, and stays as it is.
pub open spec fn auxiliary_bound(t: TraitBoundView, b: GatBindingView) -> TraitBoundView {
    if has_angle_args(t) {
        with_last_segment(
            t,
            PathSegmentView {
                ident: combined_name(t.path.segments.last().ident, b.ident),
                arguments: PathArgumentsView::AngleBracketed {
                    colon2_token: false,
                    args: last_args(t).filter(lifetime_arg()) + b.lifetimes.map_values(as_lifetime_arg())
                        + last_args(t).filter(type_or_const_arg()) + seq![
                        GenericArgumentView::Binding { ident: synthetic_assoc(), ty: b.ty },
                    ],
                },
            },
        )
    } else {
        t
    }
}

/// The bounds that stand for the bindings of `t`, in the order of the
/// bindings.
pub open spec fn auxiliary_bounds(t: TraitBoundView) -> Seq<TypeParamBoundView> {
    if has_angle_args(t) {
        last_args(t).filter_map(binding()).map_values(
            |b: GatBindingView| TypeParamBoundView::Trait(auxiliary_bound(without_bindings(t), b)),
        )
    } else {
        Seq::empty()
    }
}

pub open spec fn bound_without_bindings(b: TypeParamBoundView) -> TypeParamBoundView {
    match b {
        TypeParamBoundView::Trait(t) => TypeParamBoundView::Trait(without_bindings(t)),
        TypeParamBoundView::Lifetime(_) => b,
    }
}

pub open spec fn bound_auxiliaries(b: TypeParamBoundView) -> Seq<TypeParamBoundView> {
    match b {
        TypeParamBoundView::Trait(t) => auxiliary_bounds(t),
        TypeParamBoundView::Lifetime(_) => Seq::empty(),
    }
}

/// What becomes of a list of bounds: each bound without its bindings, then
/// the auxiliary bounds of the first bound, then those of the second, and
/// so on.
pub open spec fn handled_bounds(bounds: Seq<TypeParamBoundView>) -> Seq<TypeParamBoundView> {
    bounds.map_values(|b: TypeParamBoundView| bound_without_bindings(b)) + bounds.map_values(
        |b: TypeParamBoundView| bound_auxiliaries(b),
    ).flatten()
}

pub open spec fn bindings_view(v: Vec<GatBinding>) -> Seq<GatBindingView> {
    v@.map_values(|b: GatBinding| b@)
}

/// Parts the arguments that are no binding from the bindings.
fn strip_bindings(args: &Vec<GenericArgument>) -> (r: (Vec<GenericArgument>, Vec<GatBinding>))
    ensures
        args_view(r.0) == args_view(*args).filter(no_binding()),
        bindings_view(r.1) == args_view(*args).filter_map(binding()),
{
    let mut kept: Vec<GenericArgument> = Vec::new();
    let mut bindings: Vec<GatBinding> = Vec::new();
    let mut i: usize = 0;
    assert(args_view(*args).take(0) =~= Seq::empty());
    assert(args_view(kept) =~= Seq::empty());
    assert(bindings_view(bindings) =~= Seq::empty());
    proof {
        reveal(Seq::filter);
    }
    while i < args.len()
        invariant
            i <= args.len(),
            args_view(kept) == args_view(*args).take(i as int).filter(no_binding()),
            bindings_view(bindings) == args_view(*args).take(i as int).filter_map(binding()),
        decreases args.len() - i,
    {
        let ghost before = args_view(*args).take(i as int);
        let ghost old_kept = args_view(kept);
        let ghost old_bindings = bindings_view(bindings);
        let found = match &args[i] {
            GenericArgument::GatBinding(b) => if b.lifetimes.len() > 0 {
                Some(copy_binding(b))
            } else {
                None
            },
            _ => None,
        };
        proof {
            reveal_with_fuel(crate::syntax::arg_view, 2);
            assert(args_view(*args)[i as int] == args[i as int]@);
            assert(args_view(*args).take(i + 1) =~= before.push(args[i as int]@));
            before.lemma_filter_push(args[i as int]@, no_binding());
            args_view(*args).lemma_filter_map_take_succ(binding(), i as int);
        }
        match found {
            Some(b) => {
                bindings.push(b);
                assert(bindings_view(bindings) =~= old_bindings + seq![b@]);
            },
            None => {
                kept.push(copy_arg(&args[i]));
                assert(args_view(kept) =~= old_kept.push(args[i as int]@));
            },
        }
        i += 1;
    }
    assert(args_view(*args).take(args.len() as int) =~= args_view(*args));
    (kept, bindings)
}

/// The lifetimes among `args`, or the types and constants among them.
fn select_args(args: &Vec<GenericArgument>, lifetimes: bool) -> (r: Vec<GenericArgument>)
    ensures
        args_view(r) == args_view(*args).filter(
            if lifetimes {
                lifetime_arg()
            } else {
                type_or_const_arg()
            },
        ),
{
    let ghost pred = if lifetimes {
        lifetime_arg()
    } else {
        type_or_const_arg()
    };
    let mut out: Vec<GenericArgument> = Vec::new();
    let mut i: usize = 0;
    assert(args_view(*args).take(0) =~= Seq::empty());
    assert(args_view(out) =~= Seq::empty());
    proof {
        reveal(Seq::filter);
    }
    while i < args.len()
        invariant
            i <= args.len(),
            pred == if lifetimes {
                lifetime_arg()
            } else {
                type_or_const_arg()
            },
            args_view(out) == args_view(*args).take(i as int).filter(pred),
        decreases args.len() - i,
    {
        let ghost before = args_view(*args).take(i as int);
        let ghost old_out = args_view(out);
        let wanted = match &args[i] {
            GenericArgument::Lifetime(_) => lifetimes,
            GenericArgument::Type(_) => !lifetimes,
            GenericArgument::Const(_) => !lifetimes,
            _ => false,
        };
        proof {
            reveal_with_fuel(crate::syntax::arg_view, 2);
            assert(args_view(*args)[i as int] == args[i as int]@);
            assert(args_view(*args).take(i + 1) =~= before.push(args[i as int]@));
            before.lemma_filter_push(args[i as int]@, pred);
        }
        if wanted {
            out.push(copy_arg(&args[i]));
            assert(args_view(out) =~= old_out.push(args[i as int]@));
        }
        i += 1;
    }
    assert(args_view(*args).take(args.len() as int) =~= args_view(*args));
    out
}

/// `t` with `segment` in place of its last segment.
fn replace_last_segment(t: &TraitBound, segment: PathSegment) -> (r: TraitBound)
    requires
        t.path.segments.len() > 0,
    ensures
        r@ == with_last_segment(t@, segment@),
{
    let n = t.path.segments.len();
    let mut out: Vec<PathSegment> = Vec::new();
    let mut i: usize = 0;
    while i < n - 1
        invariant
            i <= n - 1,
            n == t.path.segments.len(),
            out.len() == i,
            forall|j: int| 0 <= j < i ==> out[j]@ == t.path.segments[j]@,
        decreases n - 1 - i,
    {
        out.push(copy_segment(&t.path.segments[i]));
        i += 1;
    }
    out.push(segment);
    let r = TraitBound {
        paren_token: t.paren_token,
        maybe: t.maybe,
        lifetimes: copy_opt_lifetime_defs(&t.lifetimes),
        path: Path { leading_colon: t.path.leading_colon, segments: out },
    };
    proof {
        reveal_with_fuel(trait_bound_view, 3);
        assert(r@.path.segments =~= with_last_segment(t@, segment@).path.segments);
    }
    r
}

/// Builds the bound that stands for the binding `b` of the bound `t`, of
/// which the bindings were taken out before.
pub fn auxiliary_bound_for(t: &TraitBound, b: &GatBinding) -> (r: TraitBound)
    ensures
        r@ == auxiliary_bound(t@, b@),
{
    proof {
        reveal_with_fuel(trait_bound_view, 3);
    }
    let n = t.path.segments.len();
    if n == 0 {
        return copy_trait_bound(t);
    }
    let last = &t.path.segments[n - 1];
    assert(t@.path.segments.last() == last@);
    let mut args = match &last.arguments {
        PathArguments::AngleBracketed { args, .. } => {
            let mut out = select_args(args, true);
            let mut k: usize = 0;
            let ghost head = args_view(out);
            while k < b.lifetimes.len()
                invariant
                    k <= b.lifetimes.len(),
                    args_view(out) == head + lifetimes_view(b.lifetimes).take(k as int).map_values(
                        as_lifetime_arg(),
                    ),
                decreases b.lifetimes.len() - k,
            {
                let ghost before = args_view(out);
                out.push(GenericArgument::Lifetime(b.lifetimes[k].copy()));
                proof {
                    reveal_with_fuel(crate::syntax::arg_view, 2);
                    assert(args_view(out) =~= before.push(GenericArgumentView::Lifetime(b.lifetimes[k as int]@)));
                    assert(lifetimes_view(b.lifetimes).take(k + 1).map_values(as_lifetime_arg()) =~= lifetimes_view(
                        b.lifetimes,
                    ).take(k as int).map_values(as_lifetime_arg()).push(
                        GenericArgumentView::Lifetime(b.lifetimes[k as int]@),
                    ));
                }
                k += 1;
            }
            assert(lifetimes_view(b.lifetimes).take(b.lifetimes.len() as int) =~= lifetimes_view(b.lifetimes));
            let rest = select_args(args, false);
            concat_args(&out, &rest)
        },
        _ => {
            return copy_trait_bound(t);
        },
    };
    let ghost before = args_view(args);
    let ident = combine_trait_name_and_assoc_type(last.ident.as_str(), b.ident.as_str());
    args.push(GenericArgument::Binding { ident: synthetic_assoc_name(), ty: copy_type(&b.ty) });
    proof {
        reveal_with_fuel(crate::syntax::arg_view, 2);
        assert(args_view(args) =~= before + seq![
            GenericArgumentView::Binding { ident: synthetic_assoc(), ty: b@.ty },
        ]);
    }
    replace_last_segment(
        t,
        PathSegment { ident, arguments: PathArguments::AngleBracketed { colon2_token: false, args } },
    )
}

/// Builds the auxiliary bound of each of `bindings`.
fn auxiliary_bounds_for(t: &TraitBound, bindings: &Vec<GatBinding>) -> (r: Vec<TypeParamBound>)
    ensures
        bounds_view(r) == bindings_view(*bindings).map_values(
            |b: GatBindingView| TypeParamBoundView::Trait(auxiliary_bound(t@, b)),
        ),
{
    let ghost make = |b: GatBindingView| TypeParamBoundView::Trait(auxiliary_bound(t@, b));
    let mut out: Vec<TypeParamBound> = Vec::new();
    let mut k: usize = 0;
    while k < bindings.len()
        invariant
            k <= bindings.len(),
            out.len() == k,
            forall|j: int| 0 <= j < k ==> out[j]@ == TypeParamBoundView::Trait(auxiliary_bound(t@, bindings[j]@)),
        decreases bindings.len() - k,
    {
        let aux = auxiliary_bound_for(t, &bindings[k]);
        proof {
            reveal_with_fuel(bound_view, 2);
        }
        out.push(TypeParamBound::Trait(aux));
        k += 1;
    }
    assert(bounds_view(out) =~= bindings_view(*bindings).map_values(make));
    out
}

/// The bound `t` without its bindings, and the bounds that stand for them.
fn split_trait_bound(t: &TraitBound) -> (r: (TraitBound, Vec<TypeParamBound>))
    ensures
        r.0@ == without_bindings(t@),
        bounds_view(r.1) == auxiliary_bounds(t@),
{
    proof {
        reveal_with_fuel(trait_bound_view, 3);
    }
    let n = t.path.segments.len();
    if n == 0 {
        let none: Vec<TypeParamBound> = Vec::new();
        assert(bounds_view(none) =~= Seq::empty());
        return (copy_trait_bound(t), none);
    }
    let last = &t.path.segments[n - 1];
    assert(t@.path.segments.last() == last@);
    match &last.arguments {
        PathArguments::AngleBracketed { colon2_token, args } => {
            let (kept, bindings) = strip_bindings(args);
            let stripped = replace_last_segment(
                t,
                PathSegment {
                    ident: last.ident.clone(),
                    arguments: PathArguments::AngleBracketed { colon2_token: *colon2_token, args: kept },
                },
            );
            let extra = auxiliary_bounds_for(&stripped, &bindings);
            assert(bounds_view(extra) =~= auxiliary_bounds(t@));
            (stripped, extra)
        },
        _ => {
            let none: Vec<TypeParamBound> = Vec::new();
            assert(bounds_view(none) =~= Seq::empty());
            (copy_trait_bound(t), none)
        },
    }
}

/// Takes the bindings `Assoc<'a> = Value` out of the arguments of each
/// bound, and appends for each of them a bound on the auxiliary trait of
/// `Assoc`. A bound without such a binding stays as it is.
pub fn handle_trait_bounds(bounds: &mut Vec<TypeParamBound>)
    ensures
        bounds_view(*final(bounds)) == handled_bounds(bounds_view(*old(bounds))),
{
    let ghost input = bounds_view(*bounds);
    let ghost strip = |b: TypeParamBoundView| bound_without_bindings(b);
    let ghost aux = |b: TypeParamBoundView| bound_auxiliaries(b);
    let mut out: Vec<TypeParamBound> = Vec::new();
    let mut extra: Vec<TypeParamBound> = Vec::new();
    let mut i: usize = 0;
    assert(bounds_view(out) =~= input.take(0).map_values(strip));
    assert(bounds_view(extra) =~= input.take(0).map_values(aux).flatten());
    while i < bounds.len()
        invariant
            i <= bounds.len(),
            input == bounds_view(*bounds),
            strip == |b: TypeParamBoundView| bound_without_bindings(b),
            aux == |b: TypeParamBoundView| bound_auxiliaries(b),
            bounds_view(out) == input.take(i as int).map_values(strip),
            bounds_view(extra) == input.take(i as int).map_values(aux).flatten(),
        decreases bounds.len() - i,
    {
        let ghost before = bounds_view(out);
        let ghost extra_before = bounds_view(extra);
        proof {
            reveal_with_fuel(bound_view, 2);
            assert(input[i as int] == bounds[i as int]@);
        }
        match &bounds[i] {
            TypeParamBound::Trait(t) => {
                let (stripped, mut more) = split_trait_bound(t);
                let ghost added = bounds_view(more);
                out.push(TypeParamBound::Trait(stripped));
                let ghost old_extra = bounds_view(extra);
                extra.append(&mut more);
                assert(bounds_view(extra) =~= old_extra + added);
            },
            TypeParamBound::Lifetime(l) => {
                out.push(TypeParamBound::Lifetime(l.copy()));
                assert(bounds_view(extra) + aux(input[i as int]) =~= bounds_view(extra));
            },
        }
        proof {
            assert(bounds_view(out) =~= before.push(strip(input[i as int])));
            assert(input.take(i + 1).map_values(strip) =~= input.take(i as int).map_values(strip).push(
                strip(input[i as int]),
            ));
            assert(input.take(i + 1).map_values(aux) =~= input.take(i as int).map_values(aux).push(
                aux(input[i as int]),
            ));
            input.take(i as int).map_values(aux).lemma_flatten_push(aux(input[i as int]));
            assert(bounds_view(extra) =~= extra_before + aux(input[i as int]));
        }
        i += 1;
    }
    assert(input.take(bounds.len() as int) =~= input);
    let ghost first = bounds_view(out);
    let ghost second = bounds_view(extra);
    out.append(&mut extra);
    assert(bounds_view(out) =~= first + second);
    *bounds = out;
}

/// Rewrites the bounds of `impl Trait<Assoc<'a> = Value>`.
pub fn handle_type_impl_trait(impl_Trait: Vec<TypeParamBound>) -> (r: Vec<TypeParamBound>)
    ensures
        bounds_view(r) == handled_bounds(bounds_view(impl_Trait)),
{
    let mut bounds = impl_Trait;
    handle_trait_bounds(&mut bounds);
    bounds
}

/// What the macro `Gat!` is given: a qualified path, the bounds of an
/// `impl Trait`, or an item.
#[derive(Debug, PartialEq, Eq)]
pub enum Input {
    TypePath(TypePath),
    TypeImpl(Vec<TypeParamBound>),
    Item(Item),
}

pub enum InputView {
    TypePath(TypePathView),
    TypeImpl(Seq<TypeParamBoundView>),
    Item(ItemView),
}

impl View for Input {
    type V = InputView;

    open spec fn view(&self) -> InputView {
        match self {
            Input::TypePath(p) => InputView::TypePath(p@),
            Input::TypeImpl(bounds) => InputView::TypeImpl(bounds_view(*bounds)),
            Input::Item(item) => InputView::Item(item@),
        }
    }
}

/// What `Gat!` expands to: the rewritten path, or the rule that the path
/// breaks; the handled bounds; the item with every type in it rewritten
/// that can be.
pub open spec fn gat_expansion(input: InputView) -> Result<InputView, Violation> {
    match input {
        InputView::TypePath(p) => match rewritten_path(p) {
            Ok(rewritten) => Ok(InputView::TypePath(rewritten)),
            Err(violation) => Err(violation),
        },
        InputView::TypeImpl(bounds) => Ok(InputView::TypeImpl(handled_bounds(bounds))),
        InputView::Item(item) => Ok(InputView::Item(adjugated(item))),
    }
}

/// Expands what `Gat!` was given.
pub fn Gat(input: Input) -> (r: Result<Input, Violation>)
    ensures
        match gat_expansion(input@) {
            Ok(expansion) => r matches Ok(out) && out@ == expansion,
            Err(violation) => r == Err::<Input, Violation>(violation),
        },
{
    match input {
        Input::TypePath(p) => match rewrite_qualified_path(&p) {
            Ok(rewritten) => Ok(Input::TypePath(rewritten)),
            Err(violation) => Err(violation),
        },
        Input::TypeImpl(bounds) => Ok(Input::TypeImpl(handle_type_impl_trait(bounds))),
        Input::Item(item) => Ok(Input::Item(adjugate(item))),
    }
}

} // verus!
