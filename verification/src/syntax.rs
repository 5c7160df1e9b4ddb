//! The syntax of types, paths and bounds, as plain values.
//!
//! Each node has a view: the same tree over `Seq` in place of `Vec` and
//! `String`. Syntax that no transformation looks into (the tokens of a macro
//! call, an attribute, what stands before `fn`) is kept as source text. An
//! expression inside a type is kept as the pieces between the types and
//! items that it holds.
use vstd::prelude::*;

verus! {

broadcast use vstd::std_specs::vec::group_vec_axioms;

/// A lifetime, by its name without the apostrophe.
#[derive(Debug, PartialEq, Eq)]
pub struct Lifetime {
    pub ident: String,
}

/// A type.
#[derive(Debug, PartialEq, Eq)]
pub enum Type {
    /// `[elem; len]`
    Array { elem: Box<Type>, len: Vec<ExprPiece> },
    /// `for<'a> unsafe extern "C" fn(inputs) -> output`
    BareFn(TypeBareFn),
    /// A type inside invisible delimiters.
    Group(Box<Type>),
    /// `impl Bound + Bound`
    ImplTrait(Vec<TypeParamBound>),
    /// `_`
    Infer,
    /// A macro call in type position, as text.
    Macro(String),
    /// `!`
    Never,
    /// `(elem)`
    Paren(Box<Type>),
    /// A path, with or without a qualifier.
    Path(TypePath),
    /// `*const elem` or `*mut elem`
    Ptr { mutable: bool, elem: Box<Type> },
    /// `&'a mut elem`
    Reference { lifetime: Option<Lifetime>, mutable: bool, elem: Box<Type> },
    /// `[elem]`
    Slice(Box<Type>),
    /// `dyn Bound + Bound`
    TraitObject { dyn_token: bool, bounds: Vec<TypeParamBound> },
    /// `(A, B)`
    Tuple(Vec<Type>),
    /// Tokens that are known to stand for a type, as text.
    Verbatim(String),
}

/// A function pointer type. `prefix` holds what stands before `fn`.
#[derive(Debug, PartialEq, Eq)]
pub struct TypeBareFn {
    pub prefix: String,
    pub inputs: Vec<BareFnArg>,
    pub variadic: bool,
    pub output: Option<Box<Type>>,
}

/// One argument of a function pointer type. `prefix` holds its attributes
/// and its name, if it has any.
#[derive(Debug, PartialEq, Eq)]
pub struct BareFnArg {
    pub prefix: String,
    pub ty: Type,
}

/// `<ty as a::Trait>::Assoc`, or a path without qualifier.
#[derive(Debug, PartialEq, Eq)]
pub struct TypePath {
    pub qself: Option<QSelf>,
    pub path: Path,
}

/// The qualifier of a path: in `<ty as a::Trait>::Assoc`, `ty`, the mark
/// that `as` is there, and the number of segments before the `>`.
#[derive(Debug, PartialEq, Eq)]
pub struct QSelf {
    pub ty: Box<Type>,
    pub position: usize,
    pub as_token: bool,
}

/// `::a::b<..>::c`
#[derive(Debug, PartialEq, Eq)]
pub struct Path {
    pub leading_colon: bool,
    pub segments: Vec<PathSegment>,
}

#[derive(Debug, PartialEq, Eq)]
pub struct PathSegment {
    pub ident: String,
    pub arguments: PathArguments,
}

#[derive(Debug, PartialEq, Eq)]
pub enum PathArguments {
    /// No arguments at all.
    Absent,
    /// `<'a, T, Item = U>`, or with `::` before it.
    AngleBracketed { colon2_token: bool, args: Vec<GenericArgument> },
    /// `(A, B) -> C`
    Parenthesized { inputs: Vec<Type>, output: Option<Box<Type>> },
}

#[derive(Debug, PartialEq, Eq)]
pub enum GenericArgument {
    Lifetime(Lifetime),
    Type(Type),
    /// `Item = ty`
    Binding { ident: String, ty: Type },
    /// `Item: Bound + Bound`
    Constraint { ident: String, bounds: Vec<TypeParamBound> },
    /// A constant expression.
    Const(Vec<ExprPiece>),
    /// `Item<'a> = ty`: the binding of a generic associated type.
    GatBinding(GatBinding),
}

/// `ident<lifetimes> = ty`
#[derive(Debug, PartialEq, Eq)]
pub struct GatBinding {
    pub ident: String,
    pub lifetimes: Vec<Lifetime>,
    pub ty: Type,
}

/// A piece of an expression that stands in a type. The expression is the
/// sequence of its pieces.
#[derive(Debug, PartialEq, Eq)]
pub enum ExprPiece {
    /// Text that holds no type and no item.
    Tokens(String),
    /// A type in the expression.
    Type(Type),
    /// An item in the expression, as text.
    Item(String),
}

#[derive(Debug, PartialEq, Eq)]
pub enum TypeParamBound {
    Trait(TraitBound),
    Lifetime(Lifetime),
}

/// `(?for<'a> path)`
#[derive(Debug, PartialEq, Eq)]
pub struct TraitBound {
    pub paren_token: bool,
    pub maybe: bool,
    pub lifetimes: Option<Vec<LifetimeDef>>,
    pub path: Path,
}

/// `#[attr] 'a: 'b + 'c`
#[derive(Debug, PartialEq, Eq)]
pub struct LifetimeDef {
    pub attrs: Vec<String>,
    pub lifetime: Lifetime,
    pub bounds: Vec<Lifetime>,
}

pub enum TypeView {
    Array { elem: Box<TypeView>, len: Seq<ExprPieceView> },
    BareFn(TypeBareFnView),
    Group(Box<TypeView>),
    ImplTrait(Seq<TypeParamBoundView>),
    Infer,
    Macro(Seq<char>),
    Never,
    Paren(Box<TypeView>),
    Path(TypePathView),
    Ptr { mutable: bool, elem: Box<TypeView> },
    Reference { lifetime: Option<Seq<char>>, mutable: bool, elem: Box<TypeView> },
    Slice(Box<TypeView>),
    TraitObject { dyn_token: bool, bounds: Seq<TypeParamBoundView> },
    Tuple(Seq<TypeView>),
    Verbatim(Seq<char>),
}

pub struct TypeBareFnView {
    pub prefix: Seq<char>,
    pub inputs: Seq<BareFnArgView>,
    pub variadic: bool,
    pub output: Option<Box<TypeView>>,
}

pub struct BareFnArgView {
    pub prefix: Seq<char>,
    pub ty: TypeView,
}

pub struct TypePathView {
    pub qself: Option<QSelfView>,
    pub path: PathView,
}

pub struct QSelfView {
    pub ty: Box<TypeView>,
    pub position: nat,
    pub as_token: bool,
}

pub struct PathView {
    pub leading_colon: bool,
    pub segments: Seq<PathSegmentView>,
}

pub struct PathSegmentView {
    pub ident: Seq<char>,
    pub arguments: PathArgumentsView,
}

pub enum PathArgumentsView {
    Absent,
    AngleBracketed { colon2_token: bool, args: Seq<GenericArgumentView> },
    Parenthesized { inputs: Seq<TypeView>, output: Option<Box<TypeView>> },
}

pub enum GenericArgumentView {
    Lifetime(Seq<char>),
    Type(TypeView),
    Binding { ident: Seq<char>, ty: TypeView },
    Constraint { ident: Seq<char>, bounds: Seq<TypeParamBoundView> },
    Const(Seq<ExprPieceView>),
    GatBinding(GatBindingView),
}

pub struct GatBindingView {
    pub ident: Seq<char>,
    pub lifetimes: Seq<Seq<char>>,
    pub ty: TypeView,
}

pub enum ExprPieceView {
    Tokens(Seq<char>),
    Type(TypeView),
    Item(Seq<char>),
}

pub enum TypeParamBoundView {
    Trait(TraitBoundView),
    Lifetime(Seq<char>),
}

pub struct TraitBoundView {
    pub paren_token: bool,
    pub maybe: bool,
    pub lifetimes: Option<Seq<LifetimeDefView>>,
    pub path: PathView,
}

pub struct LifetimeDefView {
    pub attrs: Seq<Seq<char>>,
    pub lifetime: Seq<char>,
    pub bounds: Seq<Seq<char>>,
}

impl View for Lifetime {
    type V = Seq<char>;

    open spec fn view(&self) -> Seq<char> {
        self.ident@
    }
}

impl View for LifetimeDef {
    type V = LifetimeDefView;

    open spec fn view(&self) -> LifetimeDefView {
        LifetimeDefView {
            attrs: self.attrs.deep_view(),
            lifetime: self.lifetime@,
            bounds: lifetimes_view(self.bounds),
        }
    }
}

/// The names of a list of lifetimes.
pub open spec fn lifetimes_view(v: Vec<Lifetime>) -> Seq<Seq<char>> {
    v@.map_values(|l: Lifetime| l@)
}

pub open spec fn lifetime_defs_view(v: Vec<LifetimeDef>) -> Seq<LifetimeDefView> {
    v@.map_values(|l: LifetimeDef| l@)
}

pub open spec fn opt_lifetime_view(l: Option<Lifetime>) -> Option<Seq<char>> {
    match l {
        Some(l) => Some(l@),
        None => None,
    }
}

/// The view of a type. The functions that follow give the views of the
/// other nodes; `@` on a node is the same.
pub open spec fn type_view(t: Type) -> TypeView
    decreases t,
{
    match t {
        Type::Array { elem, len } => TypeView::Array { elem: Box::new(type_view(*elem)), len: expr_view(len) },
        Type::BareFn(f) => TypeView::BareFn(
            TypeBareFnView {
                prefix: f.prefix@,
                inputs: fn_args_view(f.inputs),
                variadic: f.variadic,
                output: opt_type_view(f.output),
            },
        ),
        Type::Group(elem) => TypeView::Group(Box::new(type_view(*elem))),
        Type::ImplTrait(bounds) => TypeView::ImplTrait(bounds_view(bounds)),
        Type::Infer => TypeView::Infer,
        Type::Macro(text) => TypeView::Macro(text@),
        Type::Never => TypeView::Never,
        Type::Paren(elem) => TypeView::Paren(Box::new(type_view(*elem))),
        Type::Path(p) => TypeView::Path(type_path_view(p)),
        Type::Ptr { mutable, elem } => TypeView::Ptr { mutable, elem: Box::new(type_view(*elem)) },
        Type::Reference { lifetime, mutable, elem } => TypeView::Reference {
            lifetime: opt_lifetime_view(lifetime),
            mutable,
            elem: Box::new(type_view(*elem)),
        },
        Type::Slice(elem) => TypeView::Slice(Box::new(type_view(*elem))),
        Type::TraitObject { dyn_token, bounds } => TypeView::TraitObject { dyn_token, bounds: bounds_view(bounds) },
        Type::Tuple(elems) => TypeView::Tuple(types_view(elems)),
        Type::Verbatim(text) => TypeView::Verbatim(text@),
    }
}

pub open spec fn fn_args_view(v: Vec<BareFnArg>) -> Seq<BareFnArgView>
    decreases v,
{
    Seq::new(
        v.len() as nat,
        |i: int|
            if 0 <= i < v.len() {
                BareFnArgView { prefix: v[i].prefix@, ty: type_view(v[i].ty) }
            } else {
                arbitrary()
            },
    )
}

pub open spec fn opt_type_view(t: Option<Box<Type>>) -> Option<Box<TypeView>>
    decreases t,
{
    match t {
        Some(t) => Some(Box::new(type_view(*t))),
        None => None,
    }
}

pub open spec fn types_view(v: Vec<Type>) -> Seq<TypeView>
    decreases v,
{
    Seq::new(v.len() as nat, |i: int| if 0 <= i < v.len() { type_view(v[i]) } else { arbitrary() })
}

pub open spec fn type_path_view(p: TypePath) -> TypePathView
    decreases p,
{
    TypePathView {
        qself: match p.qself {
            Some(q) => Some(
                QSelfView { ty: Box::new(type_view(*q.ty)), position: q.position as nat, as_token: q.as_token },
            ),
            None => None,
        },
        path: path_view(p.path),
    }
}

pub open spec fn path_view(p: Path) -> PathView
    decreases p,
{
    PathView {
        leading_colon: p.leading_colon,
        segments: Seq::new(
            p.segments.len() as nat,
            |i: int| if 0 <= i < p.segments.len() { segment_view(p.segments[i]) } else { arbitrary() },
        ),
    }
}

pub open spec fn segment_view(s: PathSegment) -> PathSegmentView
    decreases s,
{
    PathSegmentView {
        ident: s.ident@,
        arguments: match s.arguments {
            PathArguments::Absent => PathArgumentsView::Absent,
            PathArguments::AngleBracketed { colon2_token, args } => PathArgumentsView::AngleBracketed {
                colon2_token,
                args: args_view(args),
            },
            PathArguments::Parenthesized { inputs, output } => PathArgumentsView::Parenthesized {
                inputs: types_view(inputs),
                output: opt_type_view(output),
            },
        },
    }
}

pub open spec fn args_view(v: Vec<GenericArgument>) -> Seq<GenericArgumentView>
    decreases v,
{
    Seq::new(v.len() as nat, |i: int| if 0 <= i < v.len() { arg_view(v[i]) } else { arbitrary() })
}

pub open spec fn arg_view(a: GenericArgument) -> GenericArgumentView
    decreases a,
{
    match a {
        GenericArgument::Lifetime(l) => GenericArgumentView::Lifetime(l@),
        GenericArgument::Type(t) => GenericArgumentView::Type(type_view(t)),
        GenericArgument::Binding { ident, ty } => GenericArgumentView::Binding { ident: ident@, ty: type_view(ty) },
        GenericArgument::Constraint { ident, bounds } => GenericArgumentView::Constraint {
            ident: ident@,
            bounds: bounds_view(bounds),
        },
        GenericArgument::Const(e) => GenericArgumentView::Const(expr_view(e)),
        GenericArgument::GatBinding(b) => GenericArgumentView::GatBinding(
            GatBindingView { ident: b.ident@, lifetimes: lifetimes_view(b.lifetimes), ty: type_view(b.ty) },
        ),
    }
}

pub open spec fn expr_view(v: Vec<ExprPiece>) -> Seq<ExprPieceView>
    decreases v,
{
    Seq::new(v.len() as nat, |i: int| if 0 <= i < v.len() { expr_piece_view(v[i]) } else { arbitrary() })
}

pub open spec fn expr_piece_view(p: ExprPiece) -> ExprPieceView
    decreases p,
{
    match p {
        ExprPiece::Tokens(text) => ExprPieceView::Tokens(text@),
        ExprPiece::Type(t) => ExprPieceView::Type(type_view(t)),
        ExprPiece::Item(text) => ExprPieceView::Item(text@),
    }
}

pub open spec fn bounds_view(v: Vec<TypeParamBound>) -> Seq<TypeParamBoundView>
    decreases v,
{
    Seq::new(v.len() as nat, |i: int| if 0 <= i < v.len() { bound_view(v[i]) } else { arbitrary() })
}

pub open spec fn bound_view(b: TypeParamBound) -> TypeParamBoundView
    decreases b,
{
    match b {
        TypeParamBound::Trait(t) => TypeParamBoundView::Trait(trait_bound_view(t)),
        TypeParamBound::Lifetime(l) => TypeParamBoundView::Lifetime(l@),
    }
}

pub open spec fn opt_lifetime_defs_view(l: Option<Vec<LifetimeDef>>) -> Option<Seq<LifetimeDefView>> {
    match l {
        Some(l) => Some(lifetime_defs_view(l)),
        None => None,
    }
}

pub open spec fn trait_bound_view(t: TraitBound) -> TraitBoundView
    decreases t,
{
    TraitBoundView {
        paren_token: t.paren_token,
        maybe: t.maybe,
        lifetimes: opt_lifetime_defs_view(t.lifetimes),
        path: path_view(t.path),
    }
}

impl View for Type {
    type V = TypeView;

    open spec fn view(&self) -> TypeView {
        type_view(*self)
    }
}

impl View for TypePath {
    type V = TypePathView;

    open spec fn view(&self) -> TypePathView {
        type_path_view(*self)
    }
}

impl View for Path {
    type V = PathView;

    open spec fn view(&self) -> PathView {
        path_view(*self)
    }
}

impl View for PathSegment {
    type V = PathSegmentView;

    open spec fn view(&self) -> PathSegmentView {
        segment_view(*self)
    }
}

impl View for GenericArgument {
    type V = GenericArgumentView;

    open spec fn view(&self) -> GenericArgumentView {
        arg_view(*self)
    }
}

impl View for GatBinding {
    type V = GatBindingView;

    open spec fn view(&self) -> GatBindingView {
        GatBindingView { ident: self.ident@, lifetimes: lifetimes_view(self.lifetimes), ty: type_view(self.ty) }
    }
}

impl View for ExprPiece {
    type V = ExprPieceView;

    open spec fn view(&self) -> ExprPieceView {
        expr_piece_view(*self)
    }
}

impl View for TypeParamBound {
    type V = TypeParamBoundView;

    open spec fn view(&self) -> TypeParamBoundView {
        bound_view(*self)
    }
}

impl View for BareFnArg {
    type V = BareFnArgView;

    open spec fn view(&self) -> BareFnArgView {
        BareFnArgView { prefix: self.prefix@, ty: type_view(self.ty) }
    }
}

impl View for TraitBound {
    type V = TraitBoundView;

    open spec fn view(&self) -> TraitBoundView {
        trait_bound_view(*self)
    }
}


/// A copy of a list of texts.
pub fn copy_strings(v: &Vec<String>) -> (r: Vec<String>)
    ensures
        r.deep_view() == v.deep_view(),
{
    let mut out: Vec<String> = Vec::new();
    let mut i: usize = 0;
    while i < v.len()
        invariant
            i <= v.len(),
            out.len() == i,
            forall|j: int| 0 <= j < i ==> out[j]@ == v[j]@,
        decreases v.len() - i,
    {
        out.push(v[i].clone());
        i += 1;
    }
    assert(out.deep_view() =~= v.deep_view());
    out
}

impl Lifetime {
    pub fn new(ident: &str) -> (r: Lifetime)
        ensures
            r@ == ident@,
    {
        Lifetime { ident: ident.to_owned() }
    }

    pub fn copy(&self) -> (r: Lifetime)
        ensures
            r@ == self@,
    {
        Lifetime { ident: self.ident.clone() }
    }
}

pub fn copy_opt_lifetime(l: &Option<Lifetime>) -> (r: Option<Lifetime>)
    ensures
        opt_lifetime_view(r) == opt_lifetime_view(*l),
{
    match l {
        Some(l) => Some(l.copy()),
        None => None,
    }
}

pub fn copy_lifetimes(v: &Vec<Lifetime>) -> (r: Vec<Lifetime>)
    ensures
        lifetimes_view(r) == lifetimes_view(*v),
{
    let mut out: Vec<Lifetime> = Vec::new();
    let mut i: usize = 0;
    while i < v.len()
        invariant
            i <= v.len(),
            out.len() == i,
            forall|j: int| 0 <= j < i ==> out[j]@ == v[j]@,
        decreases v.len() - i,
    {
        out.push(v[i].copy());
        i += 1;
    }
    assert(lifetimes_view(out) =~= lifetimes_view(*v));
    out
}

impl LifetimeDef {
    pub fn copy(&self) -> (r: LifetimeDef)
        ensures
            r@ == self@,
    {
        LifetimeDef {
            attrs: copy_strings(&self.attrs),
            lifetime: self.lifetime.copy(),
            bounds: copy_lifetimes(&self.bounds),
        }
    }
}

pub fn copy_lifetime_defs(v: &Vec<LifetimeDef>) -> (r: Vec<LifetimeDef>)
    ensures
        lifetime_defs_view(r) == lifetime_defs_view(*v),
{
    let mut out: Vec<LifetimeDef> = Vec::new();
    let mut i: usize = 0;
    while i < v.len()
        invariant
            i <= v.len(),
            out.len() == i,
            forall|j: int| 0 <= j < i ==> out[j]@ == v[j]@,
        decreases v.len() - i,
    {
        out.push(v[i].copy());
        i += 1;
    }
    assert(lifetime_defs_view(out) =~= lifetime_defs_view(*v));
    out
}

/// A copy of a type. The other functions of this name copy the other nodes.
pub fn copy_type(t: &Type) -> (r: Type)
    ensures
        r@ == t@,
    decreases t,
{
    match t {
        Type::Array { elem, len } => Type::Array { elem: Box::new(copy_type(elem)), len: copy_expr(len) },
        Type::BareFn(f) => Type::BareFn(
            TypeBareFn {
                prefix: f.prefix.clone(),
                inputs: copy_fn_args(&f.inputs),
                variadic: f.variadic,
                output: copy_opt_type(&f.output),
            },
        ),
        Type::Group(elem) => Type::Group(Box::new(copy_type(elem))),
        Type::ImplTrait(bounds) => Type::ImplTrait(copy_bounds(bounds)),
        Type::Infer => Type::Infer,
        Type::Macro(text) => Type::Macro(text.clone()),
        Type::Never => Type::Never,
        Type::Paren(elem) => Type::Paren(Box::new(copy_type(elem))),
        Type::Path(p) => Type::Path(copy_type_path(p)),
        Type::Ptr { mutable, elem } => Type::Ptr { mutable: *mutable, elem: Box::new(copy_type(elem)) },
        Type::Reference { lifetime, mutable, elem } => Type::Reference {
            lifetime: copy_opt_lifetime(lifetime),
            mutable: *mutable,
            elem: Box::new(copy_type(elem)),
        },
        Type::Slice(elem) => Type::Slice(Box::new(copy_type(elem))),
        Type::TraitObject { dyn_token, bounds } => Type::TraitObject {
            dyn_token: *dyn_token,
            bounds: copy_bounds(bounds),
        },
        Type::Tuple(elems) => Type::Tuple(copy_types(elems)),
        Type::Verbatim(text) => Type::Verbatim(text.clone()),
    }
}

pub fn copy_fn_args(v: &Vec<BareFnArg>) -> (r: Vec<BareFnArg>)
    ensures
        fn_args_view(r) == fn_args_view(*v),
    decreases v,
{
    let mut out: Vec<BareFnArg> = Vec::new();
    let mut i: usize = 0;
    while i < v.len()
        invariant
            i <= v.len(),
            out.len() == i,
            forall|j: int| 0 <= j < i ==> out[j].prefix@ == v[j].prefix@ && out[j].ty@ == v[j].ty@,
        decreases v.len() - i,
    {
        out.push(BareFnArg { prefix: v[i].prefix.clone(), ty: copy_type(&v[i].ty) });
        i += 1;
    }
    assert(fn_args_view(out) =~= fn_args_view(*v));
    out
}

pub fn copy_opt_type(t: &Option<Box<Type>>) -> (r: Option<Box<Type>>)
    ensures
        opt_type_view(r) == opt_type_view(*t),
    decreases t,
{
    match t {
        Some(t) => Some(Box::new(copy_type(t))),
        None => None,
    }
}

pub fn copy_types(v: &Vec<Type>) -> (r: Vec<Type>)
    ensures
        types_view(r) == types_view(*v),
    decreases v,
{
    let mut out: Vec<Type> = Vec::new();
    let mut i: usize = 0;
    while i < v.len()
        invariant
            i <= v.len(),
            out.len() == i,
            forall|j: int| 0 <= j < i ==> out[j]@ == v[j]@,
        decreases v.len() - i,
    {
        out.push(copy_type(&v[i]));
        i += 1;
    }
    assert(types_view(out) =~= types_view(*v));
    out
}

pub fn copy_type_path(p: &TypePath) -> (r: TypePath)
    ensures
        r@ == p@,
    decreases p,
{
    TypePath {
        qself: match &p.qself {
            Some(q) => Some(QSelf { ty: Box::new(copy_type(&q.ty)), position: q.position, as_token: q.as_token }),
            None => None,
        },
        path: copy_path(&p.path),
    }
}

pub fn copy_path(p: &Path) -> (r: Path)
    ensures
        r@ == p@,
    decreases p,
{
    let mut out: Vec<PathSegment> = Vec::new();
    let mut i: usize = 0;
    while i < p.segments.len()
        invariant
            i <= p.segments.len(),
            out.len() == i,
            forall|j: int| 0 <= j < i ==> out[j]@ == p.segments[j]@,
        decreases p.segments.len() - i,
    {
        out.push(copy_segment(&p.segments[i]));
        i += 1;
    }
    let r = Path { leading_colon: p.leading_colon, segments: out };
    assert(r@.segments =~= p@.segments);
    r
}

pub fn copy_segment(s: &PathSegment) -> (r: PathSegment)
    ensures
        r@ == s@,
    decreases s,
{
    PathSegment {
        ident: s.ident.clone(),
        arguments: match &s.arguments {
            PathArguments::Absent => PathArguments::Absent,
            PathArguments::AngleBracketed { colon2_token, args } => PathArguments::AngleBracketed {
                colon2_token: *colon2_token,
                args: copy_args(args),
            },
            PathArguments::Parenthesized { inputs, output } => PathArguments::Parenthesized {
                inputs: copy_types(inputs),
                output: copy_opt_type(output),
            },
        },
    }
}

pub fn copy_args(v: &Vec<GenericArgument>) -> (r: Vec<GenericArgument>)
    ensures
        args_view(r) == args_view(*v),
    decreases v,
{
    let mut out: Vec<GenericArgument> = Vec::new();
    let mut i: usize = 0;
    while i < v.len()
        invariant
            i <= v.len(),
            out.len() == i,
            forall|j: int| 0 <= j < i ==> out[j]@ == v[j]@,
        decreases v.len() - i,
    {
        out.push(copy_arg(&v[i]));
        i += 1;
    }
    assert(args_view(out) =~= args_view(*v));
    out
}

pub fn copy_arg(a: &GenericArgument) -> (r: GenericArgument)
    ensures
        r@ == a@,
    decreases a,
{
    match a {
        GenericArgument::Lifetime(l) => GenericArgument::Lifetime(l.copy()),
        GenericArgument::Type(t) => GenericArgument::Type(copy_type(t)),
        GenericArgument::Binding { ident, ty } => GenericArgument::Binding { ident: ident.clone(), ty: copy_type(ty) },
        GenericArgument::Constraint { ident, bounds } => GenericArgument::Constraint {
            ident: ident.clone(),
            bounds: copy_bounds(bounds),
        },
        GenericArgument::Const(e) => GenericArgument::Const(copy_expr(e)),
        GenericArgument::GatBinding(b) => GenericArgument::GatBinding(copy_binding(b)),
    }
}

pub fn copy_binding(b: &GatBinding) -> (r: GatBinding)
    ensures
        r@ == b@,
    decreases b,
{
    GatBinding { ident: b.ident.clone(), lifetimes: copy_lifetimes(&b.lifetimes), ty: copy_type(&b.ty) }
}

pub fn copy_expr(v: &Vec<ExprPiece>) -> (r: Vec<ExprPiece>)
    ensures
        expr_view(r) == expr_view(*v),
    decreases v,
{
    let mut out: Vec<ExprPiece> = Vec::new();
    let mut i: usize = 0;
    while i < v.len()
        invariant
            i <= v.len(),
            out.len() == i,
            forall|j: int| 0 <= j < i ==> out[j]@ == v[j]@,
        decreases v.len() - i,
    {
        let piece = match &v[i] {
            ExprPiece::Tokens(text) => ExprPiece::Tokens(text.clone()),
            ExprPiece::Type(t) => ExprPiece::Type(copy_type(t)),
            ExprPiece::Item(text) => ExprPiece::Item(text.clone()),
        };
        out.push(piece);
        i += 1;
    }
    assert(expr_view(out) =~= expr_view(*v));
    out
}

pub fn copy_bounds(v: &Vec<TypeParamBound>) -> (r: Vec<TypeParamBound>)
    ensures
        bounds_view(r) == bounds_view(*v),
    decreases v,
{
    let mut out: Vec<TypeParamBound> = Vec::new();
    let mut i: usize = 0;
    while i < v.len()
        invariant
            i <= v.len(),
            out.len() == i,
            forall|j: int| 0 <= j < i ==> out[j]@ == v[j]@,
        decreases v.len() - i,
    {
        out.push(copy_bound(&v[i]));
        i += 1;
    }
    assert(bounds_view(out) =~= bounds_view(*v));
    out
}

pub fn copy_bound(b: &TypeParamBound) -> (r: TypeParamBound)
    ensures
        r@ == b@,
    decreases b,
{
    match b {
        TypeParamBound::Trait(t) => TypeParamBound::Trait(copy_trait_bound(t)),
        TypeParamBound::Lifetime(l) => TypeParamBound::Lifetime(l.copy()),
    }
}

pub fn copy_opt_lifetime_defs(l: &Option<Vec<LifetimeDef>>) -> (r: Option<Vec<LifetimeDef>>)
    ensures
        opt_lifetime_defs_view(r) == opt_lifetime_defs_view(*l),
{
    match l {
        Some(l) => Some(copy_lifetime_defs(l)),
        None => None,
    }
}

pub fn copy_trait_bound(t: &TraitBound) -> (r: TraitBound)
    ensures
        r@ == t@,
    decreases t,
{
    TraitBound {
        paren_token: t.paren_token,
        maybe: t.maybe,
        lifetimes: copy_opt_lifetime_defs(&t.lifetimes),
        path: copy_path(&t.path),
    }
}

impl Clone for Type {
    fn clone(&self) -> (r: Self)
        ensures
            r@ == self@,
    {
        copy_type(self)
    }
}

impl Clone for TypePath {
    fn clone(&self) -> (r: Self)
        ensures
            r@ == self@,
    {
        copy_type_path(self)
    }
}

impl Clone for Path {
    fn clone(&self) -> (r: Self)
        ensures
            r@ == self@,
    {
        copy_path(self)
    }
}

impl Clone for PathSegment {
    fn clone(&self) -> (r: Self)
        ensures
            r@ == self@,
    {
        copy_segment(self)
    }
}

impl Clone for GenericArgument {
    fn clone(&self) -> (r: Self)
        ensures
            r@ == self@,
    {
        copy_arg(self)
    }
}

impl Clone for TypeParamBound {
    fn clone(&self) -> (r: Self)
        ensures
            r@ == self@,
    {
        copy_bound(self)
    }
}

impl Clone for TraitBound {
    fn clone(&self) -> (r: Self)
        ensures
            r@ == self@,
    {
        copy_trait_bound(self)
    }
}

impl Clone for Lifetime {
    fn clone(&self) -> (r: Self)
        ensures
            r@ == self@,
    {
        self.copy()
    }
}

impl Clone for LifetimeDef {
    fn clone(&self) -> (r: Self)
        ensures
            r@ == self@,
    {
        self.copy()
    }
}

} // verus!
