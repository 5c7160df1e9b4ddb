//! The syntax of the items that the transformations take: traits, impls and
//! imports, their generics, and the pieces of everything else.
use vstd::prelude::*;
use crate::syntax::bounds_view;
use crate::syntax::copy_bounds;
use crate::syntax::copy_expr;
use crate::syntax::expr_view;
use crate::syntax::ExprPiece;
use crate::syntax::ExprPieceView;
use crate::syntax::copy_lifetimes;
use crate::syntax::copy_opt_lifetime_defs;
use crate::syntax::copy_strings;
use crate::syntax::copy_type;
use crate::syntax::lifetimes_view;
use crate::syntax::opt_lifetime_defs_view;
use crate::syntax::Lifetime;
use crate::syntax::LifetimeDef;
use crate::syntax::LifetimeDefView;
use crate::syntax::Path;
use crate::syntax::PathView;
use crate::syntax::Type;
use crate::syntax::TypeParamBound;
use crate::syntax::TypeParamBoundView;
use crate::syntax::TypeView;

verus! {

/// `#[attr] T: Bound + Bound = Default`
#[derive(Debug, PartialEq, Eq)]
pub struct TypeParam {
    pub attrs: Vec<String>,
    pub ident: String,
    pub colon_token: bool,
    pub bounds: Vec<TypeParamBound>,
    pub default: Option<Type>,
}

/// `#[attr] const N: ty = default`
#[derive(Debug, PartialEq, Eq)]
pub struct ConstParam {
    pub attrs: Vec<String>,
    pub ident: String,
    pub ty: Type,
    pub default: Option<Vec<ExprPiece>>,
}

#[derive(Debug, PartialEq, Eq)]
pub enum GenericParam {
    Type(TypeParam),
    Lifetime(LifetimeDef),
    Const(ConstParam),
}

/// `for<'a> bounded_ty: Bound + Bound`
#[derive(Debug, PartialEq, Eq)]
pub struct PredicateType {
    pub lifetimes: Option<Vec<LifetimeDef>>,
    pub bounded_ty: Type,
    pub bounds: Vec<TypeParamBound>,
}

#[derive(Debug, PartialEq, Eq)]
pub enum WherePredicate {
    Type(PredicateType),
    /// `'a: 'b + 'c`
    Lifetime { lifetime: Lifetime, bounds: Vec<Lifetime> },
    /// `lhs_ty = rhs_ty`
    Eq { lhs_ty: Type, rhs_ty: Type },
}

/// The parameters between `<` and `>`, and the predicates of the `where`
/// clause if there is one.
#[derive(Debug, PartialEq, Eq)]
pub struct Generics {
    pub params: Vec<GenericParam>,
    pub where_clause: Option<Vec<WherePredicate>>,
}

/// A piece of the source of an item or of a part of one. An item is the
/// sequence of its pieces.
#[derive(Debug, PartialEq, Eq)]
pub enum Piece {
    /// Text that holds no type, no bound and no item.
    Tokens(String),
    /// A type, wherever one stands: in a signature, a pattern, an
    /// expression.
    Type(Type),
    /// A type parameter with its bounds.
    TypeParam(TypeParam),
    /// A predicate of a `where` clause that bounds a type.
    Predicate(PredicateType),
    /// An item inside the item, as text.
    Item(String),
}

/// `#[attr] type Ident<generics>: bounds where .. = default;` in a trait.
#[derive(Debug, PartialEq, Eq)]
pub struct TraitItemType {
    pub attrs: Vec<String>,
    pub ident: String,
    pub generics: Generics,
    pub colon_token: bool,
    pub bounds: Vec<TypeParamBound>,
    pub default: Option<Type>,
}

#[derive(Debug, PartialEq, Eq)]
pub enum TraitItem {
    Type(TraitItemType),
    /// A method, a constant or a macro call.
    Other(Vec<Piece>),
}

/// `pub`, `pub(crate)` and the like, as text, or nothing.
#[derive(Debug, PartialEq, Eq)]
pub enum Visibility {
    Inherited,
    Explicit(String),
}

#[derive(Debug, PartialEq, Eq)]
pub struct ItemTrait {
    pub attrs: Vec<String>,
    pub vis: Visibility,
    pub unsafety: bool,
    pub auto_token: bool,
    pub ident: String,
    pub generics: Generics,
    pub colon_token: bool,
    pub supertraits: Vec<TypeParamBound>,
    pub items: Vec<TraitItem>,
}

/// `#[attr] vis default type Ident<generics> where .. = ty;` in an impl.
#[derive(Debug, PartialEq, Eq)]
pub struct ImplItemType {
    pub attrs: Vec<String>,
    pub vis: Visibility,
    pub defaultness: bool,
    pub ident: String,
    pub generics: Generics,
    pub ty: Type,
}

#[derive(Debug, PartialEq, Eq)]
pub enum ImplItem {
    Type(ImplItemType),
    /// A method, a constant or a macro call.
    Other(Vec<Piece>),
}

/// `!path for` in the header of an impl; `negative` is the `!`.
#[derive(Debug, PartialEq, Eq)]
pub struct ImplTrait {
    pub negative: bool,
    pub path: Path,
}

#[derive(Debug, PartialEq, Eq)]
pub struct ItemImpl {
    pub attrs: Vec<String>,
    pub defaultness: bool,
    pub unsafety: bool,
    pub generics: Generics,
    pub trait_: Option<ImplTrait>,
    pub self_ty: Type,
    pub items: Vec<ImplItem>,
}

#[derive(Debug, PartialEq, Eq)]
pub enum UseTree {
    /// `ident::tree`
    Path { ident: String, tree: Box<UseTree> },
    /// `ident`
    Name { ident: String },
    /// `ident as rename`
    Rename { ident: String, rename: String },
    /// `*`
    Glob,
    /// `{tree, tree}`
    Group(Vec<UseTree>),
}

#[derive(Debug, PartialEq, Eq)]
pub struct ItemUse {
    pub attrs: Vec<String>,
    pub vis: Visibility,
    pub leading_colon: bool,
    pub tree: UseTree,
}

#[derive(Debug, PartialEq, Eq)]
pub enum Item {
    Trait(ItemTrait),
    Impl(ItemImpl),
    Use(ItemUse),
    /// Any other item.
    Other(Vec<Piece>),
}

pub struct TypeParamView {
    pub attrs: Seq<Seq<char>>,
    pub ident: Seq<char>,
    pub colon_token: bool,
    pub bounds: Seq<TypeParamBoundView>,
    pub default: Option<TypeView>,
}

pub struct ConstParamView {
    pub attrs: Seq<Seq<char>>,
    pub ident: Seq<char>,
    pub ty: TypeView,
    pub default: Option<Seq<ExprPieceView>>,
}

pub enum GenericParamView {
    Type(TypeParamView),
    Lifetime(LifetimeDefView),
    Const(ConstParamView),
}

pub struct PredicateTypeView {
    pub lifetimes: Option<Seq<LifetimeDefView>>,
    pub bounded_ty: TypeView,
    pub bounds: Seq<TypeParamBoundView>,
}

pub enum WherePredicateView {
    Type(PredicateTypeView),
    Lifetime { lifetime: Seq<char>, bounds: Seq<Seq<char>> },
    Eq { lhs_ty: TypeView, rhs_ty: TypeView },
}

pub struct GenericsView {
    pub params: Seq<GenericParamView>,
    pub where_clause: Option<Seq<WherePredicateView>>,
}

pub enum PieceView {
    Tokens(Seq<char>),
    Type(TypeView),
    TypeParam(TypeParamView),
    Predicate(PredicateTypeView),
    Item(Seq<char>),
}

pub struct TraitItemTypeView {
    pub attrs: Seq<Seq<char>>,
    pub ident: Seq<char>,
    pub generics: GenericsView,
    pub colon_token: bool,
    pub bounds: Seq<TypeParamBoundView>,
    pub default: Option<TypeView>,
}

pub enum TraitItemView {
    Type(TraitItemTypeView),
    Other(Seq<PieceView>),
}

pub enum VisibilityView {
    Inherited,
    Explicit(Seq<char>),
}

pub struct ItemTraitView {
    pub attrs: Seq<Seq<char>>,
    pub vis: VisibilityView,
    pub unsafety: bool,
    pub auto_token: bool,
    pub ident: Seq<char>,
    pub generics: GenericsView,
    pub colon_token: bool,
    pub supertraits: Seq<TypeParamBoundView>,
    pub items: Seq<TraitItemView>,
}

pub struct ImplItemTypeView {
    pub attrs: Seq<Seq<char>>,
    pub vis: VisibilityView,
    pub defaultness: bool,
    pub ident: Seq<char>,
    pub generics: GenericsView,
    pub ty: TypeView,
}

pub enum ImplItemView {
    Type(ImplItemTypeView),
    Other(Seq<PieceView>),
}

pub struct ImplTraitView {
    pub negative: bool,
    pub path: PathView,
}

pub struct ItemImplView {
    pub attrs: Seq<Seq<char>>,
    pub defaultness: bool,
    pub unsafety: bool,
    pub generics: GenericsView,
    pub trait_: Option<ImplTraitView>,
    pub self_ty: TypeView,
    pub items: Seq<ImplItemView>,
}

pub enum UseTreeView {
    Path { ident: Seq<char>, tree: Box<UseTreeView> },
    Name { ident: Seq<char> },
    Rename { ident: Seq<char>, rename: Seq<char> },
    Glob,
    Group(Seq<UseTreeView>),
}

pub struct ItemUseView {
    pub attrs: Seq<Seq<char>>,
    pub vis: VisibilityView,
    pub leading_colon: bool,
    pub tree: UseTreeView,
}

pub enum ItemView {
    Trait(ItemTraitView),
    Impl(ItemImplView),
    Use(ItemUseView),
    Other(Seq<PieceView>),
}

pub open spec fn opt_view(t: Option<Type>) -> Option<TypeView> {
    match t {
        Some(t) => Some(t@),
        None => None,
    }
}

pub open spec fn opt_expr_view(e: Option<Vec<ExprPiece>>) -> Option<Seq<ExprPieceView>> {
    match e {
        Some(e) => Some(expr_view(e)),
        None => None,
    }
}

impl View for TypeParam {
    type V = TypeParamView;

    open spec fn view(&self) -> TypeParamView {
        TypeParamView {
            attrs: self.attrs.deep_view(),
            ident: self.ident@,
            colon_token: self.colon_token,
            bounds: bounds_view(self.bounds),
            default: opt_view(self.default),
        }
    }
}

impl View for ConstParam {
    type V = ConstParamView;

    open spec fn view(&self) -> ConstParamView {
        ConstParamView {
            attrs: self.attrs.deep_view(),
            ident: self.ident@,
            ty: self.ty@,
            default: opt_expr_view(self.default),
        }
    }
}

impl View for GenericParam {
    type V = GenericParamView;

    open spec fn view(&self) -> GenericParamView {
        match self {
            GenericParam::Type(p) => GenericParamView::Type(p@),
            GenericParam::Lifetime(p) => GenericParamView::Lifetime(p@),
            GenericParam::Const(p) => GenericParamView::Const(p@),
        }
    }
}

impl View for PredicateType {
    type V = PredicateTypeView;

    open spec fn view(&self) -> PredicateTypeView {
        PredicateTypeView {
            lifetimes: opt_lifetime_defs_view(self.lifetimes),
            bounded_ty: self.bounded_ty@,
            bounds: bounds_view(self.bounds),
        }
    }
}

impl View for WherePredicate {
    type V = WherePredicateView;

    open spec fn view(&self) -> WherePredicateView {
        match self {
            WherePredicate::Type(p) => WherePredicateView::Type(p@),
            WherePredicate::Lifetime { lifetime, bounds } => WherePredicateView::Lifetime {
                lifetime: lifetime@,
                bounds: lifetimes_view(*bounds),
            },
            WherePredicate::Eq { lhs_ty, rhs_ty } => WherePredicateView::Eq { lhs_ty: lhs_ty@, rhs_ty: rhs_ty@ },
        }
    }
}

pub open spec fn params_view(v: Vec<GenericParam>) -> Seq<GenericParamView> {
    v@.map_values(|p: GenericParam| p@)
}

pub open spec fn predicates_view(v: Vec<WherePredicate>) -> Seq<WherePredicateView> {
    v@.map_values(|p: WherePredicate| p@)
}

pub open spec fn where_clause_view(w: Option<Vec<WherePredicate>>) -> Option<Seq<WherePredicateView>> {
    match w {
        Some(w) => Some(predicates_view(w)),
        None => None,
    }
}

impl View for Generics {
    type V = GenericsView;

    open spec fn view(&self) -> GenericsView {
        GenericsView { params: params_view(self.params), where_clause: where_clause_view(self.where_clause) }
    }
}

impl View for Piece {
    type V = PieceView;

    open spec fn view(&self) -> PieceView {
        match self {
            Piece::Tokens(text) => PieceView::Tokens(text@),
            Piece::Type(t) => PieceView::Type(t@),
            Piece::TypeParam(p) => PieceView::TypeParam(p@),
            Piece::Predicate(p) => PieceView::Predicate(p@),
            Piece::Item(text) => PieceView::Item(text@),
        }
    }
}

pub open spec fn pieces_view(v: Vec<Piece>) -> Seq<PieceView> {
    v@.map_values(|p: Piece| p@)
}

impl View for TraitItemType {
    type V = TraitItemTypeView;

    open spec fn view(&self) -> TraitItemTypeView {
        TraitItemTypeView {
            attrs: self.attrs.deep_view(),
            ident: self.ident@,
            generics: self.generics@,
            colon_token: self.colon_token,
            bounds: bounds_view(self.bounds),
            default: opt_view(self.default),
        }
    }
}

impl View for TraitItem {
    type V = TraitItemView;

    open spec fn view(&self) -> TraitItemView {
        match self {
            TraitItem::Type(t) => TraitItemView::Type(t@),
            TraitItem::Other(pieces) => TraitItemView::Other(pieces_view(*pieces)),
        }
    }
}

pub open spec fn trait_items_view(v: Vec<TraitItem>) -> Seq<TraitItemView> {
    v@.map_values(|i: TraitItem| i@)
}

impl View for Visibility {
    type V = VisibilityView;

    open spec fn view(&self) -> VisibilityView {
        match self {
            Visibility::Inherited => VisibilityView::Inherited,
            Visibility::Explicit(text) => VisibilityView::Explicit(text@),
        }
    }
}

impl View for ItemTrait {
    type V = ItemTraitView;

    open spec fn view(&self) -> ItemTraitView {
        ItemTraitView {
            attrs: self.attrs.deep_view(),
            vis: self.vis@,
            unsafety: self.unsafety,
            auto_token: self.auto_token,
            ident: self.ident@,
            generics: self.generics@,
            colon_token: self.colon_token,
            supertraits: bounds_view(self.supertraits),
            items: trait_items_view(self.items),
        }
    }
}

impl View for ImplItemType {
    type V = ImplItemTypeView;

    open spec fn view(&self) -> ImplItemTypeView {
        ImplItemTypeView {
            attrs: self.attrs.deep_view(),
            vis: self.vis@,
            defaultness: self.defaultness,
            ident: self.ident@,
            generics: self.generics@,
            ty: self.ty@,
        }
    }
}

impl View for ImplItem {
    type V = ImplItemView;

    open spec fn view(&self) -> ImplItemView {
        match self {
            ImplItem::Type(t) => ImplItemView::Type(t@),
            ImplItem::Other(pieces) => ImplItemView::Other(pieces_view(*pieces)),
        }
    }
}

pub open spec fn impl_items_view(v: Vec<ImplItem>) -> Seq<ImplItemView> {
    v@.map_values(|i: ImplItem| i@)
}

impl View for ImplTrait {
    type V = ImplTraitView;

    open spec fn view(&self) -> ImplTraitView {
        ImplTraitView { negative: self.negative, path: self.path@ }
    }
}

pub open spec fn opt_impl_trait_view(t: Option<ImplTrait>) -> Option<ImplTraitView> {
    match t {
        Some(t) => Some(t@),
        None => None,
    }
}

impl View for ItemImpl {
    type V = ItemImplView;

    open spec fn view(&self) -> ItemImplView {
        ItemImplView {
            attrs: self.attrs.deep_view(),
            defaultness: self.defaultness,
            unsafety: self.unsafety,
            generics: self.generics@,
            trait_: opt_impl_trait_view(self.trait_),
            self_ty: self.self_ty@,
            items: impl_items_view(self.items),
        }
    }
}

pub open spec fn use_tree_view(t: UseTree) -> UseTreeView
    decreases t,
{
    match t {
        UseTree::Path { ident, tree } => UseTreeView::Path { ident: ident@, tree: Box::new(use_tree_view(*tree)) },
        UseTree::Name { ident } => UseTreeView::Name { ident: ident@ },
        UseTree::Rename { ident, rename } => UseTreeView::Rename { ident: ident@, rename: rename@ },
        UseTree::Glob => UseTreeView::Glob,
        UseTree::Group(trees) => UseTreeView::Group(
            Seq::new(
                trees.len() as nat,
                |i: int|
                    if 0 <= i < trees.len() {
                        use_tree_view(trees[i])
                    } else {
                        arbitrary()
                    },
            ),
        ),
    }
}

impl View for UseTree {
    type V = UseTreeView;

    open spec fn view(&self) -> UseTreeView {
        use_tree_view(*self)
    }
}

impl View for ItemUse {
    type V = ItemUseView;

    open spec fn view(&self) -> ItemUseView {
        ItemUseView {
            attrs: self.attrs.deep_view(),
            vis: self.vis@,
            leading_colon: self.leading_colon,
            tree: self.tree@,
        }
    }
}

impl View for Item {
    type V = ItemView;

    open spec fn view(&self) -> ItemView {
        match self {
            Item::Trait(t) => ItemView::Trait(t@),
            Item::Impl(t) => ItemView::Impl(t@),
            Item::Use(t) => ItemView::Use(t@),
            Item::Other(pieces) => ItemView::Other(pieces_view(*pieces)),
        }
    }
}

pub fn copy_opt(t: &Option<Type>) -> (r: Option<Type>)
    ensures
        opt_view(r) == opt_view(*t),
{
    match t {
        Some(t) => Some(copy_type(t)),
        None => None,
    }
}

pub fn copy_opt_expr(e: &Option<Vec<ExprPiece>>) -> (r: Option<Vec<ExprPiece>>)
    ensures
        opt_expr_view(r) == opt_expr_view(*e),
{
    match e {
        Some(e) => Some(copy_expr(e)),
        None => None,
    }
}

impl Visibility {
    pub fn copy(&self) -> (r: Visibility)
        ensures
            r@ == self@,
    {
        match self {
            Visibility::Inherited => Visibility::Inherited,
            Visibility::Explicit(text) => Visibility::Explicit(text.clone()),
        }
    }
}

impl GenericParam {
    pub fn copy(&self) -> (r: GenericParam)
        ensures
            r@ == self@,
    {
        match self {
            GenericParam::Type(p) => GenericParam::Type(
                TypeParam {
                    attrs: copy_strings(&p.attrs),
                    ident: p.ident.clone(),
                    colon_token: p.colon_token,
                    bounds: copy_bounds(&p.bounds),
                    default: copy_opt(&p.default),
                },
            ),
            GenericParam::Lifetime(p) => GenericParam::Lifetime(p.copy()),
            GenericParam::Const(p) => GenericParam::Const(
                ConstParam {
                    attrs: copy_strings(&p.attrs),
                    ident: p.ident.clone(),
                    ty: copy_type(&p.ty),
                    default: copy_opt_expr(&p.default),
                },
            ),
        }
    }
}

impl WherePredicate {
    pub fn copy(&self) -> (r: WherePredicate)
        ensures
            r@ == self@,
    {
        match self {
            WherePredicate::Type(p) => WherePredicate::Type(
                PredicateType {
                    lifetimes: copy_opt_lifetime_defs(&p.lifetimes),
                    bounded_ty: copy_type(&p.bounded_ty),
                    bounds: copy_bounds(&p.bounds),
                },
            ),
            WherePredicate::Lifetime { lifetime, bounds } => WherePredicate::Lifetime {
                lifetime: lifetime.copy(),
                bounds: copy_lifetimes(bounds),
            },
            WherePredicate::Eq { lhs_ty, rhs_ty } => WherePredicate::Eq {
                lhs_ty: copy_type(lhs_ty),
                rhs_ty: copy_type(rhs_ty),
            },
        }
    }
}

pub fn copy_params(v: &Vec<GenericParam>) -> (r: Vec<GenericParam>)
    ensures
        params_view(r) == params_view(*v),
{
    let mut out: Vec<GenericParam> = Vec::new();
    let mut i: usize = 0;
    while i < v.len()
        invariant
            i <= v.len(),
            out.len() == i,
            forall|j: int| 0 <= j < i ==> out[j]@ == v[j]@,
        decreases v.len() - i,
    {
        out.push(v[i].copy());
        i += 1;
    }
    assert(params_view(out) =~= params_view(*v));
    out
}

pub fn copy_where_clause(w: &Option<Vec<WherePredicate>>) -> (r: Option<Vec<WherePredicate>>)
    ensures
        where_clause_view(r) == where_clause_view(*w),
{
    match w {
        Some(v) => {
            let mut out: Vec<WherePredicate> = Vec::new();
            let mut i: usize = 0;
            while i < v.len()
                invariant
                    i <= v.len(),
                    out.len() == i,
                    forall|j: int| 0 <= j < i ==> out[j]@ == v[j]@,
                decreases v.len() - i,
            {
                out.push(v[i].copy());
                i += 1;
            }
            assert(predicates_view(out) =~= predicates_view(*v));
            Some(out)
        },
        None => None,
    }
}

impl Generics {
    pub fn copy(&self) -> (r: Generics)
        ensures
            r@ == self@,
    {
        Generics { params: copy_params(&self.params), where_clause: copy_where_clause(&self.where_clause) }
    }
}

impl Clone for Generics {
    fn clone(&self) -> (r: Self)
        ensures
            r@ == self@,
    {
        self.copy()
    }
}

impl Clone for GenericParam {
    fn clone(&self) -> (r: Self)
        ensures
            r@ == self@,
    {
        self.copy()
    }
}

impl Clone for WherePredicate {
    fn clone(&self) -> (r: Self)
        ensures
            r@ == self@,
    {
        self.copy()
    }
}

impl Clone for Visibility {
    fn clone(&self) -> (r: Self)
        ensures
            r@ == self@,
    {
        self.copy()
    }
}

} // verus!
