use nougat::adjugate::adjugate;
use nougat::gat_attr::qualify_self;
use nougat::item::Item;
use nougat::item::Piece;
use nougat::item::PredicateType;
use nougat::item::TypeParam;
use nougat::syntax::BareFnArg;
use nougat::syntax::ExprPiece;
use nougat::syntax::GatBinding;
use nougat::syntax::GenericArgument;
use nougat::syntax::Lifetime;
use nougat::syntax::Path;
use nougat::syntax::PathArguments;
use nougat::syntax::PathSegment;
use nougat::syntax::QSelf;
use nougat::syntax::TraitBound;
use nougat::syntax::Type;
use nougat::syntax::TypeBareFn;
use nougat::syntax::TypeParamBound;
use nougat::syntax::TypePath;
use nougat::visit::visit_pieces;
use nougat::visit::visit_type;
use nougat::visit::Visitor;

fn plain(name: &str) -> PathSegment {
    PathSegment { ident: name.to_string(), arguments: PathArguments::Absent }
}

fn angle(name: &str, args: Vec<GenericArgument>) -> PathSegment {
    PathSegment {
        ident: name.to_string(),
        arguments: PathArguments::AngleBracketed { colon2_token: false, args },
    }
}

fn path(segments: Vec<PathSegment>) -> Type {
    Type::Path(TypePath { qself: None, path: Path { leading_colon: false, segments } })
}

fn ty(name: &str) -> Type {
    path(vec![plain(name)])
}

fn lt(name: &str) -> GenericArgument {
    GenericArgument::Lifetime(Lifetime { ident: name.to_string() })
}

fn qualified(self_ty: Type, position: usize, segments: Vec<PathSegment>) -> Type {
    Type::Path(TypePath {
        qself: Some(QSelf { ty: Box::new(self_ty), position, as_token: true }),
        path: Path { leading_colon: false, segments },
    })
}

fn bound(segments: Vec<PathSegment>) -> TypeParamBound {
    TypeParamBound::Trait(TraitBound {
        paren_token: false,
        maybe: false,
        lifetimes: None,
        path: Path { leading_colon: false, segments },
    })
}

fn binds(ident: &str, lifetimes: &[&str], ty: Type) -> GenericArgument {
    GenericArgument::GatBinding(GatBinding {
        ident: ident.to_string(),
        lifetimes: lifetimes.iter().map(|l| Lifetime { ident: l.to_string() }).collect(),
        ty,
    })
}

fn value(ty: Type) -> GenericArgument {
    GenericArgument::Binding { ident: "T".to_string(), ty }
}

// <I as LendingIterator>::Item<'a>
fn item_of(i: Type, lifetime: &str) -> Type {
    qualified(i, 1, vec![plain("LendingIterator"), angle("Item", vec![lt(lifetime)])])
}

// <I as LendingIterator__Item<'a>>::T
fn rewritten_item_of(i: Type, lifetime: &str) -> Type {
    qualified(i, 1, vec![angle("LendingIterator__Item", vec![lt(lifetime)]), plain("T")])
}

fn current() -> Path {
    Path { leading_colon: false, segments: vec![plain("LendingIterator")] }
}

#[test]
fn every_type_on_the_way_is_rewritten() {
    let wrap = |inner: Type, bounded: Type| {
        Type::Tuple(vec![
            Type::Reference {
                lifetime: Some(Lifetime { ident: "x".to_string() }),
                mutable: true,
                elem: Box::new(Type::Slice(Box::new(inner))),
            },
            Type::Array { elem: Box::new(Type::Paren(Box::new(Type::Group(Box::new(bounded))))), len: vec![ExprPiece::Tokens("4".to_string())] },
            Type::Ptr { mutable: false, elem: Box::new(Type::Never) },
            Type::Infer,
            Type::Macro("m!()".to_string()),
            Type::Verbatim("<I as LendingIterator>::Item<'a>".to_string()),
        ])
    };
    let input = wrap(
        item_of(ty("I"), "a"),
        path(vec![angle(
            "Option",
            vec![
                GenericArgument::Type(item_of(ty("J"), "b")),
                GenericArgument::Binding { ident: "X".to_string(), ty: item_of(ty("K"), "c") },
                GenericArgument::Constraint {
                    ident: "Y".to_string(),
                    bounds: vec![bound(vec![angle("Into", vec![GenericArgument::Type(item_of(ty("L"), "d"))])])],
                },
                GenericArgument::Const(vec![ExprPiece::Tokens("{ 1 }".to_string())]),
            ],
        )]),
    );
    let expected = wrap(
        rewritten_item_of(ty("I"), "a"),
        path(vec![angle(
            "Option",
            vec![
                GenericArgument::Type(rewritten_item_of(ty("J"), "b")),
                GenericArgument::Binding { ident: "X".to_string(), ty: rewritten_item_of(ty("K"), "c") },
                GenericArgument::Constraint {
                    ident: "Y".to_string(),
                    bounds: vec![bound(vec![angle(
                        "Into",
                        vec![GenericArgument::Type(rewritten_item_of(ty("L"), "d"))],
                    )])],
                },
                GenericArgument::Const(vec![ExprPiece::Tokens("{ 1 }".to_string())]),
            ],
        )]),
    );
    assert_eq!(visit_type(&Visitor::ApplyGat, &input), expected);
}

#[test]
fn function_pointers_and_trait_objects_are_walked() {
    let make = |a: Type, b: Type, c: Type, d: Type| {
        Type::BareFn(TypeBareFn {
            prefix: "unsafe extern \"C\"".to_string(),
            inputs: vec![
                BareFnArg { prefix: "x :".to_string(), ty: a },
                BareFnArg {
                    prefix: String::new(),
                    ty: Type::TraitObject {
                        dyn_token: true,
                        bounds: vec![bound(vec![PathSegment {
                            ident: "Fn".to_string(),
                            arguments: PathArguments::Parenthesized { inputs: vec![b], output: Some(Box::new(c)) },
                        }])],
                    },
                },
            ],
            variadic: true,
            output: Some(Box::new(d)),
        })
    };
    let input = make(item_of(ty("A"), "a"), item_of(ty("B"), "b"), item_of(ty("C"), "c"), item_of(ty("D"), "d"));
    let expected = make(
        rewritten_item_of(ty("A"), "a"),
        rewritten_item_of(ty("B"), "b"),
        rewritten_item_of(ty("C"), "c"),
        rewritten_item_of(ty("D"), "d"),
    );
    assert_eq!(visit_type(&Visitor::ApplyGat, &input), expected);
}

#[test]
fn inner_types_are_rewritten_before_outer_ones() {
    // <<I as LendingIterator>::Item<'a> as LendingIterator>::Item<'b>
    let input = item_of(item_of(ty("I"), "a"), "b");
    let expected = rewritten_item_of(rewritten_item_of(ty("I"), "a"), "b");
    assert_eq!(visit_type(&Visitor::ApplyGat, &input), expected);
}

#[test]
fn a_path_that_cannot_be_rewritten_is_left_without_complaint() {
    // <I as LendingIterator>::Item (no lifetimes), but its qualifier can be rewritten
    let input = qualified(item_of(ty("I"), "a"), 1, vec![plain("LendingIterator"), plain("Item")]);
    let expected = qualified(rewritten_item_of(ty("I"), "a"), 1, vec![plain("LendingIterator"), plain("Item")]);
    assert_eq!(visit_type(&Visitor::ApplyGat, &input), expected);
    // Vec<u8>
    let input = path(vec![angle("Vec", vec![GenericArgument::Type(ty("u8"))])]);
    let expected = path(vec![angle("Vec", vec![GenericArgument::Type(ty("u8"))])]);
    assert_eq!(visit_type(&Visitor::ApplyGat, &input), expected);
}

#[test]
fn impl_trait_is_handled_after_its_types() {
    // impl LendingIterator<Item<'a> = X> + Into<<I as LendingIterator>::Item<'b>>
    let input = Type::ImplTrait(vec![
        bound(vec![angle("LendingIterator", vec![binds("Item", &["a"], ty("X"))])]),
        bound(vec![angle("Into", vec![GenericArgument::Type(item_of(ty("I"), "b"))])]),
    ]);
    let expected = Type::ImplTrait(vec![
        bound(vec![angle("LendingIterator", vec![])]),
        bound(vec![angle("Into", vec![GenericArgument::Type(rewritten_item_of(ty("I"), "b"))])]),
        bound(vec![angle("LendingIterator__Item", vec![lt("a"), value(ty("X"))])]),
    ]);
    assert_eq!(visit_type(&Visitor::ApplyGat, &input), expected);
}

#[test]
fn bounds_of_trait_objects_are_walked_but_not_handled() {
    let make = || {
        Type::TraitObject {
            dyn_token: true,
            bounds: vec![bound(vec![angle("LendingIterator", vec![binds("Item", &["a"], ty("X"))])])],
        }
    };
    assert_eq!(visit_type(&Visitor::ApplyGat, &make()), make());
}

#[test]
fn self_is_qualified_by_the_current_trait() {
    // Self::Item<'a>
    let input = TypePath {
        qself: None,
        path: Path { leading_colon: false, segments: vec![plain("Self"), angle("Item", vec![lt("a")])] },
    };
    // <Self as path::to::Trait<G>>::Item<'a>
    let current = Path {
        leading_colon: false,
        segments: vec![plain("path"), plain("to"), angle("Trait", vec![GenericArgument::Type(ty("G"))])],
    };
    let expected = TypePath {
        qself: Some(QSelf { ty: Box::new(ty("Self")), position: 3, as_token: true }),
        path: Path {
            leading_colon: false,
            segments: vec![
                plain("path"),
                plain("to"),
                angle("Trait", vec![GenericArgument::Type(ty("G"))]),
                angle("Item", vec![lt("a")]),
            ],
        },
    };
    assert_eq!(qualify_self(&current, input), expected);
}

#[test]
fn other_paths_are_not_qualified() {
    let unchanged = |segments: Vec<PathSegment>| {
        let input = TypePath { qself: None, path: Path { leading_colon: false, segments } };
        assert_eq!(qualify_self(&current(), input.clone()), input);
    };
    // Self::Item
    unchanged(vec![plain("Self"), plain("Item")]);
    // Other::Item<'a>
    unchanged(vec![plain("Other"), angle("Item", vec![lt("a")])]);
    // Self
    unchanged(vec![plain("Self")]);
    // nothing
    unchanged(vec![]);
    // Self::Fn(A)
    unchanged(vec![
        plain("Self"),
        PathSegment {
            ident: "Fn".to_string(),
            arguments: PathArguments::Parenthesized { inputs: vec![ty("A")], output: None },
        },
    ]);
}

#[test]
fn qualifying_keeps_only_the_last_segment() {
    // Self::Middle::Item<'a> and Self<'s>
    let input = TypePath {
        qself: None,
        path: Path {
            leading_colon: false,
            segments: vec![angle("Self", vec![lt("s")]), plain("Middle"), angle("Item", vec![lt("a")])],
        },
    };
    let expected = TypePath {
        qself: Some(QSelf { ty: Box::new(ty("Self")), position: 1, as_token: true }),
        path: Path { leading_colon: false, segments: vec![plain("LendingIterator"), angle("Item", vec![lt("a")])] },
    };
    assert_eq!(qualify_self(&current(), input), expected);
}

#[test]
fn qualified_then_rewritten() {
    // Option<Self::Item<'_>>
    let input =
        path(vec![angle("Option", vec![GenericArgument::Type(path(vec![plain("Self"), angle("Item", vec![lt("_")])]))])]);
    let qualified_once = visit_type(&Visitor::ReplaceSelf(current()), &input);
    assert_eq!(
        qualified_once,
        path(vec![angle("Option", vec![GenericArgument::Type(item_of(ty("Self"), "_"))])])
    );
    let rewritten = visit_type(&Visitor::ApplyGat, &qualified_once);
    assert_eq!(
        rewritten,
        path(vec![angle("Option", vec![GenericArgument::Type(rewritten_item_of(ty("Self"), "_"))])])
    );
}

fn pieces() -> Vec<Piece> {
    vec![
        Piece::Tokens("fn first <".to_string()),
        Piece::TypeParam(TypeParam {
            attrs: vec![],
            ident: "I".to_string(),
            colon_token: true,
            bounds: vec![bound(vec![angle("LendingIterator", vec![binds("Item", &["a"], ty("X"))])])],
            default: Some(path(vec![plain("Self"), angle("Item", vec![lt("d")])])),
        }),
        Piece::Tokens("> ( iter : & mut I ) ->".to_string()),
        Piece::Type(path(vec![plain("Self"), angle("Item", vec![lt("_")])])),
        Piece::Tokens("where".to_string()),
        Piece::Predicate(PredicateType {
            lifetimes: None,
            bounded_ty: item_of(ty("I"), "p"),
            bounds: vec![bound(vec![angle("LendingIterator", vec![binds("Item", &["b"], ty("Y"))])])],
        }),
        Piece::Item("fn inner () -> Self :: Item < 'a > { }".to_string()),
        Piece::Item("mod m { type A = < I as LendingIterator > :: Item < 'a > ; }".to_string()),
    ]
}

fn normalized_pieces() -> Vec<Piece> {
    vec![
        Piece::Tokens("fn first <".to_string()),
        Piece::TypeParam(TypeParam {
            attrs: vec![],
            ident: "I".to_string(),
            colon_token: true,
            bounds: vec![
                bound(vec![angle("LendingIterator", vec![])]),
                bound(vec![angle("LendingIterator__Item", vec![lt("a"), value(ty("X"))])]),
            ],
            default: Some(rewritten_item_of(ty("Self"), "d")),
        }),
        Piece::Tokens("> ( iter : & mut I ) ->".to_string()),
        Piece::Type(rewritten_item_of(ty("Self"), "_")),
        Piece::Tokens("where".to_string()),
        Piece::Predicate(PredicateType {
            lifetimes: None,
            bounded_ty: rewritten_item_of(ty("I"), "p"),
            bounds: vec![
                bound(vec![angle("LendingIterator", vec![])]),
                bound(vec![angle("LendingIterator__Item", vec![lt("b"), value(ty("Y"))])]),
            ],
        }),
        Piece::Item("fn inner () -> Self :: Item < 'a > { }".to_string()),
        Piece::Item("mod m { type A = < I as LendingIterator > :: Item < 'a > ; }".to_string()),
    ]
}

fn normalize(input: &Vec<Piece>) -> Vec<Piece> {
    visit_pieces(&Visitor::ApplyGat, &visit_pieces(&Visitor::ReplaceSelf(current()), input))
}

#[test]
fn pieces_are_walked_and_inner_items_left_alone() {
    assert_eq!(normalize(&pieces()), normalized_pieces());
}

#[test]
fn qualifying_alone_does_not_handle_bounds() {
    let qualified_only = visit_pieces(&Visitor::ReplaceSelf(current()), &pieces());
    let expected = {
        let mut expected = pieces();
        expected[1] = Piece::TypeParam(TypeParam {
            attrs: vec![],
            ident: "I".to_string(),
            colon_token: true,
            bounds: vec![bound(vec![angle("LendingIterator", vec![binds("Item", &["a"], ty("X"))])])],
            default: Some(item_of(ty("Self"), "d")),
        });
        expected[3] = Piece::Type(item_of(ty("Self"), "_"));
        expected
    };
    assert_eq!(qualified_only, expected);
}

#[test]
fn normalizing_a_second_time_changes_nothing() {
    let once = normalize(&pieces());
    let twice = normalize(&once);
    assert_eq!(twice, once);
}

#[test]
fn adjugate_rewrites_any_item() {
    let input = Item::Other(vec![
        Piece::Tokens("type Item < 'lt , I > =".to_string()),
        Piece::Type(item_of(ty("I"), "lt")),
        Piece::Tokens(";".to_string()),
    ]);
    let expected = Item::Other(vec![
        Piece::Tokens("type Item < 'lt , I > =".to_string()),
        Piece::Type(rewritten_item_of(ty("I"), "lt")),
        Piece::Tokens(";".to_string()),
    ]);
    assert_eq!(adjugate(input), expected);
}

#[test]
fn types_in_the_expressions_of_a_type_are_rewritten() {
    // [u8; size_of::<<I as LendingIterator>::Item<'a>>() + { fn f() -> <I as LendingIterator>::Item<'a> {} 0 }]
    let make = |inner: Type| Type::Array {
        elem: Box::new(ty("u8")),
        len: vec![
            ExprPiece::Tokens("size_of::<".to_string()),
            ExprPiece::Type(inner),
            ExprPiece::Tokens(">() + {".to_string()),
            ExprPiece::Item("fn f() -> <I as LendingIterator>::Item<'a> {}".to_string()),
            ExprPiece::Tokens("0 }".to_string()),
        ],
    };
    assert_eq!(
        visit_type(&Visitor::ApplyGat, &make(item_of(ty("I"), "a"))),
        make(rewritten_item_of(ty("I"), "a"))
    );
    let constant = |inner: Type| {
        path(vec![angle("Buffer", vec![GenericArgument::Const(vec![ExprPiece::Type(inner)])])])
    };
    assert_eq!(
        visit_type(&Visitor::ReplaceSelf(current()), &constant(path(vec![plain("Self"), angle("Item", vec![lt("a")])]))),
        constant(item_of(ty("Self"), "a"))
    );
}

#[test]
fn the_value_of_a_binding_is_walked_before_the_bounds_are_handled() {
    // impl LendingIterator<Item<'a> = <J as LendingIterator>::Item<'a>>
    let input = Type::ImplTrait(vec![bound(vec![angle(
        "LendingIterator",
        vec![binds("Item", &["a"], item_of(ty("J"), "a"))],
    )])]);
    let expected = Type::ImplTrait(vec![
        bound(vec![angle("LendingIterator", vec![])]),
        bound(vec![angle("LendingIterator__Item", vec![lt("a"), value(rewritten_item_of(ty("J"), "a"))])]),
    ]);
    let once = visit_type(&Visitor::ApplyGat, &input);
    assert_eq!(once, expected);
    assert_eq!(visit_type(&Visitor::ApplyGat, &once), expected);
}

#[test]
fn bounds_under_a_reference_are_handed_through() {
    // &dyn Tr, &mut impl Tr + 'a, *const dyn Tr
    let tr = || vec![bound(vec![plain("Tr")])];
    let make = || {
        Type::Tuple(vec![
            Type::Reference {
                lifetime: None,
                mutable: false,
                elem: Box::new(Type::TraitObject { dyn_token: true, bounds: tr() }),
            },
            Type::Reference {
                lifetime: None,
                mutable: true,
                elem: Box::new(Type::ImplTrait(vec![
                    bound(vec![plain("Tr")]),
                    TypeParamBound::Lifetime(Lifetime { ident: "a".to_string() }),
                ])),
            },
            Type::Ptr { mutable: false, elem: Box::new(Type::TraitObject { dyn_token: true, bounds: tr() }) },
            Type::Group(Box::new(Type::TraitObject { dyn_token: true, bounds: tr() })),
        ])
    };
    assert_eq!(visit_type(&Visitor::ApplyGat, &make()), make());
    assert_eq!(visit_type(&Visitor::ReplaceSelf(current()), &make()), make());
}
