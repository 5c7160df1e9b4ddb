use nougat::gat_bang::auxiliary_bound_for;
use nougat::gat_bang::handle_trait_bounds;
use nougat::gat_bang::handle_type_impl_trait;
use nougat::syntax::ExprPiece;
use nougat::syntax::GatBinding;
use nougat::syntax::GenericArgument;
use nougat::syntax::Lifetime;
use nougat::syntax::Path;
use nougat::syntax::PathArguments;
use nougat::syntax::PathSegment;
use nougat::syntax::TraitBound;
use nougat::syntax::Type;
use nougat::syntax::TypeParamBound;
use nougat::syntax::TypePath;

fn plain(name: &str) -> PathSegment {
    PathSegment { ident: name.to_string(), arguments: PathArguments::Absent }
}

fn angle(name: &str, args: Vec<GenericArgument>) -> PathSegment {
    PathSegment {
        ident: name.to_string(),
        arguments: PathArguments::AngleBracketed { colon2_token: false, args },
    }
}

fn ty(name: &str) -> Type {
    Type::Path(TypePath { qself: None, path: Path { leading_colon: false, segments: vec![plain(name)] } })
}

fn lt(name: &str) -> GenericArgument {
    GenericArgument::Lifetime(Lifetime { ident: name.to_string() })
}

fn text(tokens: &str) -> GenericArgument {
    GenericArgument::Type(Type::Verbatim(tokens.to_string()))
}

fn bound(segments: Vec<PathSegment>) -> TypeParamBound {
    TypeParamBound::Trait(TraitBound {
        paren_token: false,
        maybe: false,
        lifetimes: None,
        path: Path { leading_colon: false, segments },
    })
}

fn binds(ident: &str, lifetimes: &[&str], ty: Type) -> GenericArgument {
    GenericArgument::GatBinding(GatBinding {
        ident: ident.to_string(),
        lifetimes: lifetimes.iter().map(|l| Lifetime { ident: l.to_string() }).collect(),
        ty,
    })
}

fn value(ty: Type) -> GenericArgument {
    GenericArgument::Binding { ident: "T".to_string(), ty }
}

#[test]
fn binding_becomes_a_bound_on_the_auxiliary_trait() {
    // impl LendingIterator<Item<'a> = &'a str>
    let input = vec![bound(vec![angle("LendingIterator", vec![binds("Item", &["a"], Type::Reference { lifetime: Some(Lifetime { ident: "a".to_string() }), mutable: false, elem: Box::new(ty("str")) })])])];
    let expected = vec![
        bound(vec![angle("LendingIterator", vec![])]),
        bound(vec![angle("LendingIterator__Item", vec![lt("a"), value(Type::Reference { lifetime: Some(Lifetime { ident: "a".to_string() }), mutable: false, elem: Box::new(ty("str")) })])]),
    ];
    assert_eq!(handle_type_impl_trait(input), expected);
}

#[test]
fn lifetimes_of_the_binding_stand_between_lifetimes_and_types() {
    // path::Trait<'x, Item<'a, 'b> = A, G, 3, Other = B>
    let input = vec![bound(vec![
        plain("path"),
        angle(
            "Trait",
            vec![
                lt("x"),
                binds("Item", &["a", "b"], ty("A")),
                GenericArgument::Type(ty("G")),
                GenericArgument::Const(vec![ExprPiece::Tokens("3".to_string())]),
                GenericArgument::Binding { ident: "Other".to_string(), ty: ty("B") },
            ],
        ),
    ])];
    let expected = vec![
        bound(vec![
            plain("path"),
            angle(
                "Trait",
                vec![
                    lt("x"),
                    GenericArgument::Type(ty("G")),
                    GenericArgument::Const(vec![ExprPiece::Tokens("3".to_string())]),
                    GenericArgument::Binding { ident: "Other".to_string(), ty: ty("B") },
                ],
            ),
        ]),
        bound(vec![
            plain("path"),
            angle(
                "Trait__Item",
                vec![
                    lt("x"),
                    lt("a"),
                    lt("b"),
                    GenericArgument::Type(ty("G")),
                    GenericArgument::Const(vec![ExprPiece::Tokens("3".to_string())]),
                    value(ty("A")),
                ],
            ),
        ]),
    ];
    assert_eq!(handle_type_impl_trait(input), expected);
}

#[test]
fn auxiliary_bounds_follow_all_the_bounds() {
    // A<X<'a> = P, Y<'b> = Q> + 'static + B<Z<'c> = R>
    let input = vec![
        bound(vec![angle("A", vec![binds("X", &["a"], ty("P")), binds("Y", &["b"], ty("Q"))])]),
        TypeParamBound::Lifetime(Lifetime { ident: "static".to_string() }),
        bound(vec![angle("B", vec![binds("Z", &["c"], ty("R"))])]),
    ];
    let expected = vec![
        bound(vec![angle("A", vec![])]),
        TypeParamBound::Lifetime(Lifetime { ident: "static".to_string() }),
        bound(vec![angle("B", vec![])]),
        bound(vec![angle("A__X", vec![lt("a"), value(ty("P"))])]),
        bound(vec![angle("A__Y", vec![lt("b"), value(ty("Q"))])]),
        bound(vec![angle("B__Z", vec![lt("c"), value(ty("R"))])]),
    ];
    assert_eq!(handle_type_impl_trait(input), expected);
}

#[test]
fn auxiliary_bound_keeps_what_stands_around_the_path() {
    let input = vec![TypeParamBound::Trait(TraitBound {
        paren_token: true,
        maybe: true,
        lifetimes: Some(vec![]),
        path: Path { leading_colon: true, segments: vec![angle("A", vec![binds("X", &["a"], ty("P"))])] },
    })];
    let expected = vec![
        TypeParamBound::Trait(TraitBound {
            paren_token: true,
            maybe: true,
            lifetimes: Some(vec![]),
            path: Path { leading_colon: true, segments: vec![angle("A", vec![])] },
        }),
        TypeParamBound::Trait(TraitBound {
            paren_token: true,
            maybe: true,
            lifetimes: Some(vec![]),
            path: Path { leading_colon: true, segments: vec![angle("A__X", vec![lt("a"), value(ty("P"))])] },
        }),
    ];
    assert_eq!(handle_type_impl_trait(input), expected);
}

#[test]
fn bounds_without_binding_stay_as_they_are() {
    let make = || {
        vec![
            bound(vec![plain("Clone")]),
            bound(vec![angle("Iterator", vec![GenericArgument::Binding { ident: "Item".to_string(), ty: ty("u8") }])]),
            bound(vec![angle("Collection", vec![text("Of<T> = Vec<T>")])]),
            // a binding without lifetimes is none to rewrite
            bound(vec![angle("Empty", vec![binds("Item", &[], ty("u8"))])]),
            bound(vec![PathSegment {
                ident: "Fn".to_string(),
                arguments: PathArguments::Parenthesized { inputs: vec![ty("A")], output: Some(Box::new(ty("B"))) },
            }]),
            bound(vec![]),
            TypeParamBound::Lifetime(Lifetime { ident: "a".to_string() }),
        ]
    };
    assert_eq!(handle_type_impl_trait(make()), make());
    assert_eq!(handle_type_impl_trait(vec![]), vec![]);
}

#[test]
fn handling_bounds_twice_changes_nothing_more() {
    let mut bounds = vec![
        bound(vec![angle("A", vec![lt("x"), binds("X", &["a"], ty("P")), GenericArgument::Type(ty("G"))])]),
        bound(vec![angle("B", vec![binds("Z", &["c"], ty("R"))])]),
    ];
    handle_trait_bounds(&mut bounds);
    assert_eq!(bounds.len(), 4);
    let once = handle_type_impl_trait(vec![
        bound(vec![angle("A", vec![lt("x"), binds("X", &["a"], ty("P")), GenericArgument::Type(ty("G"))])]),
        bound(vec![angle("B", vec![binds("Z", &["c"], ty("R"))])]),
    ]);
    assert_eq!(bounds, once);
    handle_trait_bounds(&mut bounds);
    assert_eq!(bounds, once);
}

#[test]
fn auxiliary_bound_of_one_binding() {
    let stripped = TraitBound {
        paren_token: false,
        maybe: false,
        lifetimes: None,
        path: Path {
            leading_colon: false,
            segments: vec![plain("a"), angle("Trait", vec![GenericArgument::Type(ty("G")), lt("x")])],
        },
    };
    let binding = GatBinding {
        ident: "Item".to_string(),
        lifetimes: vec![Lifetime { ident: "n".to_string() }],
        ty: ty("V"),
    };
    let expected = TraitBound {
        paren_token: false,
        maybe: false,
        lifetimes: None,
        path: Path {
            leading_colon: false,
            segments: vec![
                plain("a"),
                angle(
                    "Trait__Item",
                    vec![
                        lt("x"),
                        lt("n"),
                        GenericArgument::Type(ty("G")),
                        GenericArgument::Binding { ident: "T".to_string(), ty: ty("V") },
                    ],
                ),
            ],
        },
    };
    assert_eq!(auxiliary_bound_for(&stripped, &binding), expected);
}
