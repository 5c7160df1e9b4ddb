use nougat::error::Place;
use nougat::error::Rule;
use nougat::error::Violation;
use nougat::gat_attr::trait_def::handle as handle_trait;
use nougat::gat_attr::trait_def::AuxiliaryTrait;
use nougat::gat_attr::trait_def::TraitExpansion;
use nougat::gat_attr::trait_impl::handle as handle_impl;
use nougat::gat_attr::trait_impl::AuxiliaryImpl;
use nougat::gat_attr::trait_impl::ImplExpansion;
use nougat::item::ConstParam;
use nougat::item::GenericParam;
use nougat::item::Generics;
use nougat::item::ImplItem;
use nougat::item::ImplItemType;
use nougat::item::ImplTrait;
use nougat::item::ItemImpl;
use nougat::item::ItemTrait;
use nougat::item::Piece;
use nougat::item::PredicateType;
use nougat::item::TraitItem;
use nougat::item::TraitItemType;
use nougat::item::TypeParam;
use nougat::item::Visibility;
use nougat::item::WherePredicate;
use nougat::syntax::GenericArgument;
use nougat::syntax::Lifetime;
use nougat::syntax::LifetimeDef;
use nougat::syntax::Path;
use nougat::syntax::PathArguments;
use nougat::syntax::PathSegment;
use nougat::syntax::QSelf;
use nougat::syntax::TraitBound;
use nougat::syntax::Type;
use nougat::syntax::TypeParamBound;
use nougat::syntax::TypePath;

fn plain(name: &str) -> PathSegment {
    PathSegment { ident: name.to_string(), arguments: PathArguments::Absent }
}

fn angle(name: &str, args: Vec<GenericArgument>) -> PathSegment {
    PathSegment {
        ident: name.to_string(),
        arguments: PathArguments::AngleBracketed { colon2_token: false, args },
    }
}

fn path(segments: Vec<PathSegment>) -> Type {
    Type::Path(TypePath { qself: None, path: Path { leading_colon: false, segments } })
}

fn ty(name: &str) -> Type {
    path(vec![plain(name)])
}

fn lifetime(name: &str) -> Lifetime {
    Lifetime { ident: name.to_string() }
}

fn lt(name: &str) -> GenericArgument {
    GenericArgument::Lifetime(lifetime(name))
}

fn declares(name: &str) -> GenericParam {
    GenericParam::Lifetime(LifetimeDef { attrs: vec![], lifetime: lifetime(name), bounds: vec![] })
}

fn outlives(bounded: Type, name: &str) -> WherePredicate {
    WherePredicate::Type(PredicateType {
        lifetimes: None,
        bounded_ty: bounded,
        bounds: vec![TypeParamBound::Lifetime(lifetime(name))],
    })
}

fn bound(segments: Vec<PathSegment>) -> TypeParamBound {
    TypeParamBound::Trait(TraitBound {
        paren_token: false,
        maybe: false,
        lifetimes: None,
        path: Path { leading_colon: false, segments },
    })
}

fn qualified(self_ty: Type, position: usize, segments: Vec<PathSegment>) -> Type {
    Type::Path(TypePath {
        qself: Some(QSelf { ty: Box::new(self_ty), position, as_token: true }),
        path: Path { leading_colon: false, segments },
    })
}

fn option(inner: Type) -> Type {
    path(vec![angle("Option", vec![GenericArgument::Type(inner)])])
}

fn reference(name: &str, inner: Type) -> Type {
    Type::Reference { lifetime: Some(lifetime(name)), mutable: false, elem: Box::new(inner) }
}

fn implicit_bounds(elems: Vec<Type>) -> GenericParam {
    GenericParam::Type(TypeParam {
        attrs: vec![],
        ident: "__ImplicitBounds".to_string(),
        colon_token: false,
        bounds: vec![],
        default: Some(Type::Tuple(elems)),
    })
}

fn for_all(lifetimes: &[&str], segment: PathSegment) -> TypeParamBound {
    TypeParamBound::Trait(TraitBound {
        paren_token: false,
        maybe: false,
        lifetimes: Some(
            lifetimes.iter().map(|l| LifetimeDef { attrs: vec![], lifetime: lifetime(l), bounds: vec![] }).collect(),
        ),
        path: Path { leading_colon: false, segments: vec![segment] },
    })
}

fn method(output: Type) -> TraitItem {
    TraitItem::Other(vec![
        Piece::Tokens("fn next (& mut self) ->".to_string()),
        Piece::Type(output),
        Piece::Tokens(";".to_string()),
    ])
}

// trait LendingIterator {
//     type Item<'n> where Self: 'n;
//     fn next(&mut self) -> Option<Self::Item<'_>>;
// }
fn lending_iterator() -> ItemTrait {
    ItemTrait {
        attrs: vec![],
        vis: Visibility::Inherited,
        unsafety: false,
        auto_token: false,
        ident: "LendingIterator".to_string(),
        generics: Generics { params: vec![], where_clause: None },
        colon_token: false,
        supertraits: vec![],
        items: vec![
            TraitItem::Type(TraitItemType {
                attrs: vec![],
                ident: "Item".to_string(),
                generics: Generics {
                    params: vec![declares("n")],
                    where_clause: Some(vec![outlives(ty("Self"), "n")]),
                },
                colon_token: false,
                bounds: vec![],
                default: None,
            }),
            method(option(path(vec![plain("Self"), angle("Item", vec![lt("_")])]))),
        ],
    }
}

#[test]
fn lending_iterator_gets_an_auxiliary_supertrait() {
    let expected = TraitExpansion {
        // trait LendingIterator__Item<'n, __ImplicitBounds = (&'n Self,)> { type T; }
        auxiliaries: vec![AuxiliaryTrait {
            attrs: vec![],
            ident: "LendingIterator__Item".to_string(),
            generics: Generics {
                params: vec![declares("n"), implicit_bounds(vec![reference("n", ty("Self"))])],
                where_clause: None,
            },
            bounds: vec![],
        }],
        // trait LendingIterator: for<'n> LendingIterator__Item<'n> {
        //     fn next(&mut self) -> Option<<Self as LendingIterator__Item<'_>>::T>;
        // }
        item: ItemTrait {
            attrs: vec![],
            vis: Visibility::Inherited,
            unsafety: false,
            auto_token: false,
            ident: "LendingIterator".to_string(),
            generics: Generics { params: vec![], where_clause: None },
            colon_token: true,
            supertraits: vec![for_all(&["n"], angle("LendingIterator__Item", vec![lt("n")]))],
            items: vec![method(option(qualified(
                ty("Self"),
                1,
                vec![angle("LendingIterator__Item", vec![lt("_")]), plain("T")],
            )))],
        },
    };
    assert_eq!(handle_trait(lending_iterator()), Ok(expected));
}

// pub unsafe trait Family<'x, K: Ord, const N: usize>: Sized where K: 'x {
//     #[doc = "one"] type One<'a, 'b>: Clone + Into<Self::Two<'a>> where Self: 'a, K: 'b;
//     type Plain: Copy;
//     type Two<'c>;
//     fn get(&self) -> Self::One<'_, '_>;
// }
fn family() -> ItemTrait {
    ItemTrait {
        attrs: vec!["#[doc = \"family\"]".to_string()],
        vis: Visibility::Explicit("pub".to_string()),
        unsafety: true,
        auto_token: false,
        ident: "Family".to_string(),
        generics: Generics {
            params: vec![
                declares("x"),
                GenericParam::Type(TypeParam {
                    attrs: vec![],
                    ident: "K".to_string(),
                    colon_token: true,
                    bounds: vec![bound(vec![plain("Ord")])],
                    default: None,
                }),
                GenericParam::Const(ConstParam {
                    attrs: vec![],
                    ident: "N".to_string(),
                    ty: ty("usize"),
                    default: None,
                }),
            ],
            where_clause: Some(vec![outlives(ty("K"), "x")]),
        },
        colon_token: true,
        supertraits: vec![bound(vec![plain("Sized")])],
        items: vec![
            TraitItem::Type(TraitItemType {
                attrs: vec!["#[doc = \"one\"]".to_string()],
                ident: "One".to_string(),
                generics: Generics {
                    params: vec![declares("a"), declares("b")],
                    where_clause: Some(vec![outlives(ty("Self"), "a"), outlives(ty("K"), "b")]),
                },
                colon_token: true,
                bounds: vec![
                    bound(vec![plain("Clone")]),
                    bound(vec![angle(
                        "Into",
                        vec![GenericArgument::Type(path(vec![plain("Self"), angle("Two", vec![lt("a")])]))],
                    )]),
                ],
                default: None,
            }),
            TraitItem::Type(TraitItemType {
                attrs: vec![],
                ident: "Plain".to_string(),
                generics: Generics { params: vec![], where_clause: None },
                colon_token: true,
                bounds: vec![bound(vec![plain("Copy")])],
                default: None,
            }),
            TraitItem::Type(TraitItemType {
                attrs: vec![],
                ident: "Two".to_string(),
                generics: Generics { params: vec![declares("c")], where_clause: None },
                colon_token: false,
                bounds: vec![],
                default: None,
            }),
            method(path(vec![plain("Self"), angle("One", vec![lt("_"), lt("_")])])),
        ],
    }
}

fn family_params() -> Vec<GenericParam> {
    family().generics.params
}

fn forwarded() -> Vec<GenericArgument> {
    vec![lt("x"), GenericArgument::Type(ty("K")), GenericArgument::Type(ty("N"))]
}

#[test]
fn trait_with_parameters_and_two_generic_associated_types() {
    let with = |first: Vec<GenericParam>, last: GenericParam| {
        let mut params = first;
        params.extend(family_params());
        params.push(last);
        params
    };
    let args = |first: Vec<GenericArgument>| {
        let mut args = first;
        args.extend(forwarded());
        args
    };
    // `Self::Two<'a>` in the bounds of `One` became
    // `<Self as Family<'x, K, N>>::Two<'a>` and then
    // `<Self as Family__Two<'x, K, N, 'a>>::T`: the arguments of the trait
    // come first in a rewritten path.
    let two = qualified(
        ty("Self"),
        1,
        vec![
            angle("Family__Two", vec![lt("x"), GenericArgument::Type(ty("K")), GenericArgument::Type(ty("N")), lt("a")]),
            plain("T"),
        ],
    );
    let one = qualified(
        ty("Self"),
        1,
        vec![
            angle(
                "Family__One",
                vec![lt("x"), GenericArgument::Type(ty("K")), GenericArgument::Type(ty("N")), lt("_"), lt("_")],
            ),
            plain("T"),
        ],
    );
    let expected = TraitExpansion {
        auxiliaries: vec![
            AuxiliaryTrait {
                attrs: vec!["#[doc = \"one\"]".to_string()],
                ident: "Family__One".to_string(),
                generics: Generics {
                    params: with(
                        vec![declares("a"), declares("b")],
                        implicit_bounds(vec![reference("a", ty("Self")), reference("b", ty("K"))]),
                    ),
                    where_clause: Some(vec![outlives(ty("K"), "x")]),
                },
                bounds: vec![bound(vec![plain("Clone")]), bound(vec![angle("Into", vec![GenericArgument::Type(two)])])],
            },
            AuxiliaryTrait {
                attrs: vec![],
                ident: "Family__Two".to_string(),
                generics: Generics {
                    params: with(vec![declares("c")], implicit_bounds(vec![])),
                    where_clause: Some(vec![outlives(ty("K"), "x")]),
                },
                bounds: vec![],
            },
        ],
        item: ItemTrait {
            attrs: vec!["#[doc = \"family\"]".to_string()],
            vis: Visibility::Explicit("pub".to_string()),
            unsafety: true,
            auto_token: false,
            ident: "Family".to_string(),
            generics: family().generics,
            colon_token: true,
            supertraits: vec![
                bound(vec![plain("Sized")]),
                for_all(&["a", "b"], angle("Family__One", args(vec![lt("a"), lt("b")]))),
                for_all(&["c"], angle("Family__Two", args(vec![lt("c")]))),
            ],
            items: vec![
                TraitItem::Type(TraitItemType {
                    attrs: vec![],
                    ident: "Plain".to_string(),
                    generics: Generics { params: vec![], where_clause: None },
                    colon_token: true,
                    bounds: vec![bound(vec![plain("Copy")])],
                    default: None,
                }),
                method(one),
            ],
        },
    };
    assert_eq!(handle_trait(family()), Ok(expected));
}

#[test]
fn trait_without_generic_associated_types_only_gets_its_colon() {
    let mut input = lending_iterator();
    input.items.remove(0);
    let mut expected = lending_iterator();
    expected.items.remove(0);
    expected.colon_token = true;
    expected.items[0] =
        method(option(qualified(ty("Self"), 1, vec![angle("LendingIterator__Item", vec![lt("_")]), plain("T")])));
    assert_eq!(handle_trait(input), Ok(TraitExpansion { auxiliaries: vec![], item: expected }));
}

#[test]
fn violation_in_a_trait_names_the_item() {
    let mut input = family();
    if let TraitItem::Type(two) = &mut input.items[2] {
        two.default = Some(ty("u8"));
    }
    assert_eq!(
        handle_trait(input),
        Err(Violation { rule: Rule::DefaultGat, place: Place::DefaultValue, item: Some(1) })
    );
    let mut input = family();
    if let TraitItem::Type(one) = &mut input.items[0] {
        one.generics.params.push(GenericParam::Type(TypeParam {
            attrs: vec![],
            ident: "T".to_string(),
            colon_token: false,
            bounds: vec![],
            default: None,
        }));
    }
    if let TraitItem::Type(two) = &mut input.items[2] {
        two.default = Some(ty("u8"));
    }
    assert_eq!(
        handle_trait(input),
        Err(Violation { rule: Rule::NonLifetimeGat, place: Place::Param { param: 2 }, item: Some(0) })
    );
}

#[test]
fn default_of_a_plain_associated_type_is_no_violation() {
    let mut input = family();
    if let TraitItem::Type(plain) = &mut input.items[1] {
        plain.default = Some(ty("u8"));
    }
    let expansion = handle_trait(input).unwrap();
    assert_eq!(expansion.auxiliaries.len(), 2);
    assert_eq!(expansion.item.items.len(), 2);
}

// impl<'i, I> path::LendingIterator for WindowsMut<&'i mut [I]> where I: 'i {
//     type Item<'n> where Self: 'n = &'n mut [I];
//     fn next(&mut self) -> Option<Self::Item<'_>> { .. }
// }
fn windows_impl() -> ItemImpl {
    ItemImpl {
        attrs: vec![],
        defaultness: false,
        unsafety: false,
        generics: Generics {
            params: vec![
                declares("i"),
                GenericParam::Type(TypeParam {
                    attrs: vec![],
                    ident: "I".to_string(),
                    colon_token: false,
                    bounds: vec![],
                    default: None,
                }),
            ],
            where_clause: Some(vec![outlives(ty("I"), "i")]),
        },
        trait_: Some(ImplTrait {
            negative: false,
            path: Path { leading_colon: false, segments: vec![plain("path"), plain("LendingIterator")] },
        }),
        self_ty: path(vec![angle(
            "WindowsMut",
            vec![GenericArgument::Type(Type::Reference {
                lifetime: Some(lifetime("i")),
                mutable: true,
                elem: Box::new(Type::Slice(Box::new(ty("I")))),
            })],
        )]),
        items: vec![
            ImplItem::Type(ImplItemType {
                attrs: vec!["#[doc = \"item\"]".to_string()],
                vis: Visibility::Inherited,
                defaultness: false,
                ident: "Item".to_string(),
                generics: Generics {
                    params: vec![declares("n")],
                    where_clause: Some(vec![outlives(ty("Self"), "n")]),
                },
                ty: Type::Reference {
                    lifetime: Some(lifetime("n")),
                    mutable: true,
                    elem: Box::new(Type::Slice(Box::new(ty("I")))),
                },
            }),
            ImplItem::Other(vec![
                Piece::Tokens("fn next (& mut self) ->".to_string()),
                Piece::Type(option(path(vec![plain("Self"), angle("Item", vec![lt("_")])]))),
                Piece::Tokens("{ None }".to_string()),
            ]),
        ],
    }
}

#[test]
fn impl_gets_an_impl_of_the_auxiliary_trait() {
    let input = windows_impl();
    let mut expected_item = windows_impl();
    expected_item.items.remove(0);
    expected_item.items[0] = ImplItem::Other(vec![
        Piece::Tokens("fn next (& mut self) ->".to_string()),
        Piece::Type(option(qualified(
            ty("Self"),
            2,
            vec![plain("path"), angle("LendingIterator__Item", vec![lt("_")]), plain("T")],
        ))),
        Piece::Tokens("{ None }".to_string()),
    ]);
    let mut params = vec![declares("n")];
    params.extend(windows_impl().generics.params);
    let expected = ImplExpansion {
        // impl<'n, 'i, I> path::LendingIterator__Item<'n> for WindowsMut<&'i mut [I]> where I: 'i {
        //     type T = &'n mut [I];
        // }
        auxiliaries: vec![AuxiliaryImpl {
            attrs: vec!["#[doc = \"item\"]".to_string()],
            generics: Generics { params, where_clause: Some(vec![outlives(ty("I"), "i")]) },
            trait_: Path {
                leading_colon: false,
                segments: vec![plain("path"), angle("LendingIterator__Item", vec![lt("n")])],
            },
            self_ty: windows_impl().self_ty,
            value: Some(Type::Reference {
                lifetime: Some(lifetime("n")),
                mutable: true,
                elem: Box::new(Type::Slice(Box::new(ty("I")))),
            }),
        }],
        item: expected_item,
    };
    assert_eq!(handle_impl(input), Ok(expected));
}

#[test]
fn lifetimes_come_before_the_arguments_of_the_implemented_trait() {
    let mut input = windows_impl();
    input.trait_ = Some(ImplTrait {
        negative: false,
        path: Path {
            leading_colon: true,
            segments: vec![PathSegment {
                ident: "Family".to_string(),
                arguments: PathArguments::AngleBracketed {
                    colon2_token: true,
                    args: vec![lt("x"), GenericArgument::Type(ty("K"))],
                },
            }],
        },
    });
    input.items.push(ImplItem::Type(ImplItemType {
        attrs: vec![],
        vis: Visibility::Inherited,
        defaultness: false,
        ident: "Two".to_string(),
        generics: Generics { params: vec![declares("a"), declares("b")], where_clause: None },
        ty: ty("u8"),
    }));
    let expansion = handle_impl(input).unwrap();
    let paths: Vec<Path> = expansion.auxiliaries.iter().map(|a| a.trait_.clone()).collect();
    let aux = |name: &str, args: Vec<GenericArgument>| Path {
        leading_colon: true,
        segments: vec![PathSegment {
            ident: name.to_string(),
            arguments: PathArguments::AngleBracketed { colon2_token: true, args },
        }],
    };
    assert_eq!(
        paths,
        vec![
            aux("Family__Item", vec![lt("n"), lt("x"), GenericArgument::Type(ty("K"))]),
            aux("Family__Two", vec![lt("a"), lt("b"), lt("x"), GenericArgument::Type(ty("K"))]),
        ]
    );
    assert_eq!(expansion.auxiliaries[1].generics.params[..2], [declares("a"), declares("b")]);
    assert_eq!(expansion.auxiliaries[1].value, Some(ty("u8")));
    assert_eq!(expansion.item.items.len(), 1);
}

#[test]
fn inherent_impl_is_refused() {
    let mut input = windows_impl();
    input.trait_ = None;
    let violation = handle_impl(input).unwrap_err();
    assert_eq!(violation, Violation { rule: Rule::ExpectedTraitFor, place: Place::SelfType, item: None });
    assert_eq!(violation.rule.message(), "expected `TraitName for`");
    let mut input = windows_impl();
    input.trait_ = Some(ImplTrait { negative: false, path: Path { leading_colon: false, segments: vec![] } });
    assert_eq!(
        handle_impl(input),
        Err(Violation { rule: Rule::ExpectedTraitFor, place: Place::SelfType, item: None })
    );
}

#[test]
fn negative_impl_is_refused() {
    let mut input = windows_impl();
    input.trait_ = Some(ImplTrait {
        negative: true,
        path: Path { leading_colon: false, segments: vec![plain("LendingIterator")] },
    });
    assert_eq!(handle_impl(input), Err(Violation { rule: Rule::NotSupported, place: Place::Negative, item: None }));
}

#[test]
fn violation_in_an_impl_names_the_item() {
    let mut input = windows_impl();
    input.items.insert(0, ImplItem::Other(vec![Piece::Tokens("const N : usize = 0 ;".to_string())]));
    if let ImplItem::Type(item) = &mut input.items[1] {
        item.vis = Visibility::Explicit("pub(crate)".to_string());
    }
    assert_eq!(
        handle_impl(input),
        Err(Violation { rule: Rule::NotSupported, place: Place::Visibility, item: Some(0) })
    );
}

#[test]
fn round_brackets_on_the_implemented_trait_are_refused() {
    let paren = PathSegment {
        ident: "Fn".to_string(),
        arguments: PathArguments::Parenthesized { inputs: vec![ty("A")], output: None },
    };
    let mut input = windows_impl();
    input.trait_ = Some(ImplTrait { negative: false, path: Path { leading_colon: false, segments: vec![paren.clone()] } });
    assert_eq!(
        handle_impl(input),
        Err(Violation { rule: Rule::ExpectedAngleBrackets, place: Place::TraitArguments, item: None })
    );
    // without a generic associated type nothing is asked of the trait's arguments
    let mut input = windows_impl();
    input.trait_ = Some(ImplTrait { negative: false, path: Path { leading_colon: false, segments: vec![paren] } });
    input.items.remove(0);
    let expansion = handle_impl(input).unwrap();
    assert_eq!(expansion.auxiliaries, vec![]);
}

#[test]
fn trait_and_impl_name_the_auxiliary_trait_alike() {
    let declared = handle_trait(lending_iterator()).unwrap();
    let implemented = handle_impl(windows_impl()).unwrap();
    let name = declared.auxiliaries[0].ident.clone();
    assert_eq!(name, "LendingIterator__Item");
    assert_eq!(implemented.auxiliaries[0].trait_.segments.last().unwrap().ident, name);
    match &declared.item.supertraits[0] {
        TypeParamBound::Trait(t) => assert_eq!(t.path.segments.last().unwrap().ident, name),
        TypeParamBound::Lifetime(_) => panic!("the supertrait is a trait"),
    }
}

#[test]
fn normalizing_a_trait_twice_changes_nothing_more() {
    let once = || {
        let mut input = family();
        input.items = vec![input.items.remove(3)];
        handle_trait(input).unwrap().item
    };
    let twice = handle_trait(once()).unwrap();
    assert_eq!(twice.auxiliaries, vec![]);
    assert_eq!(twice.item, once());
}
