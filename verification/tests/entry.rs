use nougat::error::Diagnostic;
use nougat::error::Error;
use nougat::error::Place;
use nougat::error::Rule;
use nougat::error::Violation;
use nougat::gat;
use nougat::gat_attr::trait_use::Companion;
use nougat::gat_attr::trait_use::CompanionName;
use nougat::gat_attr::trait_use::UseExpansion;
use nougat::gat_attr::Expansion;
use nougat::gat_bang::Input;
use nougat::item::Generics;
use nougat::item::ImplTrait;
use nougat::item::Item;
use nougat::item::ItemImpl;
use nougat::item::ItemTrait;
use nougat::item::ItemUse;
use nougat::item::Piece;
use nougat::item::UseTree;
use nougat::item::Visibility;
use nougat::syntax::GatBinding;
use nougat::syntax::GenericArgument;
use nougat::syntax::Lifetime;
use nougat::syntax::Path;
use nougat::syntax::PathArguments;
use nougat::syntax::PathSegment;
use nougat::syntax::QSelf;
use nougat::syntax::TraitBound;
use nougat::syntax::Type;
use nougat::syntax::TypeParamBound;
use nougat::syntax::TypePath;
use nougat::utils::unwrap;
use nougat::utils::DrainFilterExt;
use nougat::Gat;

fn plain(name: &str) -> PathSegment {
    PathSegment { ident: name.to_string(), arguments: PathArguments::Absent }
}

fn angle(name: &str, args: Vec<GenericArgument>) -> PathSegment {
    PathSegment {
        ident: name.to_string(),
        arguments: PathArguments::AngleBracketed { colon2_token: false, args },
    }
}

fn ty(name: &str) -> Type {
    Type::Path(TypePath { qself: None, path: Path { leading_colon: false, segments: vec![plain(name)] } })
}

fn lt(name: &str) -> GenericArgument {
    GenericArgument::Lifetime(Lifetime { ident: name.to_string() })
}

fn qualified(self_ty: &str, segments: Vec<PathSegment>) -> TypePath {
    TypePath {
        qself: Some(QSelf { ty: Box::new(ty(self_ty)), position: 1, as_token: true }),
        path: Path { leading_colon: false, segments },
    }
}

fn one_message(message: &str, place: Place, item: Option<usize>) -> Error {
    Error { first: Diagnostic { message: message.to_string(), place, item }, rest: vec![] }
}

fn empty_trait() -> ItemTrait {
    ItemTrait {
        attrs: vec![],
        vis: Visibility::Inherited,
        unsafety: false,
        auto_token: false,
        ident: "Marker".to_string(),
        generics: Generics { params: vec![], where_clause: None },
        colon_token: false,
        supertraits: vec![],
        items: vec![],
    }
}

fn empty_impl() -> ItemImpl {
    ItemImpl {
        attrs: vec![],
        defaultness: false,
        unsafety: false,
        generics: Generics { params: vec![], where_clause: None },
        trait_: Some(ImplTrait { negative: false, path: Path { leading_colon: false, segments: vec![plain("Marker")] } }),
        self_ty: ty("u8"),
        items: vec![],
    }
}

#[test]
fn path_macro_rewrites_a_qualified_path() {
    // Gat!(<I as LendingIterator>::Item<'a>)
    let input = Input::TypePath(qualified("I", vec![plain("LendingIterator"), angle("Item", vec![lt("a")])]));
    let expected = Input::TypePath(qualified("I", vec![angle("LendingIterator__Item", vec![lt("a")]), plain("T")]));
    assert_eq!(Gat(input), Ok(expected));
}

#[test]
fn path_macro_reports_under_its_name() {
    let input = Input::TypePath(qualified("I", vec![plain("LendingIterator"), plain("Item")]));
    assert_eq!(
        Gat(input),
        Err(one_message("`::nougat::Gat!`: missing lifetime generics", Place::AssociatedName, None))
    );
    let input = Input::TypePath(TypePath {
        qself: None,
        path: Path { leading_colon: false, segments: vec![plain("I"), angle("Item", vec![lt("a")])] },
    });
    assert_eq!(Gat(input), Err(one_message("`::nougat::Gat!`: expected a qualifier", Place::FirstSegment, None)));
}

#[test]
fn round_brackets_are_reported_as_missing_angle_brackets() {
    // Gat!(<T as Tr>::A(u8))
    let input = Input::TypePath(qualified(
        "T",
        vec![
            plain("Tr"),
            PathSegment {
                ident: "A".to_string(),
                arguments: PathArguments::Parenthesized { inputs: vec![ty("u8")], output: None },
            },
        ],
    ));
    assert_eq!(
        Gat(input),
        Err(one_message("`::nougat::Gat!`: expected angle brackets", Place::AssociatedArguments, None))
    );
}

#[test]
fn path_macro_handles_impl_trait() {
    let bound = |segment: PathSegment| {
        TypeParamBound::Trait(TraitBound {
            paren_token: false,
            maybe: false,
            lifetimes: None,
            path: Path { leading_colon: false, segments: vec![segment] },
        })
    };
    let input = Input::TypeImpl(vec![bound(angle(
        "LendingIterator",
        vec![GenericArgument::GatBinding(GatBinding {
            ident: "Item".to_string(),
            lifetimes: vec![Lifetime { ident: "a".to_string() }],
            ty: ty("u8"),
        })],
    ))]);
    let expected = Input::TypeImpl(vec![
        bound(angle("LendingIterator", vec![])),
        bound(angle(
            "LendingIterator__Item",
            vec![lt("a"), GenericArgument::Binding { ident: "T".to_string(), ty: ty("u8") }],
        )),
    ]);
    assert_eq!(Gat(input), Ok(expected));
}

#[test]
fn path_macro_walks_an_item_and_swallows_what_it_cannot_rewrite() {
    let input = Input::Item(Item::Other(vec![
        Piece::Type(Type::Path(qualified("I", vec![plain("LendingIterator"), angle("Item", vec![lt("a")])]))),
        Piece::Type(Type::Path(qualified("I", vec![plain("LendingIterator"), plain("Item")]))),
    ]));
    let expected = Input::Item(Item::Other(vec![
        Piece::Type(Type::Path(qualified("I", vec![angle("LendingIterator__Item", vec![lt("a")]), plain("T")]))),
        Piece::Type(Type::Path(qualified("I", vec![plain("LendingIterator"), plain("Item")]))),
    ]));
    assert_eq!(Gat(input), Ok(expected));
    let import = || ItemUse {
        attrs: vec![],
        vis: Visibility::Inherited,
        leading_colon: true,
        tree: UseTree::Name { ident: "Trait".to_string() },
    };
    assert_eq!(Gat(Input::Item(Item::Use(import()))), Ok(Input::Item(Item::Use(import()))));
}

#[test]
fn attribute_expands_a_trait_and_an_impl() {
    match gat(&vec![], Item::Trait(empty_trait())) {
        Ok(Expansion::Trait(expansion)) => {
            assert_eq!(expansion.auxiliaries, vec![]);
            assert!(expansion.item.colon_token);
        },
        other => panic!("{:?}", other),
    }
    match gat(&vec![], Item::Impl(empty_impl())) {
        Ok(Expansion::Impl(expansion)) => {
            assert_eq!(expansion.auxiliaries, vec![]);
            assert_eq!(expansion.item, empty_impl());
        },
        other => panic!("{:?}", other),
    }
}

#[test]
fn attribute_expands_an_import() {
    let import = || ItemUse {
        attrs: vec!["#[doc(hidden)]".to_string()],
        vis: Visibility::Explicit("pub".to_string()),
        leading_colon: false,
        tree: UseTree::Name { ident: "Trait".to_string() },
    };
    assert_eq!(
        gat(&vec!["Item".to_string()], Item::Use(import())),
        Ok(Expansion::Use(UseExpansion {
            item: import(),
            companion: Companion {
                vis: Visibility::Explicit("pub".to_string()),
                path: vec![],
                names: vec![CompanionName { name: "Trait__Item".to_string(), rename: None }],
            },
        }))
    );
}

#[test]
fn attribute_refuses_other_items() {
    assert_eq!(
        gat(&vec![], Item::Other(vec![Piece::Tokens("struct S ;".to_string())])),
        Err(one_message(
            "`#[::nougat::gat]`: expected a `trait` or an `impl… Trait for`",
            Place::CallSite,
            None
        ))
    );
}

#[test]
fn attribute_takes_no_argument_on_a_trait_or_impl() {
    let expected = || Err(one_message("`#[::nougat::gat]`: unexpected token", Place::Argument, None));
    assert_eq!(gat(&vec!["Item".to_string()], Item::Trait(empty_trait())), expected());
    assert_eq!(gat(&vec!["Item".to_string()], Item::Impl(empty_impl())), expected());
}

#[test]
fn attribute_reports_under_its_name() {
    let mut input = empty_impl();
    input.trait_ = None;
    assert_eq!(
        gat(&vec![], Item::Impl(input)),
        Err(one_message("`#[::nougat::gat]`: expected `TraitName for`", Place::SelfType, None))
    );
    let import = ItemUse {
        attrs: vec![],
        vis: Visibility::Inherited,
        leading_colon: false,
        tree: UseTree::Glob,
    };
    assert_eq!(
        gat(&vec![], Item::Use(import)),
        Err(one_message(
            "`#[::nougat::gat]`: expected a single item in this import, e.g.\n`use path::to::Trait`, or `use path::to::Trait as Renamed`",
            Place::CallSite,
            None
        ))
    );
}

#[test]
fn every_rule_has_its_message() {
    let messages = [
        (Rule::ExpectedQualifier, "expected a qualifier"),
        (Rule::ExpectedAs, "expected `as`"),
        (Rule::ExpectedQualifiedPath, "expected `<Type as Trait>::Assoc<…>`"),
        (Rule::NestedAssociatedPath, "nested associated paths are not supported"),
        (Rule::MissingLifetimeGenerics, "missing lifetime generics"),
        (Rule::ExpectedAngleBrackets, "expected angle brackets"),
        (Rule::Unsupported, "unsupported"),
        (Rule::NonLifetimeGat, "non-lifetime GATs are not supported"),
        (Rule::HigherOrderLifetime, "higher-order lifetimes are not supported"),
        (Rule::ExpectedGatLifetime, "expected a GAT-generic lifetime"),
        (Rule::UnsupportedWherePredicate, "unsupported `where predicate`"),
        (Rule::DefaultGat, "default GATs are not supported"),
        (Rule::NotSupported, "not supported"),
        (Rule::ExpectedTraitFor, "expected `TraitName for`"),
        (Rule::ExpectedTraitOrImpl, "expected a `trait` or an `impl… Trait for`"),
        (Rule::UnexpectedToken, "unexpected token"),
    ];
    for (rule, message) in messages {
        assert_eq!(rule.message(), message);
    }
}

#[test]
fn error_of_a_violation_holds_its_message_and_place() {
    let violation = Violation { rule: Rule::DefaultGat, place: Place::DefaultValue, item: Some(3) };
    assert_eq!(
        Error::from_violation(violation),
        one_message("default GATs are not supported", Place::DefaultValue, Some(3))
    );
    assert_eq!(Violation::new(Rule::ExpectedAs, Place::QualifierEnd).in_item(7).item, Some(7));
}

#[test]
fn unwrap_puts_the_macro_name_before_every_message() {
    let error = Error {
        first: Diagnostic { message: "first".to_string(), place: Place::Mark(4), item: None },
        rest: vec![
            Diagnostic { message: "".to_string(), place: Place::CallSite, item: Some(1) },
            Diagnostic { message: "third".to_string(), place: Place::Param { param: 2 }, item: None },
        ],
    };
    let expected = Error {
        first: Diagnostic { message: "`m!`: first".to_string(), place: Place::Mark(4), item: None },
        rest: vec![
            Diagnostic { message: "`m!`: ".to_string(), place: Place::CallSite, item: Some(1) },
            Diagnostic { message: "`m!`: third".to_string(), place: Place::Param { param: 2 }, item: None },
        ],
    };
    assert_eq!(unwrap::<u8>("m!", Err(error)), Err(expected));
}

#[test]
fn unwrap_hands_a_success_on() {
    assert_eq!(unwrap("m!", Ok(7u8)), Ok(7u8));
}

#[test]
fn drain_filter_parts_a_vector_in_order() {
    let mut numbers = vec![1, 2, 3, 4, 5, 6, 8, 7];
    let even = numbers.drain_filter(|n: &i32| *n % 2 == 0);
    assert_eq!(even, vec![2, 4, 6, 8]);
    assert_eq!(numbers, vec![1, 3, 5, 7]);
    let none = numbers.drain_filter(|n: &i32| *n % 2 == 0);
    assert_eq!(none, Vec::<i32>::new());
    assert_eq!(numbers, vec![1, 3, 5, 7]);
    let all = numbers.drain_filter(|_: &i32| true);
    assert_eq!(all, vec![1, 3, 5, 7]);
    assert_eq!(numbers, Vec::<i32>::new());
    let mut empty: Vec<String> = vec![];
    assert_eq!(empty.drain_filter(|_: &String| true), Vec::<String>::new());
}
