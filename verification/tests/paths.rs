use nougat::error::Place;
use nougat::error::Rule;
use nougat::error::Violation;
use nougat::gat_bang::combine_trait_name_and_assoc_type;
use nougat::gat_bang::rewrite_qualified_path;
use nougat::syntax::GenericArgument;
use nougat::syntax::Lifetime;
use nougat::syntax::Path;
use nougat::syntax::PathArguments;
use nougat::syntax::PathSegment;
use nougat::syntax::QSelf;
use nougat::syntax::Type;
use nougat::syntax::TypePath;

fn plain(name: &str) -> PathSegment {
    PathSegment { ident: name.to_string(), arguments: PathArguments::Absent }
}

fn angle(name: &str, args: Vec<GenericArgument>) -> PathSegment {
    PathSegment {
        ident: name.to_string(),
        arguments: PathArguments::AngleBracketed { colon2_token: false, args },
    }
}

fn ty(name: &str) -> Type {
    Type::Path(TypePath { qself: None, path: Path { leading_colon: false, segments: vec![plain(name)] } })
}

fn lt(name: &str) -> GenericArgument {
    GenericArgument::Lifetime(Lifetime { ident: name.to_string() })
}

fn qualified(self_ty: &str, position: usize, segments: Vec<PathSegment>) -> TypePath {
    TypePath {
        qself: Some(QSelf { ty: Box::new(ty(self_ty)), position, as_token: true }),
        path: Path { leading_colon: false, segments },
    }
}

#[test]
fn combined_name_has_two_underscores() {
    assert_eq!(combine_trait_name_and_assoc_type("LendingIterator", "Item"), "LendingIterator__Item");
    assert_eq!(combine_trait_name_and_assoc_type("", ""), "__");
}

#[test]
fn qualified_path_goes_through_the_auxiliary_trait() {
    // <I as LendingIterator>::Item<'a>
    let input = qualified("I", 1, vec![plain("LendingIterator"), angle("Item", vec![lt("a")])]);
    // <I as LendingIterator__Item<'a>>::T
    let expected = qualified("I", 1, vec![angle("LendingIterator__Item", vec![lt("a")]), plain("T")]);
    assert_eq!(rewrite_qualified_path(&input), Ok(expected));
}

#[test]
fn trait_arguments_come_before_the_lifetimes() {
    // <Ty as path::to::Trait<'x, G>>::Assoc<'a, 'b>
    let input = qualified(
        "Ty",
        3,
        vec![
            plain("path"),
            plain("to"),
            angle("Trait", vec![lt("x"), GenericArgument::Type(ty("G"))]),
            angle("Assoc", vec![lt("a"), lt("b")]),
        ],
    );
    let expected = qualified(
        "Ty",
        3,
        vec![
            plain("path"),
            plain("to"),
            angle("Trait__Assoc", vec![lt("x"), GenericArgument::Type(ty("G")), lt("a"), lt("b")]),
            plain("T"),
        ],
    );
    assert_eq!(rewrite_qualified_path(&input), Ok(expected));
}

#[test]
fn path_without_qualifier_is_refused() {
    let input = TypePath {
        qself: None,
        path: Path { leading_colon: false, segments: vec![plain("I"), angle("Item", vec![lt("a")])] },
    };
    assert_eq!(
        rewrite_qualified_path(&input),
        Err(Violation { rule: Rule::ExpectedQualifier, place: Place::FirstSegment, item: None })
    );
}

#[test]
fn qualifier_without_as_is_refused() {
    let input = TypePath {
        qself: Some(QSelf { ty: Box::new(ty("I")), position: 0, as_token: false }),
        path: Path { leading_colon: false, segments: vec![angle("Item", vec![lt("a")])] },
    };
    assert_eq!(
        rewrite_qualified_path(&input),
        Err(Violation { rule: Rule::ExpectedAs, place: Place::QualifierEnd, item: None })
    );
}

#[test]
fn nested_associated_path_is_refused() {
    let input =
        qualified("I", 1, vec![plain("LendingIterator"), angle("Item", vec![lt("a")]), plain("Other")]);
    assert_eq!(
        rewrite_qualified_path(&input),
        Err(Violation { rule: Rule::NestedAssociatedPath, place: Place::AfterAssociated, item: None })
    );
}

#[test]
fn missing_lifetime_generics_are_refused() {
    let input = qualified("I", 1, vec![plain("LendingIterator"), plain("Item")]);
    assert_eq!(
        rewrite_qualified_path(&input),
        Err(Violation { rule: Rule::MissingLifetimeGenerics, place: Place::AssociatedName, item: None })
    );
}

#[test]
fn round_brackets_are_refused() {
    let paren = |name: &str| PathSegment {
        ident: name.to_string(),
        arguments: PathArguments::Parenthesized { inputs: vec![ty("A")], output: None },
    };
    let input = qualified("I", 1, vec![plain("LendingIterator"), paren("Item")]);
    assert_eq!(
        rewrite_qualified_path(&input),
        Err(Violation { rule: Rule::ExpectedAngleBrackets, place: Place::AssociatedArguments, item: None })
    );
    let input = qualified("I", 1, vec![paren("Fn"), angle("Item", vec![lt("a")])]);
    assert_eq!(
        rewrite_qualified_path(&input),
        Err(Violation { rule: Rule::ExpectedAngleBrackets, place: Place::TraitArguments, item: None })
    );
}

#[test]
fn qualifier_out_of_the_path_is_refused() {
    let input = qualified("I", 0, vec![angle("Item", vec![lt("a")])]);
    assert_eq!(
        rewrite_qualified_path(&input),
        Err(Violation { rule: Rule::ExpectedQualifiedPath, place: Place::CallSite, item: None })
    );
    let input = qualified("I", 2, vec![plain("LendingIterator"), angle("Item", vec![lt("a")])]);
    assert_eq!(
        rewrite_qualified_path(&input),
        Err(Violation { rule: Rule::ExpectedQualifiedPath, place: Place::CallSite, item: None })
    );
}
