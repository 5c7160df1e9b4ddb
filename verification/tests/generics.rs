use nougat::error::Place;
use nougat::error::Rule;
use nougat::error::Violation;
use nougat::gat_attr::LGat;
use nougat::item::ConstParam;
use nougat::item::GenericParam;
use nougat::item::Generics;
use nougat::item::ImplItemType;
use nougat::item::PredicateType;
use nougat::item::TraitItemType;
use nougat::item::TypeParam;
use nougat::item::Visibility;
use nougat::item::WherePredicate;
use nougat::syntax::Lifetime;
use nougat::syntax::LifetimeDef;
use nougat::syntax::Path;
use nougat::syntax::PathArguments;
use nougat::syntax::PathSegment;
use nougat::syntax::TraitBound;
use nougat::syntax::Type;
use nougat::syntax::TypeParamBound;
use nougat::syntax::TypePath;

fn ty(name: &str) -> Type {
    Type::Path(TypePath {
        qself: None,
        path: Path {
            leading_colon: false,
            segments: vec![PathSegment { ident: name.to_string(), arguments: PathArguments::Absent }],
        },
    })
}

fn lifetime(name: &str) -> Lifetime {
    Lifetime { ident: name.to_string() }
}

fn declares(name: &str) -> GenericParam {
    GenericParam::Lifetime(LifetimeDef { attrs: vec![], lifetime: lifetime(name), bounds: vec![] })
}

fn outlives(bounded: &str, lifetimes: &[&str]) -> WherePredicate {
    WherePredicate::Type(PredicateType {
        lifetimes: None,
        bounded_ty: ty(bounded),
        bounds: lifetimes.iter().map(|l| TypeParamBound::Lifetime(lifetime(l))).collect(),
    })
}

fn trait_bound(name: &str) -> TypeParamBound {
    TypeParamBound::Trait(TraitBound {
        paren_token: false,
        maybe: false,
        lifetimes: None,
        path: Path {
            leading_colon: false,
            segments: vec![PathSegment { ident: name.to_string(), arguments: PathArguments::Absent }],
        },
    })
}

fn refused(rule: Rule, place: Place) -> Violation {
    Violation { rule, place, item: None }
}

#[test]
fn lifetimes_and_their_relations_are_read() {
    // <'a, 'b> where Self: 'a, T: 'b + 'a
    let generics = Generics {
        params: vec![declares("a"), declares("b")],
        where_clause: Some(vec![outlives("Self", &["a"]), outlives("T", &["b", "a"])]),
    };
    assert_eq!(
        LGat::parse_generics(generics),
        Ok((
            vec![lifetime("a"), lifetime("b")],
            vec![
                (lifetime("a"), Some(ty("Self"))),
                (lifetime("b"), Some(ty("T"))),
                (lifetime("a"), Some(ty("T"))),
            ]
        ))
    );
}

#[test]
fn generics_without_where_clause() {
    let generics = Generics { params: vec![declares("a")], where_clause: None };
    assert_eq!(LGat::parse_generics(generics), Ok((vec![lifetime("a")], vec![])));
    let generics = Generics { params: vec![], where_clause: Some(vec![]) };
    assert_eq!(LGat::parse_generics(generics), Ok((vec![], vec![])));
}

#[test]
fn type_parameter_is_refused_at_that_parameter() {
    let generics = Generics {
        params: vec![
            declares("a"),
            GenericParam::Type(TypeParam {
                attrs: vec![],
                ident: "T".to_string(),
                colon_token: false,
                bounds: vec![],
                default: None,
            }),
        ],
        where_clause: None,
    };
    let violation = LGat::parse_generics(generics).unwrap_err();
    assert_eq!(violation, refused(Rule::NonLifetimeGat, Place::Param { param: 1 }));
    assert_eq!(violation.rule.message(), "non-lifetime GATs are not supported");
}

#[test]
fn const_parameter_is_refused() {
    let generics = Generics {
        params: vec![GenericParam::Const(ConstParam {
            attrs: vec![],
            ident: "N".to_string(),
            ty: ty("usize"),
            default: None,
        })],
        where_clause: None,
    };
    assert_eq!(LGat::parse_generics(generics), Err(refused(Rule::NonLifetimeGat, Place::Param { param: 0 })));
}

#[test]
fn attribute_on_a_lifetime_is_refused() {
    let generics = Generics {
        params: vec![GenericParam::Lifetime(LifetimeDef {
            attrs: vec!["#[cfg(any())]".to_string()],
            lifetime: lifetime("a"),
            bounds: vec![lifetime("b")],
        })],
        where_clause: None,
    };
    let violation = LGat::parse_generics(generics).unwrap_err();
    assert_eq!(violation, refused(Rule::Unsupported, Place::ParamAttr { param: 0 }));
    assert_eq!(violation.rule.message(), "unsupported");
}

#[test]
fn bound_on_a_lifetime_is_refused() {
    let generics = Generics {
        params: vec![
            declares("a"),
            declares("b"),
            GenericParam::Lifetime(LifetimeDef { attrs: vec![], lifetime: lifetime("c"), bounds: vec![lifetime("a")] }),
        ],
        where_clause: None,
    };
    assert_eq!(LGat::parse_generics(generics), Err(refused(Rule::Unsupported, Place::ParamBound { param: 2 })));
}

#[test]
fn higher_ranked_predicate_is_refused() {
    let generics = Generics {
        params: vec![declares("a")],
        where_clause: Some(vec![
            outlives("Self", &["a"]),
            WherePredicate::Type(PredicateType {
                lifetimes: Some(vec![LifetimeDef { attrs: vec![], lifetime: lifetime("x"), bounds: vec![] }]),
                bounded_ty: ty("T"),
                bounds: vec![TypeParamBound::Lifetime(lifetime("a"))],
            }),
        ]),
    };
    let violation = LGat::parse_generics(generics).unwrap_err();
    assert_eq!(violation, refused(Rule::HigherOrderLifetime, Place::PredicateFor { predicate: 1 }));
    assert_eq!(violation.rule.message(), "higher-order lifetimes are not supported");
}

#[test]
fn empty_for_is_accepted() {
    let generics = Generics {
        params: vec![declares("a")],
        where_clause: Some(vec![WherePredicate::Type(PredicateType {
            lifetimes: Some(vec![]),
            bounded_ty: ty("T"),
            bounds: vec![TypeParamBound::Lifetime(lifetime("a"))],
        })]),
    };
    assert_eq!(LGat::parse_generics(generics), Ok((vec![lifetime("a")], vec![(lifetime("a"), Some(ty("T")))])));
}

#[test]
fn trait_bound_in_where_clause_is_refused() {
    let generics = Generics {
        params: vec![declares("a")],
        where_clause: Some(vec![WherePredicate::Type(PredicateType {
            lifetimes: None,
            bounded_ty: ty("Self"),
            bounds: vec![TypeParamBound::Lifetime(lifetime("a")), trait_bound("Sized")],
        })]),
    };
    assert_eq!(
        LGat::parse_generics(generics),
        Err(refused(Rule::Unsupported, Place::PredicateBound { predicate: 0, bound: 1 }))
    );
}

#[test]
fn undeclared_lifetime_is_refused() {
    let generics = Generics {
        params: vec![declares("a")],
        where_clause: Some(vec![outlives("Self", &["a"]), outlives("Self", &["a", "a", "z"])]),
    };
    let violation = LGat::parse_generics(generics).unwrap_err();
    assert_eq!(violation, refused(Rule::ExpectedGatLifetime, Place::PredicateBound { predicate: 1, bound: 2 }));
    assert_eq!(violation.rule.message(), "expected a GAT-generic lifetime");
}

#[test]
fn predicate_on_a_lifetime_is_refused() {
    let generics = Generics {
        params: vec![declares("a"), declares("b")],
        where_clause: Some(vec![WherePredicate::Lifetime { lifetime: lifetime("a"), bounds: vec![lifetime("b")] }]),
    };
    let violation = LGat::parse_generics(generics).unwrap_err();
    assert_eq!(violation, refused(Rule::UnsupportedWherePredicate, Place::Predicate { predicate: 0 }));
    assert_eq!(violation.rule.message(), "unsupported `where predicate`");
    let generics = Generics {
        params: vec![declares("a")],
        where_clause: Some(vec![WherePredicate::Eq { lhs_ty: ty("A"), rhs_ty: ty("B") }]),
    };
    assert_eq!(
        LGat::parse_generics(generics),
        Err(refused(Rule::UnsupportedWherePredicate, Place::Predicate { predicate: 0 }))
    );
}

#[test]
fn violations_of_parameters_come_first() {
    let generics = Generics {
        params: vec![
            declares("a"),
            GenericParam::Type(TypeParam {
                attrs: vec![],
                ident: "T".to_string(),
                colon_token: false,
                bounds: vec![],
                default: None,
            }),
            GenericParam::Lifetime(LifetimeDef { attrs: vec![], lifetime: lifetime("c"), bounds: vec![lifetime("a")] }),
        ],
        where_clause: Some(vec![outlives("Self", &["z"])]),
    };
    assert_eq!(LGat::parse_generics(generics), Err(refused(Rule::NonLifetimeGat, Place::Param { param: 1 })));
}

fn assoc_of_trait() -> TraitItemType {
    TraitItemType {
        attrs: vec!["#[doc = \"item\"]".to_string()],
        ident: "Item".to_string(),
        generics: Generics { params: vec![declares("n")], where_clause: Some(vec![outlives("Self", &["n"])]) },
        colon_token: true,
        bounds: vec![trait_bound("Sized")],
        default: None,
    }
}

#[test]
fn associated_type_of_a_trait() {
    assert_eq!(
        LGat::from_trait_def(assoc_of_trait()),
        Ok(LGat {
            attrs: vec!["#[doc = \"item\"]".to_string()],
            ident: "Item".to_string(),
            bounds: vec![trait_bound("Sized")],
            generic_lifetimes: vec![lifetime("n")],
            super_types: vec![(lifetime("n"), Some(ty("Self")))],
            value: None,
        })
    );
}

#[test]
fn default_of_an_associated_type_is_refused() {
    let mut assoc = assoc_of_trait();
    assoc.default = Some(ty("u8"));
    let violation = LGat::from_trait_def(assoc).unwrap_err();
    assert_eq!(violation, refused(Rule::DefaultGat, Place::DefaultValue));
    assert_eq!(violation.rule.message(), "default GATs are not supported");
}

#[test]
fn generics_are_judged_before_the_default() {
    let mut assoc = assoc_of_trait();
    assoc.default = Some(ty("u8"));
    assoc.generics.where_clause = Some(vec![outlives("Self", &["z"])]);
    assert_eq!(
        LGat::from_trait_def(assoc),
        Err(refused(Rule::ExpectedGatLifetime, Place::PredicateBound { predicate: 0, bound: 0 }))
    );
}

fn assoc_of_impl() -> ImplItemType {
    ImplItemType {
        attrs: vec![],
        vis: Visibility::Inherited,
        defaultness: false,
        ident: "Item".to_string(),
        generics: Generics { params: vec![declares("n")], where_clause: Some(vec![outlives("Self", &["n"])]) },
        ty: Type::Reference { lifetime: Some(lifetime("n")), mutable: true, elem: Box::new(ty("Self")) },
    }
}

#[test]
fn associated_type_of_an_impl() {
    assert_eq!(
        LGat::from_trait_impl(assoc_of_impl()),
        Ok(LGat {
            attrs: vec![],
            ident: "Item".to_string(),
            bounds: vec![],
            generic_lifetimes: vec![lifetime("n")],
            super_types: vec![(lifetime("n"), Some(ty("Self")))],
            value: Some(Type::Reference { lifetime: Some(lifetime("n")), mutable: true, elem: Box::new(ty("Self")) }),
        })
    );
}

#[test]
fn visibility_on_an_associated_type_is_refused() {
    let mut assoc = assoc_of_impl();
    assoc.vis = Visibility::Explicit("pub".to_string());
    assoc.defaultness = true;
    let violation = LGat::from_trait_impl(assoc).unwrap_err();
    assert_eq!(violation, refused(Rule::NotSupported, Place::Visibility));
    assert_eq!(violation.rule.message(), "not supported");
}

#[test]
fn default_on_an_associated_type_is_refused() {
    let mut assoc = assoc_of_impl();
    assoc.defaultness = true;
    assoc.generics.params.push(GenericParam::Type(TypeParam {
        attrs: vec![],
        ident: "T".to_string(),
        colon_token: false,
        bounds: vec![],
        default: None,
    }));
    assert_eq!(LGat::from_trait_impl(assoc), Err(refused(Rule::NotSupported, Place::Defaultness)));
}

#[test]
fn generics_of_an_associated_type_of_an_impl_are_judged() {
    let mut assoc = assoc_of_impl();
    assoc.generics.params.push(GenericParam::Type(TypeParam {
        attrs: vec![],
        ident: "T".to_string(),
        colon_token: false,
        bounds: vec![],
        default: None,
    }));
    assert_eq!(LGat::from_trait_impl(assoc), Err(refused(Rule::NonLifetimeGat, Place::Param { param: 1 })));
}
