//! What a transformation refuses, and where in its input.
use vstd::prelude::*;

verus! {

/// The rule that a fragment broke.
#[derive(Clone, Copy, Debug, PartialEq, Eq)]
pub enum Rule {
    /// The path has no `<` in front.
    ExpectedQualifier,
    /// The qualifier holds a type but no `as Trait`.
    ExpectedAs,
    /// The qualifier names no trait, or nothing follows it.
    ExpectedQualifiedPath,
    /// More than one segment follows the qualifier.
    NestedAssociatedPath,
    /// The associated type has no generic arguments.
    MissingLifetimeGenerics,
    /// Arguments in round brackets stand where `<..>` must.
    ExpectedAngleBrackets,
    /// An attribute or a bound on a lifetime parameter, or a bound that is
    /// no lifetime in a `where` clause.
    Unsupported,
    /// A generic parameter of an associated type is no lifetime.
    NonLifetimeGat,
    /// A `where` predicate starts with `for<..>`.
    HigherOrderLifetime,
    /// A `where` clause bounds a type by a lifetime that the associated type
    /// does not declare.
    ExpectedGatLifetime,
    /// A `where` predicate that bounds no type.
    UnsupportedWherePredicate,
    /// An associated type of a trait has a default.
    DefaultGat,
    /// A negative impl, or a visibility or `default` on an associated type
    /// of an impl.
    NotSupported,
    /// An impl without `Trait for`.
    ExpectedTraitFor,
    /// The annotated item is no trait, impl or import.
    ExpectedTraitOrImpl,
    /// An import of more than one name, or of `*`.
    ExpectedSingleImport,
    /// The annotation of a trait or impl has an argument.
    UnexpectedToken,
}

/// A place in the fragment that was handed in. Indices count from zero.
#[derive(Clone, Copy, Debug, PartialEq, Eq)]
pub enum Place {
    /// The macro call as a whole.
    CallSite,
    /// A place that the caller knows by this number.
    Mark(usize),
    /// The first segment of a path.
    FirstSegment,
    /// The `>` that closes a qualifier.
    QualifierEnd,
    /// The `::` behind the segment that follows the qualifier.
    AfterAssociated,
    /// The name of the associated type in a path.
    AssociatedName,
    /// The arguments of the associated type in a path.
    AssociatedArguments,
    /// The arguments of the trait in a path.
    TraitArguments,
    /// A generic parameter of an associated type.
    Param { param: usize },
    /// The first attribute of a generic parameter.
    ParamAttr { param: usize },
    /// The first bound of a generic parameter.
    ParamBound { param: usize },
    /// A predicate of a `where` clause.
    Predicate { predicate: usize },
    /// The first lifetime that a predicate's `for<..>` binds.
    PredicateFor { predicate: usize },
    /// A bound of a predicate of a `where` clause.
    PredicateBound { predicate: usize, bound: usize },
    /// The `=` before the default of an associated type.
    DefaultValue,
    /// The visibility of an associated type.
    Visibility,
    /// The `default` in front of an associated type.
    Defaultness,
    /// The `!` of a negative impl.
    Negative,
    /// The type that an impl is for.
    SelfType,
    /// The first token of the argument of the annotation.
    Argument,
}

/// A broken rule, the place that broke it and, where that place lies in a
/// lifetime-generic associated type of a trait or impl, the index of that
/// associated type among those of the body: 0 for the first of them.
#[derive(Clone, Copy, Debug, PartialEq, Eq)]
pub struct Violation {
    pub rule: Rule,
    pub place: Place,
    pub item: Option<usize>,
}

/// One message of a failed expansion.
#[derive(Debug, PartialEq, Eq)]
pub struct Diagnostic {
    pub message: String,
    pub place: Place,
    pub item: Option<usize>,
}

pub struct DiagnosticView {
    pub message: Seq<char>,
    pub place: Place,
    pub item: Option<usize>,
}

/// The messages of a failed expansion: one at least.
#[derive(Debug, PartialEq, Eq)]
pub struct Error {
    pub first: Diagnostic,
    pub rest: Vec<Diagnostic>,
}

impl View for Diagnostic {
    type V = DiagnosticView;

    open spec fn view(&self) -> DiagnosticView {
        DiagnosticView { message: self.message@, place: self.place, item: self.item }
    }
}

impl View for Error {
    type V = Seq<DiagnosticView>;

    /// All messages, the first in front.
    open spec fn view(&self) -> Seq<DiagnosticView> {
        seq![self.first@] + self.rest@.map_values(|d: Diagnostic| d@)
    }
}

impl Rule {
    /// The text of the message for this rule.
    pub open spec fn text(self) -> Seq<char> {
        match self {
            Rule::ExpectedQualifier => "expected a qualifier"@,
            Rule::ExpectedAs => "expected `as`"@,
            Rule::ExpectedQualifiedPath => "expected `<Type as Trait>::Assoc<…>`"@,
            Rule::NestedAssociatedPath => "nested associated paths are not supported"@,
            Rule::MissingLifetimeGenerics => "missing lifetime generics"@,
            Rule::ExpectedAngleBrackets => "expected angle brackets"@,
            Rule::Unsupported => "unsupported"@,
            Rule::NonLifetimeGat => "non-lifetime GATs are not supported"@,
            Rule::HigherOrderLifetime => "higher-order lifetimes are not supported"@,
            Rule::ExpectedGatLifetime => "expected a GAT-generic lifetime"@,
            Rule::UnsupportedWherePredicate => "unsupported `where predicate`"@,
            Rule::DefaultGat => "default GATs are not supported"@,
            Rule::NotSupported => "not supported"@,
            Rule::ExpectedTraitFor => "expected `TraitName for`"@,
            Rule::ExpectedTraitOrImpl => "expected a `trait` or an `impl… Trait for`"@,
            Rule::ExpectedSingleImport =>
                "expected a single item in this import, e.g.\n`use path::to::Trait`, or `use path::to::Trait as Renamed`"@,
            Rule::UnexpectedToken => "unexpected token"@,
        }
    }

    /// The text of the message for this rule.
    pub fn message(&self) -> (r: String)
        ensures
            r@ == self.text(),
    {
        match self {
            Rule::ExpectedQualifier => "expected a qualifier".to_owned(),
            Rule::ExpectedAs => "expected `as`".to_owned(),
            Rule::ExpectedQualifiedPath => "expected `<Type as Trait>::Assoc<…>`".to_owned(),
            Rule::NestedAssociatedPath => "nested associated paths are not supported".to_owned(),
            Rule::MissingLifetimeGenerics => "missing lifetime generics".to_owned(),
            Rule::ExpectedAngleBrackets => "expected angle brackets".to_owned(),
            Rule::Unsupported => "unsupported".to_owned(),
            Rule::NonLifetimeGat => "non-lifetime GATs are not supported".to_owned(),
            Rule::HigherOrderLifetime => "higher-order lifetimes are not supported".to_owned(),
            Rule::ExpectedGatLifetime => "expected a GAT-generic lifetime".to_owned(),
            Rule::UnsupportedWherePredicate => "unsupported `where predicate`".to_owned(),
            Rule::DefaultGat => "default GATs are not supported".to_owned(),
            Rule::NotSupported => "not supported".to_owned(),
            Rule::ExpectedTraitFor => "expected `TraitName for`".to_owned(),
            Rule::ExpectedTraitOrImpl => "expected a `trait` or an `impl… Trait for`".to_owned(),
            Rule::ExpectedSingleImport =>
                "expected a single item in this import, e.g.\n`use path::to::Trait`, or `use path::to::Trait as Renamed`".to_owned(),
            Rule::UnexpectedToken => "unexpected token".to_owned(),
        }
    }
}

impl Violation {
    /// A violation that lies in no associated type.
    pub open spec fn at(rule: Rule, place: Place) -> Violation {
        Violation { rule, place, item: None }
    }

    /// A violation that lies in no associated type.
    pub fn new(rule: Rule, place: Place) -> (r: Violation)
        ensures
            r == Violation::at(rule, place),
    {
        Violation { rule, place, item: None }
    }

    /// The same violation, found in the associated type at `item`.
    pub open spec fn within(self, item: usize) -> Violation {
        Violation { rule: self.rule, place: self.place, item: Some(item) }
    }

    /// The same violation, found in the associated type at `item`.
    pub fn in_item(self, item: usize) -> (r: Violation)
        ensures
            r == self.within(item),
    {
        Violation { rule: self.rule, place: self.place, item: Some(item) }
    }

    /// The message that reports this violation.
    pub open spec fn diagnostic(self) -> DiagnosticView {
        DiagnosticView { message: self.rule.text(), place: self.place, item: self.item }
    }
}

impl Error {
    /// The error that holds the one message of `violation`.
    pub fn from_violation(violation: Violation) -> (r: Error)
        ensures
            r@ == seq![violation.diagnostic()],
    {
        let r = Error {
            first: Diagnostic { message: violation.rule.message(), place: violation.place, item: violation.item },
            rest: Vec::new(),
        };
        assert(r@ =~= seq![violation.diagnostic()]);
        r
    }
}

} // verus!
