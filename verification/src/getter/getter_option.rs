//! Contain the option container [`GetterOption`]: what the attributes of one
//! field resolve to.

use vstd::prelude::*;

use super::error::{
    GetterParseError, OptionParseError, OptionParseErrorView, OptionValidationError,
};
use super::field::{Field, FieldInformation, FieldInformationView, FieldView};
use super::host::{arguments_result_view, parse_arguments};
use super::option::{
    accumulate, accumulate_view, AccessorCode, ArgumentOutcome, ImmutableGetterOption,
    ImmutableGetterOptionView, MutableGetterOption, MutableGetterOptionView,
};
use super::syntax::{Annotation, AnnotationPath, AnnotationPathView, AnnotationView};
use super::which_getter::{codes_view, WhichGetter, WhichGetterView};

verus! {

/// Whether an attribute of this name selects the immutable getter.
pub open spec fn is_immutable_attribute(path: AnnotationPathView) -> bool {
    path.ident() == Some("get"@)
}

/// Whether an attribute of this name selects the mutable getter.
pub open spec fn is_mutable_attribute(path: AnnotationPathView) -> bool {
    path.ident() == Some("get_mut"@)
}

/// Whether an attribute of this name selects a getter.
pub open spec fn is_getter_attribute(path: AnnotationPathView) -> bool {
    is_immutable_attribute(path) || is_mutable_attribute(path)
}

/// What an optional selection holds.
pub open spec fn selection_view(out: Option<WhichGetter>) -> Option<WhichGetterView> {
    match out {
        Some(which) => Some(which@),
        None => None,
    }
}

/// What the result of resolving an attribute holds.
pub open spec fn step_view(result: Result<Option<WhichGetter>, OptionParseError>) -> Result<
    Option<WhichGetterView>,
    OptionParseErrorView,
> {
    match result {
        Ok(out) => Ok(selection_view(out)),
        Err(error) => Err(error@),
    }
}

/// The selection that an attribute adds to: the one that the earlier
/// attributes gave merged with the new one, the new one having priority.
pub open spec fn select(out: Option<WhichGetterView>, which: WhichGetterView) -> WhichGetterView {
    match out {
        Some(earlier) => earlier.merge(which),
        None => which,
    }
}

/// What the parser of the host language answered while one attribute was
/// resolved.
pub struct AttributeOutcome {
    /// what parsing the tokens between the parentheses of the attribute as
    /// arguments gave: the arguments, or the message of the error
    pub arguments: Result<Seq<AnnotationView>, Seq<char>>,
    /// the answers on each of these arguments
    pub nested: Seq<ArgumentOutcome>,
}

/// What an attribute of the shape `name(arguments)` whose name selects a
/// getter resolves to, given what parsing its arguments gave and what the
/// parser answered on each of them.
pub open spec fn list_attribute(
    out: Option<WhichGetterView>,
    path: AnnotationPathView,
    parsed: Result<Seq<AnnotationView>, Seq<char>>,
    nested: Seq<ArgumentOutcome>,
) -> Result<Option<WhichGetterView>, OptionParseErrorView> {
    match parsed {
        Err(message) => Err(OptionParseErrorView::ExprParseError(message)),
        Ok(args) => if is_immutable_attribute(path) {
            match accumulate::<ImmutableGetterOption>(args, nested) {
                Ok(config) => Ok(Some(select(out, WhichGetterView::Immutable(config)))),
                Err(error) => Err(OptionParseErrorView::GetterParseError(error)),
            }
        } else if is_mutable_attribute(path) {
            match accumulate::<MutableGetterOption>(args, nested) {
                Ok(config) => Ok(Some(select(out, WhichGetterView::Mutable(config)))),
                Err(error) => Err(OptionParseErrorView::GetterParseError(error.widen())),
            }
        } else {
            Ok(out)
        },
    }
}

/// What one attribute resolves to, after the attributes before it gave
/// `out` and given what the parser answered: an attribute whose name selects
/// no getter leaves `out` as it is.
pub open spec fn attribute(
    out: Option<WhichGetterView>,
    attr: AnnotationView,
    outcome: AttributeOutcome,
) -> Result<Option<WhichGetterView>, OptionParseErrorView> {
    match attr {
        AnnotationView::List(list) => if is_getter_attribute(list.path) {
            list_attribute(out, list.path, outcome.arguments, outcome.nested)
        } else {
            Ok(out)
        },
        AnnotationView::Path(path) => if is_immutable_attribute(path) {
            Ok(
                Some(
                    select(out, WhichGetterView::Immutable(ImmutableGetterOptionView::initial())),
                ),
            )
        } else if is_mutable_attribute(path) {
            Ok(Some(select(out, WhichGetterView::Mutable(MutableGetterOptionView::initial()))))
        } else {
            Ok(out)
        },
        AnnotationView::NameValue(name_value) => if is_getter_attribute(name_value.path) {
            Err(OptionParseErrorView::NameValue)
        } else {
            Ok(out)
        },
    }
}

/// What the first `n` attributes resolve to, given what the parser answered
/// on each of them: the first error, or else the merge of what each gives.
pub open spec fn resolved(attrs: Seq<AnnotationView>, outcomes: Seq<AttributeOutcome>, n: int)
    -> Result<Option<WhichGetterView>, OptionParseErrorView>
    decreases n,
{
    if n <= 0 {
        Ok(None)
    } else {
        match resolved(attrs, outcomes, n - 1) {
            Ok(out) => attribute(out, attrs[n - 1], outcomes[n - 1]),
            Err(error) => Err(error),
        }
    }
}

/// What the first `n` attributes resolve to depends on the answers to these
/// attributes alone.
pub proof fn lemma_resolved_reads_the_first(
    attrs: Seq<AnnotationView>,
    first: Seq<AttributeOutcome>,
    second: Seq<AttributeOutcome>,
    n: int,
)
    requires
        forall|k: int| 0 <= k < n ==> first[k] == second[k],
    ensures
        resolved(attrs, first, n) == resolved(attrs, second, n),
    decreases n,
{
    if n > 0 {
        lemma_resolved_reads_the_first(attrs, first, second, n - 1);
        assert(first[n - 1] == second[n - 1]);
    }
}

/// An error among the first attributes is the error of every longer run of
/// attributes.
pub proof fn lemma_resolved_error_stays(
    attrs: Seq<AnnotationView>,
    outcomes: Seq<AttributeOutcome>,
    k: int,
    n: int,
)
    requires
        0 <= k <= n,
        resolved(attrs, outcomes, k) is Err,
    ensures
        resolved(attrs, outcomes, n) == resolved(attrs, outcomes, k),
    decreases n - k,
{
    if k < n {
        lemma_resolved_error_stays(attrs, outcomes, k, n - 1);
    }
}

/// Whether a selection is valid for a field: every selected getter has a
/// name, and the configurations are valid.
pub open spec fn validation(which: WhichGetterView, field: FieldInformationView) -> Result<
    (),
    OptionValidationError,
> {
    if !which.named(field) {
        Err(OptionValidationError::FunctionNameMissing)
    } else {
        which.validation()
    }
}

/// What a [`GetterOption`] holds.
pub struct GetterOptionView {
    /// The field information
    pub field: FieldInformationView,
    /// the attribute option
    pub which: WhichGetterView,
}

/// What the attributes of a field resolve to, given what the parser answered
/// on each of them: the first error among them; the error that none selects
/// a getter; the error that makes the selection invalid for the field; or
/// else the selection.
pub open spec fn resolution(field: FieldView, outcomes: Seq<AttributeOutcome>) -> Result<
    GetterOptionView,
    OptionParseErrorView,
> {
    match resolved(field.field.attrs, outcomes, field.field.attrs.len() as int) {
        Err(error) => Err(error),
        Ok(None) => Err(OptionParseErrorView::NotFound),
        Ok(Some(which)) => match validation(which, FieldInformationView::of_field(field)) {
            Err(error) => Err(OptionParseErrorView::OptionValidationError(error)),
            Ok(()) => Ok(GetterOptionView { field: FieldInformationView::of_field(field), which }),
        },
    }
}

/// What the result of a resolution holds.
pub open spec fn resolution_view(result: Result<GetterOption, OptionParseError>) -> Result<
    GetterOptionView,
    OptionParseErrorView,
> {
    match result {
        Ok(option) => Ok(option@),
        Err(error) => Err(error@),
    }
}

/// the getter option
#[derive(Debug, PartialEq, Eq)]
pub struct GetterOption {
    /// The field information
    field: FieldInformation,
    /// the attribute option
    which: WhichGetter,
}

impl View for GetterOption {
    type V = GetterOptionView;

    closed spec fn view(&self) -> GetterOptionView {
        GetterOptionView { field: self.field@, which: self.which@ }
    }
}

/// merge a configuration with an option of a which getter
fn add_option_config(out: Option<WhichGetter>, which: WhichGetter) -> (r: WhichGetter)
    ensures
        r@ == select(selection_view(out), which@),
{
    match out {
        Some(s) => s.add_config(which),
        None => which,
    }
}

impl Clone for GetterOption {
    fn clone(&self) -> (r: Self)
        ensures
            r@ == self@,
    {
        proof {
            use_type_invariant(self);
        }
        GetterOption { field: self.field.clone(), which: self.which.clone() }
    }
}

impl GetterOption {
    /// The selection is valid for the field.
    #[verifier::type_invariant]
    spec fn valid(self) -> bool {
        validation(self.which@, self.field@) is Ok
    }

    /// wrap the enum value
    fn new(field: FieldInformation, which: WhichGetter) -> (r: Self)
        requires
            validation(which@, field@) is Ok,
        ensures
            r@ == (GetterOptionView { field: field@, which: which@ }),
    {
        Self { field, which }
    }

    /// Whether the name of an attribute is that of the immutable getter.
    pub fn is_immutable_path(path: &AnnotationPath) -> (r: bool)
        ensures
            r == is_immutable_attribute(path@),
    {
        path.is_ident("get")
    }

    /// Whether the name of an attribute is that of the mutable getter.
    pub fn is_mutable_path(path: &AnnotationPath) -> (r: bool)
        ensures
            r == is_mutable_attribute(path@),
    {
        path.is_ident("get_mut")
    }

    /// determine if the given path is a valid getter attribute
    pub fn is_valid_path_attribute(path: &AnnotationPath) -> (r: bool)
        ensures
            r == is_getter_attribute(path@),
    {
        Self::is_immutable_path(path) || Self::is_mutable_path(path)
    }

    /// What an attribute of the shape `name(arguments)` whose name selects a
    /// getter adds to the selection `out`, given what parsing its arguments
    /// gave. What is returned is what the attribute resolves to for some
    /// answers of the parser on the arguments.
    pub fn add_list_attribute(
        out: Option<WhichGetter>,
        path: &AnnotationPath,
        parsed: Result<Vec<Annotation>, String>,
    ) -> (r: Result<Option<WhichGetter>, OptionParseError>)
        ensures
            exists|nested: Seq<ArgumentOutcome>|
                step_view(r) == #[trigger] list_attribute(
                    selection_view(out),
                    path@,
                    arguments_result_view(parsed),
                    nested,
                ),
    {
        let ghost before = selection_view(out);
        let ghost given = arguments_result_view(parsed);
        let list = match parsed {
            Ok(list) => list,
            Err(message) => {
                let r = Err(OptionParseError::ExprParseError(message));
                assert(step_view(r) == list_attribute(before, path@, given, Seq::empty()));
                return r;
            },
        };
        if Self::is_immutable_path(path) {
            let config = ImmutableGetterOption::parse(list.as_slice());
            let ghost nested = choose|outcomes: Seq<ArgumentOutcome>|
                accumulate_view(config) == #[trigger] accumulate::<ImmutableGetterOption>(
                    given->Ok_0,
                    outcomes,
                );
            let r = match config {
                Ok(config) => Ok(Some(add_option_config(out, WhichGetter::Immutable(config)))),
                Err(error) => Err(OptionParseError::GetterParseError(error)),
            };
            assert(step_view(r) == list_attribute(before, path@, given, nested));
            r
        } else if Self::is_mutable_path(path) {
            let config = MutableGetterOption::parse(list.as_slice());
            let ghost nested = choose|outcomes: Seq<ArgumentOutcome>|
                accumulate_view(config) == #[trigger] accumulate::<MutableGetterOption>(
                    given->Ok_0,
                    outcomes,
                );
            let r = match config {
                Ok(config) => Ok(Some(add_option_config(out, WhichGetter::Mutable(config)))),
                Err(error) => Err(OptionParseError::GetterParseError(error.widen())),
            };
            assert(step_view(r) == list_attribute(before, path@, given, nested));
            r
        } else {
            assert(step_view(Ok(out)) == list_attribute(before, path@, given, Seq::empty()));
            Ok(out)
        }
    }

    /// What one attribute adds to the selection `out`. For an attribute
    /// of the shape `name(arguments)` whose name selects a getter the parser
    /// of the host language is asked for the arguments, and
    /// [`Self::add_list_attribute`] decides on its answer. For every other
    /// attribute what is returned does not depend on the parser.
    pub fn add_attribute(out: Option<WhichGetter>, attr: &Annotation) -> (r: Result<
        Option<WhichGetter>,
        OptionParseError,
    >)
        ensures
            exists|outcome: AttributeOutcome|
                step_view(r) == #[trigger] attribute(selection_view(out), attr@, outcome),
            !(attr@ is List && is_getter_attribute(attr@.path())) ==> forall|
                outcome: AttributeOutcome,
            |
                step_view(r) == #[trigger] attribute(selection_view(out), attr@, outcome),
    {
        let ghost before = selection_view(out);
        let ghost unasked = AttributeOutcome { arguments: Err(Seq::empty()), nested: Seq::empty() };
        match attr {
            Annotation::List(meta_list) => {
                if Self::is_valid_path_attribute(&meta_list.path) {
                    let parsed = parse_arguments(meta_list.tokens.as_str());
                    let r = Self::add_list_attribute(out, &meta_list.path, parsed);
                    proof {
                        let nested = choose|nested: Seq<ArgumentOutcome>|
                            step_view(r) == #[trigger] list_attribute(
                                before,
                                meta_list.path@,
                                arguments_result_view(parsed),
                                nested,
                            );
                        assert(step_view(r) == attribute(
                            before,
                            attr@,
                            AttributeOutcome { arguments: arguments_result_view(parsed), nested },
                        ));
                    }
                    r
                } else {
                    assert(step_view(Ok(out)) == attribute(before, attr@, unasked));
                    Ok(out)
                }
            },
            Annotation::Path(path) => {
                let r = if Self::is_immutable_path(path) {
                    Ok(
                        Some(
                            add_option_config(
                                out,
                                WhichGetter::Immutable(ImmutableGetterOption::default()),
                            ),
                        ),
                    )
                } else if Self::is_mutable_path(path) {
                    Ok(
                        Some(
                            add_option_config(
                                out,
                                WhichGetter::Mutable(MutableGetterOption::default()),
                            ),
                        ),
                    )
                } else {
                    Ok(out)
                };
                assert(step_view(r) == attribute(before, attr@, unasked));
                r
            },
            Annotation::NameValue(name_value) => {
                let r = if Self::is_valid_path_attribute(&name_value.path) {
                    Err(OptionParseError::NameValue)
                } else {
                    Ok(out)
                };
                assert(step_view(r) == attribute(before, attr@, unasked));
                r
            },
        }
    }

    /// Resolves the attributes of a field:
    /// - `#[get]` selects the immutable getter and `#[get_mut]` the mutable
    ///   one, each with every option at its default;
    /// - `#[get(...)]` and `#[get_mut(...)]` set options, as in
    ///   `#[get(pub)]` or `#[get(name = "...")]`;
    /// - of two attributes of one name, the latter has priority.
    ///
    /// What is returned is what the attributes resolve to for some answers
    /// of the parser of the host language, one for each attribute.
    pub fn parse(field: Field) -> (r: Result<Self, OptionParseError>)
        ensures
            exists|outcomes: Seq<AttributeOutcome>|
                resolution_view(r) == #[trigger] resolution(field@, outcomes),
    {
        let mut out: Option<WhichGetter> = None;
        let mut i: usize = 0;
        let ghost attrs = field@.field.attrs;
        let ghost mut outcomes: Seq<AttributeOutcome> = Seq::empty();
        while i < field.field.attrs.len()
            invariant
                0 <= i <= field.field.attrs@.len(),
                attrs == field@.field.attrs,
                attrs.len() == field.field.attrs@.len(),
                outcomes.len() == i,
                resolved(attrs, outcomes, i as int) == Ok::<
                    Option<WhichGetterView>,
                    OptionParseErrorView,
                >(selection_view(out)),
            decreases field.field.attrs@.len() - i,
        {
            let ghost before = selection_view(out);
            let ghost known = outcomes;
            assert(attrs[i as int] == field.field.attrs@[i as int]@);
            let step = Self::add_attribute(out, &field.field.attrs[i]);
            proof {
                let outcome = choose|outcome: AttributeOutcome|
                    step_view(step) == #[trigger] attribute(before, attrs[i as int], outcome);
                outcomes = known.push(outcome);
                lemma_resolved_reads_the_first(attrs, known, outcomes, i as int);
                assert(outcomes[i as int] == outcome);
                assert(resolved(attrs, outcomes, i as int + 1) == step_view(step));
            }
            match step {
                Ok(next) => {
                    out = next;
                },
                Err(error) => {
                    let r = Err(error);
                    proof {
                        lemma_resolved_error_stays(
                            attrs,
                            outcomes,
                            i as int + 1,
                            attrs.len() as int,
                        );
                        assert(resolution_view(r) == resolution(field@, outcomes));
                    }
                    return r;
                },
            }
            i += 1;
        }
        let which = match out {
            Some(which) => which,
            None => {
                let r = Err(OptionParseError::NotFound);
                assert(resolution_view(r) == resolution(field@, outcomes));
                return r;
            },
        };
        let ghost of_field = field@;
        let information = FieldInformation::from_field(field);
        let r = match Self::check(&information, &which) {
            Ok(()) => Ok(Self::new(information, which)),
            Err(error) => Err(OptionParseError::OptionValidationError(error)),
        };
        assert(resolution_view(r) == resolution(of_field, outcomes));
        r
    }

    /// Verify that a selection is valid for a field
    pub fn check(field: &FieldInformation, which: &WhichGetter) -> (r: Result<
        (),
        OptionValidationError,
    >)
        ensures
            r == validation(which@, field@),
    {
        match which {
            WhichGetter::Immutable(immutable) => {
                if immutable.option().name().name(field.field_name()).is_none() {
                    return Err(OptionValidationError::FunctionNameMissing);
                }
            },
            WhichGetter::Mutable(mutable) => {
                if mutable.name().name_mut(field.field_name()).is_none() {
                    return Err(OptionValidationError::FunctionNameMissing);
                }
            },
            WhichGetter::Both { immutable, mutable } => {
                if immutable.option().name().name(field.field_name()).is_none()
                    || mutable.name().name_mut(field.field_name()).is_none() {
                    return Err(OptionValidationError::FunctionNameMissing);
                }
            },
        }
        which.validate()
    }

    /// Verify that the option is valid
    pub fn validate(&self) -> (r: Result<(), OptionValidationError>)
        ensures
            r == validation(self@.which, self@.field),
            r is Ok,
    {
        proof {
            use_type_invariant(self);
        }
        Self::check(&self.field, &self.which)
    }

    /// getter on the field information
    pub fn field(&self) -> (r: &FieldInformation)
        ensures
            r@ == self@.field,
    {
        &self.field
    }

    /// getter on the selection of the getters
    pub fn which(&self) -> (r: &WhichGetter)
        ensures
            r@ == self@.which,
    {
        &self.which
    }

    /// The text of each getter of the field.
    pub fn to_code(&self) -> (r: Vec<AccessorCode>)
        ensures
            codes_view(r@) == self@.which.code(self@.field),
    {
        proof {
            use_type_invariant(self);
        }
        self.which.to_code(&self.field)
    }
}

} // verus!
