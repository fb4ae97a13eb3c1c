//! Contain the configuration of the mutable getter, [`MutableGetterOption`],
//! and of the immutable getter, [`ImmutableGetterOption`], and how each is
//! accumulated from the arguments of one attribute.

use vstd::prelude::*;
use vstd::string::*;

use super::attribute_option::{parse_view, resolve, ParseOption};
use super::const_ty::ConstTy;
use super::error::{
    AddConfigError, AddConfigErrorView, GetterParseError, GetterParseErrorView,
    OptionValidationError, ParseAttributeOptionError, ParseAttributeOptionErrorView,
};
use super::field::{FieldInformation, FieldInformationView};
use super::getter_ty::GetterTy;
use super::host::Outcome;
use super::name::{getter_name, getter_name_mut, FunctionName};
use super::option_enum::{ImmutableOptionList, MutableOptionList, OptionList};
use super::self_ty::SelfTy;
use super::syntax::{annotations_view, Annotation, AnnotationView};
use super::visibility::{Visibility, VisibilityView};

verus! {

/// What the parser of the host language answered while the options were
/// tried on one argument, one answer for each option.
pub struct ArgumentOutcome {
    /// the answers while the visibility was tried
    pub visibility: Outcome,
    /// the answers while the name was tried
    pub name: Outcome,
    /// the answers while the constness was tried
    pub const_ty: Outcome,
    /// the answers while the way that the field is returned was tried
    pub ty: Outcome,
    /// the answers while the way that `self` is taken was tried
    pub self_ty: Outcome,
}

/// What the result of offering one argument holds, together with the
/// configuration after it.
pub open spec fn add_view<O: OptionList, V>(result: Result<O, AddConfigError<O>>, after: V)
    -> Result<(O, V), AddConfigErrorView<O>> {
    match result {
        Ok(aspect) => Ok((aspect, after)),
        Err(error) => Err(error@),
    }
}

/// A configuration that is accumulated from annotation arguments, one at a
/// time.
pub trait ParseGetterOption: Sized + View {
    /// The list of option, see [`OptionList`].
    type Option: OptionList;

    /// The configuration in which every option has its default.
    spec fn initial() -> Self::V;

    /// What offering one argument to a configuration gives, given what the
    /// parser answered: the option that the argument sets and the
    /// configuration with that option set, or why the argument sets none.
    spec fn add(config: Self::V, option: AnnotationView, outcome: ArgumentOutcome) -> Result<
        (Self::Option, Self::V),
        AddConfigErrorView<Self::Option>,
    >;

    /// The configuration in which every option has its default.
    fn fresh() -> (r: Self)
        ensures
            r@ == Self::initial(),
    ;

    /// try to add a option from an argument. Returns the option that was
    /// set; on an error the configuration is left as it was. What is
    /// returned is what the argument gives for some answers of the parser.
    fn add_config(&mut self, option: &Annotation) -> (r: Result<
        Self::Option,
        AddConfigError<Self::Option>,
    >)
        ensures
            exists|outcome: ArgumentOutcome| #[trigger]
                Self::add(old(self)@, option@, outcome) == add_view::<Self::Option, Self::V>(
                    r,
                    final(self)@,
                ),
            r is Err ==> final(self)@ == old(self)@,
    ;
}

/// The configuration and the options that were set after the first `n`
/// arguments, given what the parser answered on each of them: the first
/// unacceptable error or option set twice, or else the configuration with
/// each option that an argument sets.
pub open spec fn accumulated<T: ParseGetterOption>(
    args: Seq<AnnotationView>,
    outcomes: Seq<ArgumentOutcome>,
    n: int,
) -> Result<(T::V, Set<T::Option>), GetterParseErrorView<T::Option>>
    decreases n,
{
    if n <= 0 {
        Ok((T::initial(), Set::empty()))
    } else {
        match accumulated::<T>(args, outcomes, n - 1) {
            Err(error) => Err(error),
            Ok((config, seen)) => match T::add(config, args[n - 1], outcomes[n - 1]) {
                Ok((aspect, next)) => if seen.contains(aspect) {
                    Err(GetterParseErrorView::FieldAttributeOptionSetMultipleTimes(aspect))
                } else {
                    Ok((next, seen.insert(aspect)))
                },
                Err(AddConfigErrorView::Acceptable(_)) => Ok((config, seen)),
                Err(AddConfigErrorView::Unacceptable(error, aspect)) => Err(
                    GetterParseErrorView::AddConfigError(error, aspect),
                ),
            },
        }
    }
}

/// What accumulating the arguments of one attribute gives, given what the
/// parser answered on each of them.
pub open spec fn accumulate<T: ParseGetterOption>(
    args: Seq<AnnotationView>,
    outcomes: Seq<ArgumentOutcome>,
) -> Result<T::V, GetterParseErrorView<T::Option>> {
    match accumulated::<T>(args, outcomes, args.len() as int) {
        Ok((config, _)) => Ok(config),
        Err(error) => Err(error),
    }
}

/// What the result of an accumulation holds.
pub open spec fn accumulate_view<T: ParseGetterOption>(
    result: Result<T, GetterParseError<T::Option>>,
) -> Result<T::V, GetterParseErrorView<T::Option>> {
    match result {
        Ok(config) => Ok(config@),
        Err(error) => Err(error@),
    }
}

/// What the first `n` arguments accumulate to depends on the answers to
/// these arguments alone.
pub proof fn lemma_accumulated_reads_the_first<T: ParseGetterOption>(
    args: Seq<AnnotationView>,
    first: Seq<ArgumentOutcome>,
    second: Seq<ArgumentOutcome>,
    n: int,
)
    requires
        forall|k: int| 0 <= k < n ==> first[k] == second[k],
    ensures
        accumulated::<T>(args, first, n) == accumulated::<T>(args, second, n),
    decreases n,
{
    if n > 0 {
        lemma_accumulated_reads_the_first::<T>(args, first, second, n - 1);
        assert(first[n - 1] == second[n - 1]);
    }
}

/// An error among the first arguments is the error of every longer run of
/// arguments.
pub proof fn lemma_accumulated_error_stays<T: ParseGetterOption>(
    args: Seq<AnnotationView>,
    outcomes: Seq<ArgumentOutcome>,
    k: int,
    n: int,
)
    requires
        0 <= k <= n,
        accumulated::<T>(args, outcomes, k) is Err,
    ensures
        accumulated::<T>(args, outcomes, n) == accumulated::<T>(args, outcomes, k),
    decreases n - k,
{
    if k < n {
        lemma_accumulated_error_stays::<T>(args, outcomes, k, n - 1);
    }
}

/// Whether an option is among those that were set already. The options are
/// kept in a vector in which none occurs twice: of a hash set keyed by an
/// enum with a derived hash nothing can be proved.
fn contains<O: OptionList>(seen: &Vec<O>, option: &O) -> (r: bool)
    ensures
        r == seen@.to_set().contains(*option),
{
    let mut i: usize = 0;
    while i < seen.len()
        invariant
            0 <= i <= seen@.len(),
            forall|k: int| 0 <= k < i ==> seen@[k] != *option,
        decreases seen@.len() - i,
    {
        if seen[i].same(option) {
            assert(seen@.contains(*option));
            return true;
        }
        i += 1;
    }
    assert(!seen@.contains(*option));
    false
}

/// Try to parse the arguments of one attribute into a configuration. What
/// is returned is what the arguments accumulate to for some answers of the
/// parser, one for each argument.
pub fn parse<T: ParseGetterOption>(tokens: &[Annotation]) -> (r: Result<
    T,
    GetterParseError<T::Option>,
>)
    ensures
        exists|outcomes: Seq<ArgumentOutcome>| accumulate_view(r) == #[trigger] accumulate::<T>(
            annotations_view(tokens@),
            outcomes,
        ),
{
    let ghost args = annotations_view(tokens@);
    let ghost mut outcomes: Seq<ArgumentOutcome> = Seq::empty();
    let mut seen: Vec<T::Option> = Vec::new();
    let mut s = T::fresh();
    let mut i: usize = 0;
    assert(seen@.to_set() =~= Set::<T::Option>::empty());
    while i < tokens.len()
        invariant
            0 <= i <= tokens@.len(),
            args == annotations_view(tokens@),
            outcomes.len() == i,
            seen@.no_duplicates(),
            accumulated::<T>(args, outcomes, i as int) == Ok::<
                (T::V, Set<T::Option>),
                GetterParseErrorView<T::Option>,
            >((s@, seen@.to_set())),
        decreases tokens@.len() - i,
    {
        let ghost before = s@;
        let ghost known = outcomes;
        let res = s.add_config(&tokens[i]);
        proof {
            assert(args[i as int] == tokens@[i as int]@);
            let outcome = choose|outcome: ArgumentOutcome| #[trigger]
                T::add(before, tokens@[i as int]@, outcome) == add_view::<T::Option, T::V>(
                    res,
                    s@,
                );
            outcomes = known.push(outcome);
            lemma_accumulated_reads_the_first::<T>(args, known, outcomes, i as int);
            assert(outcomes[i as int] == outcome);
        }
        match res {
            Ok(option) => {
                if contains(&seen, &option) {
                    let r = Err(GetterParseError::FieldAttributeOptionSetMultipleTimes(option));
                    proof {
                        lemma_accumulated_error_stays::<T>(
                            args,
                            outcomes,
                            i as int + 1,
                            args.len() as int,
                        );
                        assert(accumulate_view::<T>(r) == accumulate::<T>(args, outcomes));
                    }
                    return r;
                }
                let ghost earlier = seen@;
                seen.push(option);
                assert(seen@.to_set() =~= earlier.to_set().insert(option)) by {
                    assert forall|o: T::Option|
                        earlier.to_set().insert(option).contains(o) implies seen@.contains(o) by {
                        if o == option {
                            assert(seen@[earlier.len() as int] == o);
                        } else {
                            let k = choose|k: int| 0 <= k < earlier.len() && earlier[k] == o;
                            assert(seen@[k] == o);
                        }
                    }
                }
            },
            Err(AddConfigError::Acceptable(_)) => {},
            Err(AddConfigError::Unacceptable(err, option)) => {
                let r = Err(GetterParseError::AddConfigError(err, option));
                proof {
                    lemma_accumulated_error_stays::<T>(
                        args,
                        outcomes,
                        i as int + 1,
                        args.len() as int,
                    );
                    assert(accumulate_view::<T>(r) == accumulate::<T>(args, outcomes));
                }
                return r;
            },
        }
        i += 1;
    }
    assert(accumulate_view::<T>(Ok(s)) == accumulate::<T>(args, outcomes));
    Ok(s)
}

/// Option for mutable reference getter
#[derive(Debug, PartialEq, Eq)]
pub struct MutableGetterOption {
    /// visibility
    visibility: Visibility,
    /// name of the getter
    name: FunctionName,
}

/// What a [`MutableGetterOption`] holds.
pub struct MutableGetterOptionView {
    /// visibility
    pub visibility: VisibilityView,
    /// name of the getter, where one was given
    pub name: Option<Seq<char>>,
}

impl View for MutableGetterOption {
    type V = MutableGetterOptionView;

    closed spec fn view(&self) -> MutableGetterOptionView {
        MutableGetterOptionView { visibility: self.visibility@, name: self.name@ }
    }
}

impl MutableGetterOptionView {
    /// Every option at its default: private, and named after the field.
    pub open spec fn initial() -> MutableGetterOptionView {
        MutableGetterOptionView { visibility: VisibilityView::Private, name: None }
    }

    /// What offering one argument gives, given what the parser answered:
    /// the visibility is tried first, then the name.
    pub open spec fn add(self, option: AnnotationView, outcome: ArgumentOutcome) -> Result<
        (MutableOptionList, MutableGetterOptionView),
        AddConfigErrorView<MutableOptionList>,
    > {
        match resolve::<Visibility>(option, outcome.visibility) {
            Ok(visibility) => Ok(
                (
                    MutableOptionList::Visibility,
                    MutableGetterOptionView { visibility, name: self.name },
                ),
            ),
            Err(ParseAttributeOptionErrorView::Unacceptable(error)) => Err(
                AddConfigErrorView::Unacceptable(error, MutableOptionList::Visibility),
            ),
            Err(ParseAttributeOptionErrorView::Acceptable(_)) => match resolve::<FunctionName>(
                option,
                outcome.name,
            ) {
                Ok(name) => Ok(
                    (
                        MutableOptionList::IdentOption,
                        MutableGetterOptionView { visibility: self.visibility, name },
                    ),
                ),
                Err(ParseAttributeOptionErrorView::Unacceptable(error)) => Err(
                    AddConfigErrorView::Unacceptable(error, MutableOptionList::IdentOption),
                ),
                Err(ParseAttributeOptionErrorView::Acceptable(error)) => Err(
                    AddConfigErrorView::Acceptable(error),
                ),
            },
        }
    }

    /// The name of the mutable getter of a field, where it has one.
    pub open spec fn accessor_name(self, field: FieldInformationView) -> Option<Seq<char>> {
        getter_name_mut(self.name, field.field_name)
    }

    /// The documentation of the mutable getter of a field.
    pub open spec fn comment(self, field: FieldInformationView) -> Seq<char> {
        "Getter on a mutable reference of the field "@ + field.field_name.text()
            + " with type [`"@ + field.ty + "`]."@
    }

    /// The declaration of the mutable getter of a field under the given name.
    pub open spec fn declaration(self, name: Seq<char>, field: FieldInformationView) -> Seq<char> {
        "#[inline]\n#[must_use]\n"@ + self.visibility.keyword() + "fn "@ + name
            + "(&mut self) -> &mut "@ + field.ty + " {\n    &mut self."@ + field.field_name.text()
            + "\n}"@
    }

    /// The mutable getter of a field that has a name for it.
    pub open spec fn code(self, field: FieldInformationView) -> AccessorCodeView {
        AccessorCodeView {
            comment: self.comment(field),
            declaration: self.declaration(self.accessor_name(field)->0, field),
        }
    }
}

/// The text of one getter.
#[derive(Debug, Clone, PartialEq, Eq)]
pub struct AccessorCode {
    /// the documentation of the getter
    pub comment: String,
    /// the declaration of the getter, with its attributes and its body
    pub declaration: String,
}

/// What an [`AccessorCode`] holds.
pub struct AccessorCodeView {
    /// the documentation of the getter
    pub comment: Seq<char>,
    /// the declaration of the getter, with its attributes and its body
    pub declaration: Seq<char>,
}

impl View for AccessorCode {
    type V = AccessorCodeView;

    open spec fn view(&self) -> AccessorCodeView {
        AccessorCodeView { comment: self.comment@, declaration: self.declaration@ }
    }
}

impl Clone for MutableGetterOption {
    fn clone(&self) -> (r: Self)
        ensures
            r@ == self@,
    {
        MutableGetterOption { visibility: self.visibility.clone(), name: self.name.clone() }
    }
}

impl Default for MutableGetterOption {
    fn default() -> (r: Self)
        ensures
            r@ == MutableGetterOptionView::initial(),
    {
        MutableGetterOption { visibility: Visibility::Private, name: FunctionName::new(None) }
    }
}

impl MutableGetterOption {
    /// getter on the visibility
    pub fn visibility(&self) -> (r: &Visibility)
        ensures
            r@ == self@.visibility,
    {
        &self.visibility
    }

    /// getter on the name
    pub fn name(&self) -> (r: &FunctionName)
        ensures
            r@ == self@.name,
    {
        &self.name
    }

    /// Verify that the option is valid: every configuration of the mutable
    /// getter is.
    pub fn validate(&self) -> (r: Result<(), OptionValidationError>)
        ensures
            r == Ok::<(), OptionValidationError>(()),
    {
        Ok(())
    }

    /// Try to parse the arguments of one attribute into a configuration.
    pub fn parse(tokens: &[Annotation]) -> (r: Result<Self, GetterParseError<MutableOptionList>>)
        ensures
            exists|outcomes: Seq<ArgumentOutcome>|
                accumulate_view(r) == #[trigger] accumulate::<MutableGetterOption>(
                    annotations_view(tokens@),
                    outcomes,
                ),
    {
        parse::<MutableGetterOption>(tokens)
    }

    /// The text of the mutable getter of a field.
    pub fn to_code(&self, field_information: &FieldInformation) -> (r: AccessorCode)
        requires
            self@.accessor_name(field_information@) is Some,
        ensures
            r@ == self@.code(field_information@),
    {
        let fn_name = match self.name.name_mut(field_information.field_name()) {
            Some(name) => name,
            None => vstd::pervasive::unreached(),
        };
        let field_name = field_information.field_name().to_string();

        let mut comment = String::from_str("Getter on a mutable reference of the field ");
        comment.append(field_name.as_str());
        comment.append(" with type [`");
        comment.append(field_information.ty());
        comment.append("`].");

        let mut declaration = String::from_str("#[inline]\n#[must_use]\n");
        let visibility = self.visibility.quote();
        declaration.append(visibility.as_str());
        declaration.append("fn ");
        declaration.append(fn_name.as_str());
        declaration.append("(&mut self) -> &mut ");
        declaration.append(field_information.ty());
        declaration.append(" {\n    &mut self.");
        declaration.append(field_name.as_str());
        declaration.append("\n}");
        AccessorCode { comment, declaration }
    }
}

impl ParseGetterOption for MutableGetterOption {
    type Option = MutableOptionList;

    open spec fn initial() -> MutableGetterOptionView {
        MutableGetterOptionView::initial()
    }

    open spec fn add(
        config: MutableGetterOptionView,
        option: AnnotationView,
        outcome: ArgumentOutcome,
    ) -> Result<(MutableOptionList, MutableGetterOptionView), AddConfigErrorView<MutableOptionList>> {
        config.add(option, outcome)
    }

    fn fresh() -> (r: Self) {
        let r = MutableGetterOption {
            visibility: Visibility::Private,
            name: FunctionName::new(None),
        };
        assert(Self::initial() == MutableGetterOptionView::initial());
        r
    }

    fn add_config(&mut self, option: &Annotation) -> (r: Result<
        MutableOptionList,
        AddConfigError<MutableOptionList>,
    >) {
        let visibility = Visibility::parse_option(option);
        let ghost first = choose|outcome: Outcome|
            parse_view(visibility) == #[trigger] resolve::<Visibility>(option@, outcome);
        match visibility {
            Ok(vis) => {
                self.visibility = vis;
                assert(Self::add(
                    old(self)@,
                    option@,
                    ArgumentOutcome {
                        visibility: first,
                        name: first,
                        const_ty: first,
                        ty: first,
                        self_ty: first,
                    },
                ) == add_view::<MutableOptionList, MutableGetterOptionView>(
                    Ok(MutableOptionList::Visibility),
                    self@,
                ));
                return Ok(MutableOptionList::Visibility);
            },
            Err(ParseAttributeOptionError::Unacceptable(err)) => {
                let r = Err(AddConfigError::Unacceptable(err, MutableOptionList::Visibility));
                assert(Self::add(
                    old(self)@,
                    option@,
                    ArgumentOutcome {
                        visibility: first,
                        name: first,
                        const_ty: first,
                        ty: first,
                        self_ty: first,
                    },
                ) == add_view::<MutableOptionList, MutableGetterOptionView>(r, self@));
                return r;
            },
            Err(ParseAttributeOptionError::Acceptable(_)) => {},
        }
        let name = FunctionName::parse_option(option);
        let ghost second = choose|outcome: Outcome|
            parse_view(name) == #[trigger] resolve::<FunctionName>(option@, outcome);
        let ghost outcome = ArgumentOutcome {
            visibility: first,
            name: second,
            const_ty: first,
            ty: first,
            self_ty: first,
        };
        match name {
            Ok(name) => {
                self.name = name;
                assert(Self::add(old(self)@, option@, outcome) == add_view::<
                    MutableOptionList,
                    MutableGetterOptionView,
                >(Ok(MutableOptionList::IdentOption), self@));
                Ok(MutableOptionList::IdentOption)
            },
            Err(ParseAttributeOptionError::Unacceptable(err)) => {
                let r = Err(AddConfigError::Unacceptable(err, MutableOptionList::IdentOption));
                assert(Self::add(old(self)@, option@, outcome) == add_view::<
                    MutableOptionList,
                    MutableGetterOptionView,
                >(r, self@));
                r
            },
            Err(ParseAttributeOptionError::Acceptable(err)) => {
                let r = Err(AddConfigError::Acceptable(err));
                assert(Self::add(old(self)@, option@, outcome) == add_view::<
                    MutableOptionList,
                    MutableGetterOptionView,
                >(r, self@));
                r
            },
        }
    }
}

/// Option for immutable getter
#[derive(Debug, PartialEq, Eq)]
pub struct ImmutableGetterOption {
    /// The base option that can be applied to a mutable ref getter
    option: MutableGetterOption,
    /// if the function is constant or not
    const_ty: ConstTy,
    /// if getter is by ref, value or the value is cloned
    ty: GetterTy,
    /// if the self value is borrowed or moved(or copied)
    self_ty: SelfTy,
}

/// What an [`ImmutableGetterOption`] holds.
pub struct ImmutableGetterOptionView {
    /// The base option that can be applied to a mutable ref getter
    pub option: MutableGetterOptionView,
    /// if the function is constant or not
    pub const_ty: ConstTy,
    /// if getter is by ref, value or the value is cloned
    pub ty: GetterTy,
    /// if the self value is borrowed or moved(or copied)
    pub self_ty: SelfTy,
}

impl View for ImmutableGetterOption {
    type V = ImmutableGetterOptionView;

    closed spec fn view(&self) -> ImmutableGetterOptionView {
        ImmutableGetterOptionView {
            option: self.option@,
            const_ty: self.const_ty,
            ty: self.ty,
            self_ty: self.self_ty,
        }
    }
}

impl ImmutableGetterOptionView {
    /// Every option at its default: private, named after the field, not
    /// constant, by reference on a borrowed `self`.
    pub open spec fn initial() -> ImmutableGetterOptionView {
        ImmutableGetterOptionView {
            option: MutableGetterOptionView::initial(),
            const_ty: ConstTy::NonConstant,
            ty: GetterTy::Ref,
            self_ty: SelfTy::Ref,
        }
    }

    /// What offering one argument gives, given what the parser answered:
    /// the options that the mutable getter shares are tried first, then the
    /// constness, then the way that the field is returned, then the way that
    /// `self` is taken.
    pub open spec fn add(self, option: AnnotationView, outcome: ArgumentOutcome) -> Result<
        (ImmutableOptionList, ImmutableGetterOptionView),
        AddConfigErrorView<ImmutableOptionList>,
    > {
        match self.option.add(option, outcome) {
            Ok((aspect, next)) => Ok(
                (
                    ImmutableOptionList::MutableOption(aspect),
                    ImmutableGetterOptionView {
                        option: next,
                        const_ty: self.const_ty,
                        ty: self.ty,
                        self_ty: self.self_ty,
                    },
                ),
            ),
            Err(AddConfigErrorView::Unacceptable(error, aspect)) => Err(
                AddConfigErrorView::Unacceptable(error, ImmutableOptionList::MutableOption(aspect)),
            ),
            Err(AddConfigErrorView::Acceptable(_)) => match resolve::<ConstTy>(
                option,
                outcome.const_ty,
            ) {
                Ok(const_ty) => Ok(
                    (
                        ImmutableOptionList::ConstTy,
                        ImmutableGetterOptionView {
                            option: self.option,
                            const_ty,
                            ty: self.ty,
                            self_ty: self.self_ty,
                        },
                    ),
                ),
                Err(ParseAttributeOptionErrorView::Unacceptable(error)) => Err(
                    AddConfigErrorView::Unacceptable(error, ImmutableOptionList::ConstTy),
                ),
                Err(ParseAttributeOptionErrorView::Acceptable(_)) => match resolve::<GetterTy>(
                    option,
                    outcome.ty,
                ) {
                    Ok(ty) => Ok(
                        (
                            ImmutableOptionList::GetterTy,
                            ImmutableGetterOptionView {
                                option: self.option,
                                const_ty: self.const_ty,
                                ty,
                                self_ty: self.self_ty,
                            },
                        ),
                    ),
                    Err(ParseAttributeOptionErrorView::Unacceptable(error)) => Err(
                        AddConfigErrorView::Unacceptable(error, ImmutableOptionList::GetterTy),
                    ),
                    Err(ParseAttributeOptionErrorView::Acceptable(_)) => match resolve::<SelfTy>(
                        option,
                        outcome.self_ty,
                    ) {
                        Ok(self_ty) => Ok(
                            (
                                ImmutableOptionList::SelfTy,
                                ImmutableGetterOptionView {
                                    option: self.option,
                                    const_ty: self.const_ty,
                                    ty: self.ty,
                                    self_ty,
                                },
                            ),
                        ),
                        Err(ParseAttributeOptionErrorView::Unacceptable(error)) => Err(
                            AddConfigErrorView::Unacceptable(error, ImmutableOptionList::SelfTy),
                        ),
                        Err(ParseAttributeOptionErrorView::Acceptable(error)) => Err(
                            AddConfigErrorView::Acceptable(error),
                        ),
                    },
                },
            },
        }
    }

    /// Whether the configuration is valid: a getter that takes `self` by
    /// value cannot return a reference.
    pub open spec fn validation(self) -> Result<(), OptionValidationError> {
        if self.self_ty == SelfTy::Value && self.ty == GetterTy::Ref {
            Err(OptionValidationError::SelfMoveOnReturnRef)
        } else {
            Ok(())
        }
    }

    /// The name of the immutable getter of a field, where it has one.
    pub open spec fn accessor_name(self, field: FieldInformationView) -> Option<Seq<char>> {
        getter_name(self.option.name, field.field_name)
    }

    /// The documentation of the immutable getter of a field.
    pub open spec fn comment(self, field: FieldInformationView) -> Seq<char> {
        "Getter on a "@ + self.ty.label() + " of the field `"@ + field.field_name.text()
            + "` with type [`"@ + field.ty + "`]."@
    }

    /// The declaration of the immutable getter of a field under the given
    /// name.
    pub open spec fn declaration(self, name: Seq<char>, field: FieldInformationView) -> Seq<char> {
        "#[inline]\n#[must_use]\n"@ + self.option.visibility.keyword() + self.const_ty.keyword()
            + "fn "@ + name + "("@ + self.self_ty.prefix() + "self) -> "@ + self.ty.prefix()
            + field.ty + " {\n    "@ + self.ty.prefix() + "self."@ + field.field_name.text()
            + self.ty.suffix() + "\n}"@
    }

    /// The immutable getter of a field that has a name for it.
    pub open spec fn code(self, field: FieldInformationView) -> AccessorCodeView {
        AccessorCodeView {
            comment: self.comment(field),
            declaration: self.declaration(self.accessor_name(field)->0, field),
        }
    }
}

impl Clone for ImmutableGetterOption {
    fn clone(&self) -> (r: Self)
        ensures
            r@ == self@,
    {
        ImmutableGetterOption {
            option: self.option.clone(),
            const_ty: self.const_ty,
            ty: self.ty,
            self_ty: self.self_ty,
        }
    }
}

impl Default for ImmutableGetterOption {
    fn default() -> (r: Self)
        ensures
            r@ == ImmutableGetterOptionView::initial(),
    {
        ImmutableGetterOption {
            option: MutableGetterOption::fresh(),
            const_ty: ConstTy::NonConstant,
            ty: GetterTy::Ref,
            self_ty: SelfTy::Ref,
        }
    }
}

impl ImmutableGetterOption {
    /// getter on the options that the mutable getter shares
    pub fn option(&self) -> (r: &MutableGetterOption)
        ensures
            r@ == self@.option,
    {
        &self.option
    }

    /// getter on the constness
    pub fn const_ty(&self) -> (r: ConstTy)
        ensures
            r == self@.const_ty,
    {
        self.const_ty
    }

    /// getter on the way that the field is returned
    pub fn ty(&self) -> (r: GetterTy)
        ensures
            r == self@.ty,
    {
        self.ty
    }

    /// getter on the way that `self` is taken
    pub fn self_ty(&self) -> (r: SelfTy)
        ensures
            r == self@.self_ty,
    {
        self.self_ty
    }

    /// Verify that the option is valid
    pub fn validate(&self) -> (r: Result<(), OptionValidationError>)
        ensures
            r == self@.validation(),
    {
        match self.option.validate() {
            Ok(()) => {},
            Err(error) => {
                return Err(error);
            },
        }
        if self.self_ty == SelfTy::Value && self.ty == GetterTy::Ref {
            Err(OptionValidationError::SelfMoveOnReturnRef)
        } else {
            Ok(())
        }
    }

    /// Try to parse the arguments of one attribute into a configuration.
    pub fn parse(tokens: &[Annotation]) -> (r: Result<Self, GetterParseError<ImmutableOptionList>>)
        ensures
            exists|outcomes: Seq<ArgumentOutcome>|
                accumulate_view(r) == #[trigger] accumulate::<ImmutableGetterOption>(
                    annotations_view(tokens@),
                    outcomes,
                ),
    {
        parse::<ImmutableGetterOption>(tokens)
    }

    /// The text of the immutable getter of a field.
    pub fn to_code(&self, field_information: &FieldInformation) -> (r: AccessorCode)
        requires
            self@.accessor_name(field_information@) is Some,
        ensures
            r@ == self@.code(field_information@),
    {
        let fn_name = match self.option.name().name(field_information.field_name()) {
            Some(name) => name,
            None => vstd::pervasive::unreached(),
        };
        let field_name = field_information.field_name().to_string();
        let getter_ty_prefix = self.ty.prefix_quote();
        let getter_ty_suffix = self.ty.suffix_quote();
        let getter_ty_label = self.ty.to_string();

        let mut comment = String::from_str("Getter on a ");
        comment.append(getter_ty_label.as_str());
        comment.append(" of the field `");
        comment.append(field_name.as_str());
        comment.append("` with type [`");
        comment.append(field_information.ty());
        comment.append("`].");

        let mut declaration = String::from_str("#[inline]\n#[must_use]\n");
        let visibility = self.option.visibility().quote();
        declaration.append(visibility.as_str());
        let const_ty = self.const_ty.quote();
        declaration.append(const_ty.as_str());
        declaration.append("fn ");
        declaration.append(fn_name);
        declaration.append("(");
        let self_ty_code = self.self_ty.quote();
        declaration.append(self_ty_code.as_str());
        declaration.append("self) -> ");
        declaration.append(getter_ty_prefix.as_str());
        declaration.append(field_information.ty());
        declaration.append(" {\n    ");
        declaration.append(getter_ty_prefix.as_str());
        declaration.append("self.");
        declaration.append(field_name.as_str());
        declaration.append(getter_ty_suffix.as_str());
        declaration.append("\n}");
        AccessorCode { comment, declaration }
    }
}

impl ParseGetterOption for ImmutableGetterOption {
    type Option = ImmutableOptionList;

    open spec fn initial() -> ImmutableGetterOptionView {
        ImmutableGetterOptionView::initial()
    }

    open spec fn add(
        config: ImmutableGetterOptionView,
        option: AnnotationView,
        outcome: ArgumentOutcome,
    ) -> Result<
        (ImmutableOptionList, ImmutableGetterOptionView),
        AddConfigErrorView<ImmutableOptionList>,
    > {
        config.add(option, outcome)
    }

    fn fresh() -> (r: Self) {
        ImmutableGetterOption {
            option: MutableGetterOption::fresh(),
            const_ty: ConstTy::NonConstant,
            ty: GetterTy::Ref,
            self_ty: SelfTy::Ref,
        }
    }

    fn add_config(&mut self, option: &Annotation) -> (r: Result<
        ImmutableOptionList,
        AddConfigError<ImmutableOptionList>,
    >) {
        let ghost before = self@;
        let shared = self.option.add_config(option);
        let ghost base = choose|outcome: ArgumentOutcome| #[trigger]
            MutableGetterOption::add(before.option, option@, outcome) == add_view::<
                MutableOptionList,
                MutableGetterOptionView,
            >(shared, self.option@);
        match shared {
            Ok(option_set) => {
                let r = Ok(ImmutableOptionList::MutableOption(option_set));
                assert(Self::add(before, option@, base) == add_view::<
                    ImmutableOptionList,
                    ImmutableGetterOptionView,
                >(r, self@));
                return r;
            },
            Err(AddConfigError::Unacceptable(err, option_set)) => {
                let r = Err(
                    AddConfigError::Unacceptable(
                        err,
                        ImmutableOptionList::MutableOption(option_set),
                    ),
                );
                assert(Self::add(before, option@, base) == add_view::<
                    ImmutableOptionList,
                    ImmutableGetterOptionView,
                >(r, self@));
                return r;
            },
            Err(AddConfigError::Acceptable(_)) => {},
        }
        let constness = ConstTy::parse_option(option);
        let ghost third = choose|outcome: Outcome|
            parse_view(constness) == #[trigger] resolve::<ConstTy>(option@, outcome);
        let ghost with_const = ArgumentOutcome {
            visibility: base.visibility,
            name: base.name,
            const_ty: third,
            ty: third,
            self_ty: third,
        };
        match constness {
            Ok(const_ty) => {
                self.const_ty = const_ty;
                let r = Ok(ImmutableOptionList::ConstTy);
                assert(Self::add(before, option@, with_const) == add_view::<
                    ImmutableOptionList,
                    ImmutableGetterOptionView,
                >(r, self@));
                return r;
            },
            Err(ParseAttributeOptionError::Unacceptable(err)) => {
                let r = Err(AddConfigError::Unacceptable(err, ImmutableOptionList::ConstTy));
                assert(Self::add(before, option@, with_const) == add_view::<
                    ImmutableOptionList,
                    ImmutableGetterOptionView,
                >(r, self@));
                return r;
            },
            Err(ParseAttributeOptionError::Acceptable(_)) => {},
        }
        let returned = GetterTy::parse_option(option);
        let ghost fourth = choose|outcome: Outcome|
            parse_view(returned) == #[trigger] resolve::<GetterTy>(option@, outcome);
        let ghost with_ty = ArgumentOutcome {
            visibility: base.visibility,
            name: base.name,
            const_ty: third,
            ty: fourth,
            self_ty: fourth,
        };
        match returned {
            Ok(ty) => {
                self.ty = ty;
                let r = Ok(ImmutableOptionList::GetterTy);
                assert(Self::add(before, option@, with_ty) == add_view::<
                    ImmutableOptionList,
                    ImmutableGetterOptionView,
                >(r, self@));
                return r;
            },
            Err(ParseAttributeOptionError::Unacceptable(err)) => {
                let r = Err(AddConfigError::Unacceptable(err, ImmutableOptionList::GetterTy));
                assert(Self::add(before, option@, with_ty) == add_view::<
                    ImmutableOptionList,
                    ImmutableGetterOptionView,
                >(r, self@));
                return r;
            },
            Err(ParseAttributeOptionError::Acceptable(_)) => {},
        }
        let receiver = SelfTy::parse_option(option);
        let ghost fifth = choose|outcome: Outcome|
            parse_view(receiver) == #[trigger] resolve::<SelfTy>(option@, outcome);
        let ghost outcome = ArgumentOutcome {
            visibility: base.visibility,
            name: base.name,
            const_ty: third,
            ty: fourth,
            self_ty: fifth,
        };
        match receiver {
            Ok(self_ty) => {
                self.self_ty = self_ty;
                let r = Ok(ImmutableOptionList::SelfTy);
                assert(Self::add(before, option@, outcome) == add_view::<
                    ImmutableOptionList,
                    ImmutableGetterOptionView,
                >(r, self@));
                r
            },
            Err(ParseAttributeOptionError::Unacceptable(err)) => {
                let r = Err(AddConfigError::Unacceptable(err, ImmutableOptionList::SelfTy));
                assert(Self::add(before, option@, outcome) == add_view::<
                    ImmutableOptionList,
                    ImmutableGetterOptionView,
                >(r, self@));
                r
            },
            Err(ParseAttributeOptionError::Acceptable(err)) => {
                let r = Err(AddConfigError::Acceptable(err));
                assert(Self::add(before, option@, outcome) == add_view::<
                    ImmutableOptionList,
                    ImmutableGetterOptionView,
                >(r, self@));
                r
            },
        }
    }
}

} // verus!
