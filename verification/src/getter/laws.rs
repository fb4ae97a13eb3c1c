//! What holds of the option compiler for every input and for every answer of
//! the parser of the host language: statements that
//! relate the resolution of arguments, the accumulation of a configuration,
//! the merge of selections, the validation and the emission.

use vstd::prelude::*;

use super::attribute_option::resolve;
use super::const_ty::ConstTy;
use super::error::{GetterParseErrorView, OptionParseErrorView, OptionValidationError};
use super::field::{FieldDeclarationView, FieldInformationView, FieldView};
use super::getter_option::{
    attribute, is_getter_attribute, is_immutable_attribute, lemma_resolved_error_stays,
    resolution, resolved, validation, AttributeOutcome, GetterOptionView,
};
use super::host::Outcome;
use super::name::is_identifier;
use super::getter_ty::GetterTy;
use super::option::{
    accumulate, accumulated, ArgumentOutcome, ImmutableGetterOption,
    ImmutableGetterOptionView, MutableGetterOption, MutableGetterOptionView, ParseGetterOption,
};
use super::option_enum::{ImmutableOptionList, MutableOptionList};
use super::self_ty::SelfTy;
use super::syntax::{AnnotationPathView, AnnotationValueView, AnnotationView, NameValueView};
use super::visibility::{Visibility, VisibilityView};
use super::which_getter::WhichGetterView;
use super::{
    derivation, field_message, field_output, fieldless_message, outputs, DataView, DerivedView,
    FieldOutputView, FieldsView,
};

verus! {

/// The argument `name = "text"`.
pub open spec fn assignment(name: Seq<char>, text: Seq<char>) -> AnnotationView {
    AnnotationView::NameValue(
        NameValueView {
            path: AnnotationPathView::of_ident(name),
            value: AnnotationValueView::Str(text),
        },
    )
}

/// The bare word `word`.
pub open spec fn flag(word: Seq<char>) -> AnnotationView {
    AnnotationView::Path(AnnotationPathView::of_ident(word))
}

/// The lengths of the words that the options are spelled with.
proof fn lemma_lengths()
    ensures
        "name"@.len() == 4,
        "visibility"@.len() == 10,
        "Visibility"@.len() == 10,
        "get"@.len() == 3,
        "get_mut"@.len() == 7,
        "self_ty"@.len() == 7,
        "getter_ty"@.len() == 9,
        "getter_type"@.len() == 11,
        "Getter_ty"@.len() == 9,
        "Getter_type"@.len() == 11,
        "const"@.len() == 5,
        "Const"@.len() == 5,
        "constant"@.len() == 8,
        "Constant"@.len() == 8,
        "copy"@.len() == 4,
        "ref"@.len() == 3,
        "by_ref"@.len() == 6,
        "by ref"@.len() == 6,
{
    reveal_strlit("name");
    reveal_strlit("visibility");
    reveal_strlit("Visibility");
    reveal_strlit("get");
    reveal_strlit("get_mut");
    reveal_strlit("self_ty");
    reveal_strlit("getter_ty");
    reveal_strlit("getter_type");
    reveal_strlit("Getter_ty");
    reveal_strlit("Getter_type");
    reveal_strlit("const");
    reveal_strlit("Const");
    reveal_strlit("constant");
    reveal_strlit("Constant");
    reveal_strlit("copy");
    reveal_strlit("ref");
    reveal_strlit("by_ref");
    reveal_strlit("by ref");
}

/// A configuration accumulated from no argument has every option at its
/// default, for both kinds of getter.
pub proof fn law_no_argument_gives_the_defaults<T: ParseGetterOption>(
    outcomes: Seq<ArgumentOutcome>,
)
    ensures
        accumulate::<T>(Seq::empty(), outcomes) == Ok::<T::V, GetterParseErrorView<T::Option>>(
            T::initial(),
        ),
        accumulate::<ImmutableGetterOption>(Seq::empty(), outcomes) == Ok::<
            ImmutableGetterOptionView,
            GetterParseErrorView<ImmutableOptionList>,
        >(ImmutableGetterOptionView::initial()),
        accumulate::<MutableGetterOption>(Seq::empty(), outcomes) == Ok::<
            MutableGetterOptionView,
            GetterParseErrorView<MutableOptionList>,
        >(MutableGetterOptionView::initial()),
{
}

/// Merging a configuration into a selection gives that configuration for its
/// kind of getter, whatever the selection held for that kind before, and
/// carries the other kind over.
pub proof fn law_later_configuration_wins(
    out: WhichGetterView,
    immutable: ImmutableGetterOptionView,
    mutable: MutableGetterOptionView,
)
    ensures
        out.merge(WhichGetterView::Immutable(immutable)).immutable() == Some(immutable),
        out.merge(WhichGetterView::Immutable(immutable)).mutable() == out.mutable(),
        out.merge(WhichGetterView::Mutable(mutable)).mutable() == Some(mutable),
        out.merge(WhichGetterView::Mutable(mutable)).immutable() == out.immutable(),
        out.merge(WhichGetterView::Both { immutable, mutable }) == (WhichGetterView::Both {
            immutable,
            mutable,
        }),
{
}

/// The option that an argument sets in a configuration, if it sets one.
pub open spec fn option_set<T: ParseGetterOption>(
    config: T::V,
    arg: AnnotationView,
    outcome: ArgumentOutcome,
) -> Option<T::Option> {
    match T::add(config, arg, outcome) {
        Ok((aspect, _)) => Some(aspect),
        Err(_) => None,
    }
}

/// Whether the option that an argument sets is the same in every
/// configuration.
pub open spec fn option_set_is_fixed<T: ParseGetterOption>() -> bool {
    forall|config: T::V, arg: AnnotationView, outcome: ArgumentOutcome| #[trigger]
        option_set::<T>(config, arg, outcome) == option_set::<T>(T::initial(), arg, outcome)
}

/// The option that an argument sets does not depend on the configuration,
/// for both kinds of getter.
pub proof fn lemma_option_set_is_fixed()
    ensures
        option_set_is_fixed::<MutableGetterOption>(),
        option_set_is_fixed::<ImmutableGetterOption>(),
{
    assert forall|
        config: MutableGetterOptionView,
        arg: AnnotationView,
        outcome: ArgumentOutcome,
    | #[trigger]
        option_set::<MutableGetterOption>(config, arg, outcome) == option_set::<
            MutableGetterOption,
        >(MutableGetterOptionView::initial(), arg, outcome) by {
        assert(config.add(arg, outcome) is Ok <==> MutableGetterOptionView::initial().add(
            arg,
            outcome,
        ) is Ok);
    }
    assert forall|
        config: ImmutableGetterOptionView,
        arg: AnnotationView,
        outcome: ArgumentOutcome,
    | #[trigger]
        option_set::<ImmutableGetterOption>(config, arg, outcome) == option_set::<
            ImmutableGetterOption,
        >(ImmutableGetterOptionView::initial(), arg, outcome) by {
        assert(config.option.add(arg, outcome) is Ok <==> MutableGetterOptionView::initial().add(
            arg,
            outcome,
        ) is Ok);
        assert(config.add(arg, outcome) is Ok <==> ImmutableGetterOptionView::initial().add(
            arg,
            outcome,
        ) is Ok);
    }
}

/// Where the first arguments accumulate without an error, each option that
/// one of them sets is among the options that were set, and no two of them
/// set the same option.
pub proof fn lemma_accumulated_options_are_distinct<T: ParseGetterOption>(
    args: Seq<AnnotationView>,
    outcomes: Seq<ArgumentOutcome>,
    n: int,
)
    requires
        0 <= n,
        option_set_is_fixed::<T>(),
        accumulated::<T>(args, outcomes, n) is Ok,
    ensures
        forall|j: int|
            0 <= j < n && (#[trigger] option_set::<T>(T::initial(), args[j], outcomes[j])) is Some
                ==> accumulated::<T>(args, outcomes, n)->Ok_0.1.contains(
                option_set::<T>(T::initial(), args[j], outcomes[j])->0,
            ),
        forall|j: int, k: int|
            0 <= j < k < n && (#[trigger] option_set::<T>(T::initial(), args[j], outcomes[j]))
                is Some ==> option_set::<T>(T::initial(), args[j], outcomes[j])
                != #[trigger] option_set::<T>(T::initial(), args[k], outcomes[k]),
    decreases n,
{
    if n > 0 {
        let earlier = accumulated::<T>(args, outcomes, n - 1);
        assert(earlier is Ok);
        lemma_accumulated_options_are_distinct::<T>(args, outcomes, n - 1);
        let config = earlier->Ok_0.0;
        let seen = earlier->Ok_0.1;
        let last = n - 1;
        assert(option_set::<T>(config, args[last], outcomes[last]) == option_set::<T>(
            T::initial(),
            args[last],
            outcomes[last],
        ));
        assert forall|j: int, k: int|
            0 <= j < k < n && (#[trigger] option_set::<T>(T::initial(), args[j], outcomes[j]))
                is Some implies option_set::<T>(T::initial(), args[j], outcomes[j])
            != #[trigger] option_set::<T>(T::initial(), args[k], outcomes[k]) by {
            if k == last {
                assert(seen.contains(option_set::<T>(T::initial(), args[j], outcomes[j])->0));
            }
        }
    }
}

/// An option is set at most once among the arguments of one attribute:
/// where two arguments set the same option, the accumulation fails, for both
/// kinds of getter, wherever the two arguments stand and whatever the parser
/// answered on the others.
pub proof fn law_option_is_set_at_most_once<T: ParseGetterOption>(
    args: Seq<AnnotationView>,
    outcomes: Seq<ArgumentOutcome>,
    j: int,
    k: int,
)
    requires
        option_set_is_fixed::<T>(),
        0 <= j < k < args.len(),
        option_set::<T>(T::initial(), args[j], outcomes[j]) is Some,
        option_set::<T>(T::initial(), args[j], outcomes[j]) == option_set::<T>(
            T::initial(),
            args[k],
            outcomes[k],
        ),
    ensures
        accumulate::<T>(args, outcomes) is Err,
{
    if accumulate::<T>(args, outcomes) is Ok {
        lemma_accumulated_options_are_distinct::<T>(args, outcomes, args.len() as int);
    }
}

/// What the first arguments accumulate to depends on these arguments and
/// on the answers to them alone.
proof fn lemma_accumulated_reads_the_first_arguments<T: ParseGetterOption>(
    args: Seq<AnnotationView>,
    outcomes: Seq<ArgumentOutcome>,
    longer: Seq<AnnotationView>,
    more: Seq<ArgumentOutcome>,
    n: int,
)
    requires
        forall|k: int| 0 <= k < n ==> args[k] == longer[k] && outcomes[k] == more[k],
    ensures
        accumulated::<T>(args, outcomes, n) == accumulated::<T>(longer, more, n),
    decreases n,
{
    if n > 0 {
        lemma_accumulated_reads_the_first_arguments::<T>(args, outcomes, longer, more, n - 1);
        assert(args[n - 1] == longer[n - 1] && outcomes[n - 1] == more[n - 1]);
    }
}

/// An argument that belongs to no option of a configuration is skipped: the
/// arguments with it at the end accumulate to what the arguments without it
/// accumulate to.
pub proof fn law_unrecognized_argument_is_skipped<T: ParseGetterOption>(
    args: Seq<AnnotationView>,
    outcomes: Seq<ArgumentOutcome>,
    unknown: AnnotationView,
    answer: ArgumentOutcome,
)
    requires
        outcomes.len() == args.len(),
        forall|config: T::V| (#[trigger] T::add(config, unknown, answer)) matches Err(
            super::error::AddConfigErrorView::Acceptable(_),
        ),
    ensures
        accumulate::<T>(args.push(unknown), outcomes.push(answer)) == accumulate::<T>(
            args,
            outcomes,
        ),
{
    let longer = args.push(unknown);
    let more = outcomes.push(answer);
    let n = args.len() as int;
    lemma_accumulated_reads_the_first_arguments::<T>(args, outcomes, longer, more, n);
    assert(longer[n] == unknown);
    assert(more[n] == answer);
    match accumulated::<T>(longer, more, n) {
        Ok((config, seen)) => {
            assert(T::add(config, unknown, answer) is Err);
        },
        Err(_) => {},
    }
}

/// What the attributes of a field resolve to is valid for the field: every
/// selected getter has a name, and no getter takes `self` by value and
/// returns a reference.
pub proof fn law_resolution_is_valid(field: FieldView, outcomes: Seq<AttributeOutcome>)
    requires
        resolution(field, outcomes) is Ok,
    ensures
        resolution(field, outcomes)->Ok_0.field == FieldInformationView::of_field(field),
        resolution(field, outcomes)->Ok_0.which.named(resolution(field, outcomes)->Ok_0.field),
        resolution(field, outcomes)->Ok_0.which.validation() == Ok::<(), OptionValidationError>(
            (),
        ),
{
}

/// The arguments `name = "a", name = "b"` give the error of the name set
/// multiple times, for both kinds of getter and whatever the two names are.
pub proof fn law_name_set_twice_is_rejected(
    a: Seq<char>,
    b: Seq<char>,
    outcomes: Seq<ArgumentOutcome>,
)
    requires
        is_identifier(a),
        is_identifier(b),
    ensures
        accumulate::<ImmutableGetterOption>(
            seq![assignment("name"@, a), assignment("name"@, b)],
            outcomes,
        ) == Err::<ImmutableGetterOptionView, GetterParseErrorView<ImmutableOptionList>>(
            GetterParseErrorView::FieldAttributeOptionSetMultipleTimes(
                ImmutableOptionList::MutableOption(MutableOptionList::IdentOption),
            ),
        ),
        accumulate::<MutableGetterOption>(
            seq![assignment("name"@, a), assignment("name"@, b)],
            outcomes,
        ) == Err::<MutableGetterOptionView, GetterParseErrorView<MutableOptionList>>(
            GetterParseErrorView::FieldAttributeOptionSetMultipleTimes(
                MutableOptionList::IdentOption,
            ),
        ),
{
    lemma_lengths();
    let first = assignment("name"@, a);
    let second = assignment("name"@, b);
    let args = seq![first, second];
    assert(args[0] == first && args[1] == second);
    assert(first->NameValue_0.path.ident() == Some("name"@));
    assert(second->NameValue_0.path.ident() == Some("name"@));
    assert(accumulated::<MutableGetterOption>(args, outcomes, 0) is Ok);
    assert(accumulated::<MutableGetterOption>(args, outcomes, 1) is Ok);
    assert(accumulated::<MutableGetterOption>(args, outcomes, 1)->Ok_0.1.contains(
        MutableOptionList::IdentOption,
    ));
    assert(accumulated::<ImmutableGetterOption>(args, outcomes, 0) is Ok);
    assert(accumulated::<ImmutableGetterOption>(args, outcomes, 1) is Ok);
    assert(accumulated::<ImmutableGetterOption>(args, outcomes, 1)->Ok_0.1.contains(
        ImmutableOptionList::MutableOption(MutableOptionList::IdentOption),
    ));
}

/// A field without an identifier and with the bare attribute of a getter
/// gives the error of a missing function name, for both kinds of getter.
pub proof fn law_tuple_field_needs_a_name(
    field: FieldView,
    word: Seq<char>,
    outcomes: Seq<AttributeOutcome>,
)
    requires
        field.field.ident is None,
        field.field.attrs == seq![flag(word)],
        word == "get"@ || word == "get_mut"@,
    ensures
        resolution(field, outcomes) == Err::<GetterOptionView, OptionParseErrorView>(
            OptionParseErrorView::OptionValidationError(OptionValidationError::FunctionNameMissing),
        ),
{
    lemma_lengths();
    let attrs = field.field.attrs;
    assert(attrs[0] == flag(word));
    assert(flag(word)->Path_0.ident() == Some(word));
    let which = if word == "get"@ {
        WhichGetterView::Immutable(ImmutableGetterOptionView::initial())
    } else {
        WhichGetterView::Mutable(MutableGetterOptionView::initial())
    };
    assert(resolved(attrs, outcomes, 0) == Ok::<Option<WhichGetterView>, OptionParseErrorView>(
        None,
    ));
    assert(resolved(attrs, outcomes, 1) == Ok::<Option<WhichGetterView>, OptionParseErrorView>(
        Some(which),
    ));
}

/// A field without an identifier whose one attribute is that of the
/// immutable getter, with tokens that the parser reads as the one argument
/// `name = "x"`, resolves, and its getter is named `x`.
pub proof fn law_tuple_field_with_a_name(
    field: FieldView,
    x: Seq<char>,
    outcomes: Seq<AttributeOutcome>,
)
    requires
        field.field.ident is None,
        field.field.attrs.len() == 1,
        field.field.attrs[0] is List,
        is_immutable_attribute(field.field.attrs[0]->List_0.path),
        outcomes[0].arguments == Ok::<Seq<AnnotationView>, Seq<char>>(
            seq![assignment("name"@, x)],
        ),
        is_identifier(x),
    ensures
        resolution(field, outcomes) is Ok,
        resolution(field, outcomes)->Ok_0.which is Immutable,
        resolution(field, outcomes)->Ok_0.which.immutable()->0.accessor_name(
            resolution(field, outcomes)->Ok_0.field,
        ) == Some(x),
        resolution(field, outcomes)->Ok_0.which.code(
            resolution(field, outcomes)->Ok_0.field,
        ).len() == 1,
        resolution(field, outcomes)->Ok_0.which.code(
            resolution(field, outcomes)->Ok_0.field,
        )[0].declaration == ImmutableGetterOptionView::initial().declaration(
            x,
            FieldInformationView::of_field(field),
        ),
{
    lemma_lengths();
    let attrs = field.field.attrs;
    let nested = outcomes[0].nested;
    let args = seq![assignment("name"@, x)];
    assert(args[0]->NameValue_0.path.ident() == Some("name"@));
    let named = MutableGetterOptionView { visibility: VisibilityView::Private, name: Some(x) };
    let config = ImmutableGetterOptionView {
        option: named,
        const_ty: ConstTy::NonConstant,
        ty: GetterTy::Ref,
        self_ty: SelfTy::Ref,
    };
    assert(MutableGetterOptionView::initial().add(args[0], nested[0]) == Ok::<
        (MutableOptionList, MutableGetterOptionView),
        super::error::AddConfigErrorView<MutableOptionList>,
    >((MutableOptionList::IdentOption, named)));
    assert(accumulated::<ImmutableGetterOption>(args, nested, 0) is Ok);
    assert(accumulated::<ImmutableGetterOption>(args, nested, 1) is Ok);
    assert(accumulate::<ImmutableGetterOption>(args, nested) == Ok::<
        ImmutableGetterOptionView,
        GetterParseErrorView<ImmutableOptionList>,
    >(config));
    let which = WhichGetterView::Immutable(config);
    assert(resolved(attrs, outcomes, 0) == Ok::<Option<WhichGetterView>, OptionParseErrorView>(
        None,
    ));
    assert(attribute(None, attrs[0], outcomes[0]) == Ok::<
        Option<WhichGetterView>,
        OptionParseErrorView,
    >(Some(which)));
    assert(resolved(attrs, outcomes, 1) == Ok::<Option<WhichGetterView>, OptionParseErrorView>(
        Some(which),
    ));
    let information = FieldInformationView::of_field(field);
    assert(config.accessor_name(information) == Some(x));
    assert(validation(which, information) == Ok::<(), OptionValidationError>(()));
}

/// A getter that takes `self` by value and returns a reference is invalid,
/// be the reference asked for or left at its default; one that takes `self`
/// by value and returns a copy or a clone is valid.
pub proof fn law_receiver_and_return_conflict(config: ImmutableGetterOptionView)
    ensures
        (config.self_ty == SelfTy::Value && config.ty == GetterTy::Ref) <==> config.validation()
            == Err::<(), OptionValidationError>(OptionValidationError::SelfMoveOnReturnRef),
        !(config.self_ty == SelfTy::Value && config.ty == GetterTy::Ref) <==> config.validation()
            == Ok::<(), OptionValidationError>(()),
        ImmutableGetterOptionView::initial().ty == GetterTy::Ref,
{
}

/// The arguments `self_ty = "value", getter_ty = "ref"` and the one
/// argument `self_ty = "value"` give an invalid configuration; the arguments
/// `self_ty = "value", getter_ty = "copy"` give a valid one.
pub proof fn law_receiver_and_return_spellings(outcomes: Seq<ArgumentOutcome>)
    ensures
        accumulate::<ImmutableGetterOption>(
            seq![assignment("self_ty"@, "value"@), assignment("getter_ty"@, "ref"@)],
            outcomes,
        ) matches Ok(config) && config.validation() == Err::<(), OptionValidationError>(
            OptionValidationError::SelfMoveOnReturnRef,
        ),
        accumulate::<ImmutableGetterOption>(seq![assignment("self_ty"@, "value"@)], outcomes)
            matches Ok(config) && config.validation() == Err::<(), OptionValidationError>(
            OptionValidationError::SelfMoveOnReturnRef,
        ),
        accumulate::<ImmutableGetterOption>(
            seq![assignment("self_ty"@, "value"@), assignment("getter_ty"@, "copy"@)],
            outcomes,
        ) matches Ok(config) && config.validation() == Ok::<(), OptionValidationError>(()),
{
    lemma_lengths();
    let receiver = assignment("self_ty"@, "value"@);
    let by_ref = assignment("getter_ty"@, "ref"@);
    let by_copy = assignment("getter_ty"@, "copy"@);
    assert(receiver->NameValue_0.path.ident() == Some("self_ty"@));
    assert(by_ref->NameValue_0.path.ident() == Some("getter_ty"@));
    assert(by_copy->NameValue_0.path.ident() == Some("getter_ty"@));
    let initial = ImmutableGetterOptionView::initial();
    let moved = ImmutableGetterOptionView {
        option: initial.option,
        const_ty: initial.const_ty,
        ty: initial.ty,
        self_ty: SelfTy::Value,
    };
    let copied = ImmutableGetterOptionView {
        option: initial.option,
        const_ty: initial.const_ty,
        ty: GetterTy::Copy,
        self_ty: SelfTy::Value,
    };
    assert(initial.add(receiver, outcomes[0]) == Ok::<
        (ImmutableOptionList, ImmutableGetterOptionView),
        super::error::AddConfigErrorView<ImmutableOptionList>,
    >((ImmutableOptionList::SelfTy, moved)));
    assert(moved.add(by_ref, outcomes[1]) == Ok::<
        (ImmutableOptionList, ImmutableGetterOptionView),
        super::error::AddConfigErrorView<ImmutableOptionList>,
    >((ImmutableOptionList::GetterTy, moved)));
    assert(moved.add(by_copy, outcomes[1]) == Ok::<
        (ImmutableOptionList, ImmutableGetterOptionView),
        super::error::AddConfigErrorView<ImmutableOptionList>,
    >((ImmutableOptionList::GetterTy, copied)));
    let one = Set::<ImmutableOptionList>::empty().insert(ImmutableOptionList::SelfTy);
    let a = seq![receiver, by_ref];
    assert(a[0] == receiver && a[1] == by_ref);
    assert(accumulated::<ImmutableGetterOption>(a, outcomes, 0) is Ok);
    assert(accumulated::<ImmutableGetterOption>(a, outcomes, 1) == Ok::<
        (ImmutableGetterOptionView, Set<ImmutableOptionList>),
        GetterParseErrorView<ImmutableOptionList>,
    >((moved, one)));
    assert(accumulated::<ImmutableGetterOption>(a, outcomes, 2) matches Ok(state) && state.0
        == moved);
    let b = seq![receiver];
    assert(b[0] == receiver);
    assert(accumulated::<ImmutableGetterOption>(b, outcomes, 0) is Ok);
    assert(accumulated::<ImmutableGetterOption>(b, outcomes, 1) matches Ok(state) && state.0
        == moved);
    let c = seq![receiver, by_copy];
    assert(c[0] == receiver && c[1] == by_copy);
    assert(accumulated::<ImmutableGetterOption>(c, outcomes, 0) is Ok);
    assert(accumulated::<ImmutableGetterOption>(c, outcomes, 1) == Ok::<
        (ImmutableGetterOptionView, Set<ImmutableOptionList>),
        GetterParseErrorView<ImmutableOptionList>,
    >((moved, one)));
    assert(accumulated::<ImmutableGetterOption>(c, outcomes, 2) matches Ok(state) && state.0
        == copied);
}

/// The words `public`, `Public` and `pub` and the argument
/// `visibility = "public"` all resolve to the public visibility, and so to
/// the same keyword, whatever the parser answers.
pub proof fn law_spellings_of_public(outcome: Outcome)
    ensures
        resolve::<Visibility>(flag("public"@), outcome) == Ok::<
            VisibilityView,
            super::error::ParseAttributeOptionErrorView,
        >(VisibilityView::Public),
        resolve::<Visibility>(flag("Public"@), outcome) == resolve::<Visibility>(
            flag("public"@),
            outcome,
        ),
        resolve::<Visibility>(flag("pub"@), outcome) == resolve::<Visibility>(
            flag("public"@),
            outcome,
        ),
        resolve::<Visibility>(assignment("visibility"@, "public"@), outcome) == resolve::<
            Visibility,
        >(flag("public"@), outcome),
        VisibilityView::Public.keyword() == "pub "@,
{
    assert(flag("public"@)->Path_0.ident() == Some("public"@));
    assert(flag("Public"@)->Path_0.ident() == Some("Public"@));
    assert(flag("pub"@)->Path_0.ident() == Some("pub"@));
    assert(assignment("visibility"@, "public"@)->NameValue_0.path.ident() == Some("visibility"@));
}

/// A selection of both getters emits exactly two declarations: that of the
/// immutable getter, then that of the mutable getter, both of the same field
/// and type.
pub proof fn law_both_getters_are_emitted(
    immutable: ImmutableGetterOptionView,
    mutable: MutableGetterOptionView,
    field: FieldInformationView,
)
    ensures
        (WhichGetterView::Both { immutable, mutable }).code(field).len() == 2,
        (WhichGetterView::Both { immutable, mutable }).code(field)[0] == immutable.code(field),
        (WhichGetterView::Both { immutable, mutable }).code(field)[1] == mutable.code(field),
        WhichGetterView::Immutable(immutable).code(field).len() == 1,
        WhichGetterView::Mutable(mutable).code(field).len() == 1,
{
}

/// A field with an identifier and with the two bare attributes, in either
/// order, selects both getters, each with every option at its default.
pub proof fn law_both_attributes_select_both_getters(
    field: FieldView,
    swapped: bool,
    outcomes: Seq<AttributeOutcome>,
)
    requires
        field.field.ident is Some,
        !swapped ==> field.field.attrs == seq![flag("get"@), flag("get_mut"@)],
        swapped ==> field.field.attrs == seq![flag("get_mut"@), flag("get"@)],
    ensures
        resolution(field, outcomes) == Ok::<GetterOptionView, OptionParseErrorView>(
            GetterOptionView {
                field: FieldInformationView::of_field(field),
                which: WhichGetterView::Both {
                    immutable: ImmutableGetterOptionView::initial(),
                    mutable: MutableGetterOptionView::initial(),
                },
            },
        ),
{
    lemma_lengths();
    let attrs = field.field.attrs;
    let i = WhichGetterView::Immutable(ImmutableGetterOptionView::initial());
    let m = WhichGetterView::Mutable(MutableGetterOptionView::initial());
    let both = WhichGetterView::Both {
        immutable: ImmutableGetterOptionView::initial(),
        mutable: MutableGetterOptionView::initial(),
    };
    assert(flag("get"@)->Path_0.ident() == Some("get"@));
    assert(flag("get_mut"@)->Path_0.ident() == Some("get_mut"@));
    let first = if swapped {
        m
    } else {
        i
    };
    assert(resolved(attrs, outcomes, 0) == Ok::<Option<WhichGetterView>, OptionParseErrorView>(
        None,
    ));
    assert(attribute(None, attrs[0], outcomes[0]) == Ok::<
        Option<WhichGetterView>,
        OptionParseErrorView,
    >(Some(first)));
    assert(resolved(attrs, outcomes, 1) == Ok::<Option<WhichGetterView>, OptionParseErrorView>(
        Some(first),
    ));
    assert(attribute(Some(first), attrs[1], outcomes[1]) == Ok::<
        Option<WhichGetterView>,
        OptionParseErrorView,
    >(Some(both)));
    assert(resolved(attrs, outcomes, 2) == Ok::<Option<WhichGetterView>, OptionParseErrorView>(
        Some(both),
    ));
    let information = FieldInformationView::of_field(field);
    assert(both.named(information));
    assert(validation(both, information) == Ok::<(), OptionValidationError>(()));
}

/// Deriving on a struct without fields fails with the one message of a
/// fieldless struct, whatever the shape of the struct.
pub proof fn law_fieldless_struct_is_rejected(
    fields: FieldsView,
    outcomes: Seq<Seq<AttributeOutcome>>,
)
    requires
        fields.list().len() == 0,
    ensures
        derivation(DataView::Struct(fields), outcomes) == DerivedView::Failure(
            fieldless_message(),
        ),
        derivation(DataView::Struct(FieldsView::Unit), outcomes) == DerivedView::Failure(
            fieldless_message(),
        ),
{
}

/// Attributes that are not named after a getter leave the selection empty.
proof fn lemma_unrelated_attributes(
    attrs: Seq<AnnotationView>,
    outcomes: Seq<AttributeOutcome>,
    n: int,
)
    requires
        0 <= n <= attrs.len(),
        forall|k: int| 0 <= k < attrs.len() ==> !is_getter_attribute((#[trigger] attrs[k]).path()),
    ensures
        resolved(attrs, outcomes, n) == Ok::<Option<WhichGetterView>, OptionParseErrorView>(None),
    decreases n,
{
    if n > 0 {
        lemma_unrelated_attributes(attrs, outcomes, n - 1);
        assert(!is_getter_attribute(attrs[n - 1].path()));
        assert(attribute(None, attrs[n - 1], outcomes[n - 1]) == Ok::<
            Option<WhichGetterView>,
            OptionParseErrorView,
        >(None));
    }
}

/// A field none of whose attributes is named after a getter contributes
/// nothing: neither a declaration nor a diagnostic.
pub proof fn law_unannotated_field_is_skipped(
    declaration: FieldDeclarationView,
    index: nat,
    outcomes: Seq<AttributeOutcome>,
)
    requires
        forall|k: int|
            0 <= k < declaration.attrs.len() ==> !is_getter_attribute(
                (#[trigger] declaration.attrs[k]).path(),
            ),
    ensures
        resolution(FieldView { field: declaration, index }, outcomes) == Err::<
            GetterOptionView,
            OptionParseErrorView,
        >(OptionParseErrorView::NotFound),
        field_output(declaration, index, outcomes) is None,
{
    lemma_unrelated_attributes(declaration.attrs, outcomes, declaration.attrs.len() as int);
}

/// A struct of one annotated field followed by one field without attributes
/// gives what the annotated field alone gives.
pub proof fn law_bare_field_adds_nothing(
    annotated: FieldDeclarationView,
    bare: FieldDeclarationView,
    outcomes: Seq<Seq<AttributeOutcome>>,
)
    requires
        bare.attrs.len() == 0,
    ensures
        outputs(seq![annotated, bare], outcomes, 2) == outputs(seq![annotated], outcomes, 1),
        derivation(DataView::Struct(FieldsView::Named(seq![annotated, bare])), outcomes)
            == derivation(DataView::Struct(FieldsView::Named(seq![annotated])), outcomes),
{
    law_unannotated_field_is_skipped(bare, 1, outcomes[1]);
    let two = seq![annotated, bare];
    let one = seq![annotated];
    assert(two[1] == bare);
    assert(two[0] == annotated);
    assert(one[0] == annotated);
    assert(outputs(two, outcomes, 0) == outputs(one, outcomes, 0));
    assert(outputs(two, outcomes, 1) == outputs(one, outcomes, 1));
    assert(outputs(two, outcomes, 2) == outputs(two, outcomes, 1));
}

/// A field whose first attribute has the shape `name = value` and is named
/// after a getter gives the error of the unsupported form and the diagnostic
/// of it, whatever the value, the other attributes and the field are.
pub proof fn law_name_value_attribute_is_refused(field: FieldView, outcomes: Seq<AttributeOutcome>)
    requires
        field.field.attrs.len() > 0,
        field.field.attrs[0] is NameValue,
        is_getter_attribute(field.field.attrs[0].path()),
    ensures
        resolution(field, outcomes) == Err::<GetterOptionView, OptionParseErrorView>(
            OptionParseErrorView::NameValue,
        ),
        field_output(field.field, field.index, outcomes) == Some(
            FieldOutputView::Diagnostic(field_message(OptionParseErrorView::NameValue)),
        ),
{
    let attrs = field.field.attrs;
    assert(resolved(attrs, outcomes, 0) == Ok::<Option<WhichGetterView>, OptionParseErrorView>(
        None,
    ));
    assert(attribute(None, attrs[0], outcomes[0]) == Err::<
        Option<WhichGetterView>,
        OptionParseErrorView,
    >(OptionParseErrorView::NameValue));
    assert(resolved(attrs, outcomes, 1) is Err);
    lemma_resolved_error_stays(attrs, outcomes, 1, attrs.len() as int);
    assert(FieldView { field: field.field, index: field.index } == field);
}

} // verus!
