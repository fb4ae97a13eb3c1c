//! The option compiler behind the accessor derive: for each field of a
//! struct it resolves the attributes `#[get]` and `#[get_mut]` into a
//! configuration and emits the text of the getters, or a diagnostic.

pub mod attribute_option;
pub mod const_ty;
pub mod error;
pub mod field;
pub mod getter_option;
pub mod getter_ty;
pub mod host;
pub mod laws;
pub mod name;
pub mod option;
pub mod option_enum;
pub mod self_ty;
pub mod syntax;
pub mod visibility;
pub mod which_getter;

use vstd::prelude::*;
use vstd::string::*;

pub use self::attribute_option::{ParseOption, ParseOptionUtils};
pub use self::error::OptionParseError;
use self::error::OptionParseErrorView;
use self::field::{Field, FieldDeclaration, FieldDeclarationView, FieldView};
use self::getter_option::{resolution, resolution_view, AttributeOutcome, GetterOption};
pub use self::option::{AccessorCode, AccessorCodeView};
pub use self::option::{ImmutableGetterOption, MutableGetterOption};
pub use self::visibility::Visibility;
use self::which_getter::codes_view;
use crate::text::join;

verus! {

/// The fields of a struct, by the shape of the struct.
#[derive(Debug, Clone, PartialEq, Eq)]
pub enum Fields {
    /// the fields of a struct with braces, each with an identifier
    Named(Vec<FieldDeclaration>),
    /// the fields of a tuple struct
    Unnamed(Vec<FieldDeclaration>),
    /// a unit struct
    Unit,
}

/// What the derive is applied to.
#[derive(Debug, Clone, PartialEq, Eq)]
pub enum Data {
    /// a struct, with its fields
    Struct(Fields),
    /// an enum
    Enum,
    /// a union
    Union,
}

/// What a sequence of [`FieldDeclaration`] holds.
pub open spec fn declarations_view(fields: Seq<FieldDeclaration>) -> Seq<FieldDeclarationView> {
    fields.map_values(|f: FieldDeclaration| f@)
}

/// What a [`Fields`] holds.
pub enum FieldsView {
    /// the fields of a struct with braces, each with an identifier
    Named(Seq<FieldDeclarationView>),
    /// the fields of a tuple struct
    Unnamed(Seq<FieldDeclarationView>),
    /// a unit struct
    Unit,
}

impl View for Fields {
    type V = FieldsView;

    open spec fn view(&self) -> FieldsView {
        match self {
            Fields::Named(fields) => FieldsView::Named(declarations_view(fields@)),
            Fields::Unnamed(fields) => FieldsView::Unnamed(declarations_view(fields@)),
            Fields::Unit => FieldsView::Unit,
        }
    }
}

impl FieldsView {
    /// The fields in order; none for a unit struct.
    pub open spec fn list(self) -> Seq<FieldDeclarationView> {
        match self {
            FieldsView::Named(fields) => fields,
            FieldsView::Unnamed(fields) => fields,
            FieldsView::Unit => Seq::empty(),
        }
    }
}

/// What a [`Data`] holds.
pub enum DataView {
    /// a struct, with its fields
    Struct(FieldsView),
    /// an enum
    Enum,
    /// a union
    Union,
}

impl View for Data {
    type V = DataView;

    open spec fn view(&self) -> DataView {
        match self {
            Data::Struct(fields) => DataView::Struct(fields@),
            Data::Enum => DataView::Enum,
            Data::Union => DataView::Union,
        }
    }
}

/// What one field contributes to the generated implementation.
#[derive(Debug, Clone, PartialEq, Eq)]
pub enum FieldOutput {
    /// the getters of the field
    Getters(Vec<AccessorCode>),
    /// the message of a compile error to raise for the field
    Diagnostic(String),
}

/// What a [`FieldOutput`] holds.
pub enum FieldOutputView {
    /// the getters of the field
    Getters(Seq<AccessorCodeView>),
    /// the message of a compile error to raise for the field
    Diagnostic(Seq<char>),
}

impl View for FieldOutput {
    type V = FieldOutputView;

    open spec fn view(&self) -> FieldOutputView {
        match self {
            FieldOutput::Getters(codes) => FieldOutputView::Getters(codes_view(codes@)),
            FieldOutput::Diagnostic(message) => FieldOutputView::Diagnostic(message@),
        }
    }
}

/// What a sequence of [`FieldOutput`] holds.
pub open spec fn outputs_view(outputs: Seq<FieldOutput>) -> Seq<FieldOutputView> {
    outputs.map_values(|o: FieldOutput| o@)
}

/// What the derive gives.
#[derive(Debug, Clone, PartialEq, Eq)]
pub enum Derived {
    /// the content of the implementation block to generate: what each field
    /// contributes, in the order of the fields
    Implementation(Vec<FieldOutput>),
    /// the message of the one compile error to raise in place of an
    /// implementation
    Failure(String),
}

/// What a [`Derived`] holds.
pub enum DerivedView {
    /// the content of the implementation block to generate
    Implementation(Seq<FieldOutputView>),
    /// the message of the one compile error to raise
    Failure(Seq<char>),
}

impl View for Derived {
    type V = DerivedView;

    open spec fn view(&self) -> DerivedView {
        match self {
            Derived::Implementation(outputs) => DerivedView::Implementation(
                outputs_view(outputs@),
            ),
            Derived::Failure(message) => DerivedView::Failure(message@),
        }
    }
}

/// The message of the error for a struct without fields.
pub open spec fn fieldless_message() -> Seq<char> {
    "The trait getter cannot be derive on fieldless struct."@
}

/// The message of the error for an enum.
pub open spec fn enum_message() -> Seq<char> {
    "It is not possible to derive getter for enums yet."@
}

/// The message of the error for a union.
pub open spec fn union_message() -> Seq<char> {
    "It is not possible to derive getter for unions yet."@
}

/// The message of the compile error that a field raises.
pub open spec fn field_message(error: OptionParseErrorView) -> Seq<char> {
    "error parsing option: "@ + error.text()
}

/// What the field at a position contributes, given what the parser of the
/// host language answered on each of its attributes: its getters; nothing,
/// where no attribute of it selects a getter; or else a diagnostic.
pub open spec fn field_output(
    declaration: FieldDeclarationView,
    index: nat,
    outcomes: Seq<AttributeOutcome>,
) -> Option<FieldOutputView> {
    match resolution(FieldView { field: declaration, index }, outcomes) {
        Ok(option) => Some(FieldOutputView::Getters(option.which.code(option.field))),
        Err(OptionParseErrorView::NotFound) => None,
        Err(error) => Some(FieldOutputView::Diagnostic(field_message(error))),
    }
}

/// What the first `n` fields contribute, in order, given what the parser
/// answered on the attributes of each field.
pub open spec fn outputs(
    fields: Seq<FieldDeclarationView>,
    outcomes: Seq<Seq<AttributeOutcome>>,
    n: int,
) -> Seq<FieldOutputView>
    decreases n,
{
    if n <= 0 {
        Seq::empty()
    } else {
        match field_output(fields[n - 1], (n - 1) as nat, outcomes[n - 1]) {
            Some(output) => outputs(fields, outcomes, n - 1).push(output),
            None => outputs(fields, outcomes, n - 1),
        }
    }
}

/// What the first `n` fields contribute depends on the answers to these
/// fields alone.
pub proof fn lemma_outputs_read_the_first(
    fields: Seq<FieldDeclarationView>,
    first: Seq<Seq<AttributeOutcome>>,
    second: Seq<Seq<AttributeOutcome>>,
    n: int,
)
    requires
        forall|k: int| 0 <= k < n ==> first[k] == second[k],
    ensures
        outputs(fields, first, n) == outputs(fields, second, n),
    decreases n,
{
    if n > 0 {
        lemma_outputs_read_the_first(fields, first, second, n - 1);
        assert(first[n - 1] == second[n - 1]);
    }
}

/// What the derive gives, given what the parser of the host language
/// answered on the attributes of each field: a failure for an enum, for a
/// union and for a struct without fields; a failure where no field
/// contributes anything; or else what the fields contribute.
pub open spec fn derivation(data: DataView, outcomes: Seq<Seq<AttributeOutcome>>) -> DerivedView {
    match data {
        DataView::Enum => DerivedView::Failure(enum_message()),
        DataView::Union => DerivedView::Failure(union_message()),
        DataView::Struct(fields) => {
            let list = fields.list();
            if list.len() == 0 {
                DerivedView::Failure(fieldless_message())
            } else if outputs(list, outcomes, list.len() as int).len() == 0 {
                DerivedView::Failure(OptionParseErrorView::NotFound.text())
            } else {
                DerivedView::Implementation(outputs(list, outcomes, list.len() as int))
            }
        },
    }
}

/// What the fields contribute, in order.
fn derive_fields(fields: Vec<FieldDeclaration>) -> (r: Vec<FieldOutput>)
    ensures
        exists|outcomes: Seq<Seq<AttributeOutcome>>|
            outputs_view(r@) == #[trigger] outputs(
                declarations_view(fields@),
                outcomes,
                fields@.len() as int,
            ),
{
    let ghost all = declarations_view(fields@);
    let ghost mut outcomes: Seq<Seq<AttributeOutcome>> = Seq::empty();
    assert(all.len() == fields.len());
    let mut rest = fields;
    let mut out: Vec<FieldOutput> = Vec::new();
    let mut index: usize = 0;
    assert(outputs_view(out@) =~= outputs(all, outcomes, 0));
    while rest.len() > 0
        invariant
            all.len() <= usize::MAX,
            index + rest@.len() == all.len(),
            outcomes.len() == index,
            forall|k: int| 0 <= k < rest@.len() ==> (#[trigger] rest@[k])@ == all[index + k],
            outputs_view(out@) == outputs(all, outcomes, index as int),
        decreases rest@.len(),
    {
        let declaration = rest.remove(0);
        assert(declaration@ == all[index as int]);
        let field = Field::new(declaration, index);
        let ghost before = out@;
        let ghost known = outcomes;
        let ghost of_field = field@;
        let parsed = GetterOption::parse(field);
        proof {
            let answers = choose|answers: Seq<AttributeOutcome>|
                resolution_view(parsed) == #[trigger] resolution(of_field, answers);
            outcomes = known.push(answers);
            lemma_outputs_read_the_first(all, known, outcomes, index as int);
            assert(outcomes[index as int] == answers);
            assert(of_field == (FieldView { field: all[index as int], index: index as nat }));
        }
        match parsed {
            Ok(option) => {
                out.push(FieldOutput::Getters(option.to_code()));
                assert(outputs_view(out@) =~= outputs_view(before).push(out@.last()@));
            },
            Err(OptionParseError::NotFound) => {},
            Err(err) => {
                let message = err.message();
                out.push(FieldOutput::Diagnostic(join("error parsing option: ", message.as_str())));
                assert(outputs_view(out@) =~= outputs_view(before).push(out@.last()@));
            },
        }
        index += 1;
    }
    out
}

/// Derive getter: the content of the implementation block for a struct, or
/// the message of a compile error. What is returned is what the derive gives
/// for some answers of the parser of the host language on the attributes of
/// each field; for an enum, a union and a struct without fields it does not
/// depend on the parser.
pub fn derive(data: Data) -> (r: Derived)
    ensures
        exists|outcomes: Seq<Seq<AttributeOutcome>>| r@ == #[trigger] derivation(data@, outcomes),
        !(data@ matches DataView::Struct(fields) && fields.list().len() > 0) ==> forall|
            outcomes: Seq<Seq<AttributeOutcome>>,
        |
            r@ == #[trigger] derivation(data@, outcomes),
{
    let ghost given = data@;
    let fields = match data {
        Data::Struct(Fields::Named(fields)) => fields,
        Data::Struct(Fields::Unnamed(fields)) => fields,
        Data::Struct(Fields::Unit) => {
            return Derived::Failure(
                String::from_str("The trait getter cannot be derive on fieldless struct."),
            );
        },
        Data::Enum => {
            return Derived::Failure(
                String::from_str("It is not possible to derive getter for enums yet."),
            );
        },
        Data::Union => {
            return Derived::Failure(
                String::from_str("It is not possible to derive getter for unions yet."),
            );
        },
    };
    if fields.len() == 0 {
        return Derived::Failure(
            String::from_str("The trait getter cannot be derive on fieldless struct."),
        );
    }
    let ghost list = declarations_view(fields@);
    let vec = derive_fields(fields);
    let ghost outcomes = choose|outcomes: Seq<Seq<AttributeOutcome>>|
        outputs_view(vec@) == #[trigger] outputs(list, outcomes, list.len() as int);
    let r = if vec.len() == 0 {
        Derived::Failure(OptionParseError::NotFound.message())
    } else {
        Derived::Implementation(vec)
    };
    assert(r@ == derivation(given, outcomes));
    r
}

} // verus!
