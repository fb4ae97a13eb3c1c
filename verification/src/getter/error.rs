//! Contains the different error definitions

use vstd::prelude::*;
use vstd::string::*;

use super::option_enum::{ImmutableOptionList, MutableOptionList, OptionList};

verus! {

/// Parse error that should not cause compile error. It is just way of reporting
/// that the parsed stream is not describing a given option. But that we should
/// try for another option.
///
/// It is a recoverable error
#[derive(Debug, Clone, Copy, PartialEq, Eq, Structural, Hash, PartialOrd, Ord)]
pub enum AcceptableParseError {
    /// There is no assignment and the path is not recognized for this option.
    PathNotRecognized,
    /// Left hand side value in assignment is not recognized for this option.
    LeftHandSideValueNotRecognized,
}

impl AcceptableParseError {
    /// The text of the error.
    pub open spec fn text(self) -> Seq<char> {
        match self {
            AcceptableParseError::PathNotRecognized => "there is no assignment and the path is not recognized for this option"@,
            AcceptableParseError::LeftHandSideValueNotRecognized => "left hand side value in assignment is not recognized for this option"@,
        }
    }

    /// The text of the error.
    pub fn message(&self) -> (r: String)
        ensures
            r@ == self.text(),
    {
        match self {
            Self::PathNotRecognized => String::from_str(
                "there is no assignment and the path is not recognized for this option",
            ),
            Self::LeftHandSideValueNotRecognized => String::from_str(
                "left hand side value in assignment is not recognized for this option",
            ),
        }
    }
}

/// Unrecoverable error that should be reported in a compile error.
#[derive(Debug, Clone, PartialEq, Eq)]
pub enum UnacceptableParseError {
    /// The left hand side path in an assignment has multiple section and is therefore not a ident
    LeftHandSideValuePathIsNotIdent,
    /// Right hand value in assignment is misformed or invalid
    RightHandValueInvalid,
    /// The right hand side value is not a literal string when it is expected
    RightHandNameValueExprNotLitString,
    /// The parenthesized argument is no single identifier: the message of the parser
    IdentParseError(String),
}

/// What an [`UnacceptableParseError`] holds.
pub enum UnacceptableParseErrorView {
    /// The left hand side path in an assignment has multiple section and is therefore not a ident
    LeftHandSideValuePathIsNotIdent,
    /// Right hand value in assignment is misformed or invalid
    RightHandValueInvalid,
    /// The right hand side value is not a literal string when it is expected
    RightHandNameValueExprNotLitString,
    /// The parenthesized argument is no single identifier: the message of the parser
    IdentParseError(Seq<char>),
}

impl View for UnacceptableParseError {
    type V = UnacceptableParseErrorView;

    open spec fn view(&self) -> UnacceptableParseErrorView {
        match self {
            UnacceptableParseError::LeftHandSideValuePathIsNotIdent => UnacceptableParseErrorView::LeftHandSideValuePathIsNotIdent,
            UnacceptableParseError::RightHandValueInvalid => UnacceptableParseErrorView::RightHandValueInvalid,
            UnacceptableParseError::RightHandNameValueExprNotLitString => UnacceptableParseErrorView::RightHandNameValueExprNotLitString,
            UnacceptableParseError::IdentParseError(message) => UnacceptableParseErrorView::IdentParseError(message@),
        }
    }
}

impl UnacceptableParseErrorView {
    /// The text of the error.
    pub open spec fn text(self) -> Seq<char> {
        match self {
            UnacceptableParseErrorView::RightHandValueInvalid => "right hand value in assignment is misformed or invalid"@,
            UnacceptableParseErrorView::IdentParseError(message) => "syn ident parse error: "@
                + message,
            UnacceptableParseErrorView::LeftHandSideValuePathIsNotIdent => "the left hand side path in an assignment has multiple section and is therefore not a ident"@,
            UnacceptableParseErrorView::RightHandNameValueExprNotLitString => "the right hand side value is not a literal string when it is expected"@,
        }
    }
}

impl UnacceptableParseError {
    /// The text of the error.
    pub fn message(&self) -> (r: String)
        ensures
            r@ == self@.text(),
    {
        match self {
            Self::RightHandValueInvalid => String::from_str(
                "right hand value in assignment is misformed or invalid",
            ),
            Self::IdentParseError(message) => crate::text::join(
                "syn ident parse error: ",
                message.as_str(),
            ),
            Self::LeftHandSideValuePathIsNotIdent => String::from_str(
                "the left hand side path in an assignment has multiple section and is therefore not a ident",
            ),
            Self::RightHandNameValueExprNotLitString => String::from_str(
                "the right hand side value is not a literal string when it is expected",
            ),
        }
    }
}

/// Error given while trying to parse a option of a field attribute.
/// It could be that it is not applicable for the option and give [`Self::Acceptable`].
/// Or [`Self::Unacceptable`] means that the error is not recoverable and
/// should lead to a compile error.
#[derive(Debug, Clone, PartialEq, Eq)]
pub enum ParseAttributeOptionError {
    /// Recoverable error that just signal that the option wasn't found by this attribute,
    /// see [`AcceptableParseError`].
    Acceptable(AcceptableParseError),
    /// Unrecoverable error that should lead to a compile error. This usually means an
    /// error in the parsing, see [`UnacceptableParseError`].
    Unacceptable(UnacceptableParseError),
}

/// What a [`ParseAttributeOptionError`] holds.
pub enum ParseAttributeOptionErrorView {
    /// Recoverable error
    Acceptable(AcceptableParseError),
    /// Unrecoverable error
    Unacceptable(UnacceptableParseErrorView),
}

impl View for ParseAttributeOptionError {
    type V = ParseAttributeOptionErrorView;

    open spec fn view(&self) -> ParseAttributeOptionErrorView {
        match self {
            ParseAttributeOptionError::Acceptable(error) => ParseAttributeOptionErrorView::Acceptable(*error),
            ParseAttributeOptionError::Unacceptable(error) => ParseAttributeOptionErrorView::Unacceptable(error@),
        }
    }
}

impl ParseAttributeOptionErrorView {
    /// The text of the error.
    pub open spec fn text(self) -> Seq<char> {
        match self {
            ParseAttributeOptionErrorView::Acceptable(error) => error.text(),
            ParseAttributeOptionErrorView::Unacceptable(error) => error.text(),
        }
    }
}

impl ParseAttributeOptionError {
    /// The text of the error.
    pub fn message(&self) -> (r: String)
        ensures
            r@ == self@.text(),
    {
        match self {
            Self::Acceptable(error) => error.message(),
            Self::Unacceptable(error) => error.message(),
        }
    }
}

/// The text `got error {error} while parsing option {option}`.
pub open spec fn while_parsing_text(error: Seq<char>, option: Seq<char>) -> Seq<char> {
    "got error "@ + error + " while parsing option "@ + option
}

/// The text `got error {error} while parsing option {option}`.
fn while_parsing(error: &str, option: &str) -> (r: String)
    ensures
        r@ == while_parsing_text(error@, option@),
{
    let mut out = String::from_str("got error ");
    out.append(error);
    out.append(" while parsing option ");
    out.append(option);
    out
}

/// Error returned when a configuration is offered one argument. The argument
/// may belong to no option of the configuration ([`Self::Acceptable`]), in
/// which case it is skipped, or be aimed at the option `T` and be malformed
/// ([`Self::Unacceptable`]).
#[derive(Debug, Clone, PartialEq, Eq)]
pub enum AddConfigError<T: OptionList> {
    /// Recoverable error. This means that no option for this attribute was found
    /// and therefore it was skipped
    Acceptable(AcceptableParseError),
    /// Error while trying to add given configuration.
    Unacceptable(UnacceptableParseError, T),
}

/// What an [`AddConfigError`] holds.
pub enum AddConfigErrorView<T> {
    /// Recoverable error
    Acceptable(AcceptableParseError),
    /// Error while trying to add given configuration.
    Unacceptable(UnacceptableParseErrorView, T),
}

impl<T: OptionList> View for AddConfigError<T> {
    type V = AddConfigErrorView<T>;

    open spec fn view(&self) -> AddConfigErrorView<T> {
        match self {
            AddConfigError::Acceptable(error) => AddConfigErrorView::Acceptable(*error),
            AddConfigError::Unacceptable(error, option) => AddConfigErrorView::Unacceptable(
                error@,
                *option,
            ),
        }
    }
}

impl<T: OptionList> AddConfigErrorView<T> {
    /// The text of the error.
    pub open spec fn text(self) -> Seq<char> {
        match self {
            AddConfigErrorView::Acceptable(error) => error.text(),
            AddConfigErrorView::Unacceptable(error, option) => while_parsing_text(
                error.text(),
                option.label(),
            ),
        }
    }
}

impl<T: OptionList> AddConfigError<T> {
    /// The text of the error.
    pub fn message(&self) -> (r: String)
        ensures
            r@ == self@.text(),
    {
        match self {
            Self::Acceptable(error) => error.message(),
            Self::Unacceptable(error, option) => {
                let error_text = error.message();
                let option_text = option.name();
                while_parsing(error_text.as_str(), option_text.as_str())
            },
        }
    }
}

/// Error returned when a configuration is accumulated from the arguments of
/// one attribute: an argument that is aimed at an option and malformed
/// ([`Self::AddConfigError`]), or an option that is set a second time
/// ([`Self::FieldAttributeOptionSetMultipleTimes`]).
#[derive(Debug, Clone, PartialEq, Eq)]
pub enum GetterParseError<T: OptionList> {
    /// Error while trying to add given configuration.
    AddConfigError(UnacceptableParseError, T),
    /// This attribute option is set multiple time we only accept it once.
    FieldAttributeOptionSetMultipleTimes(T),
}

/// What a [`GetterParseError`] holds.
pub enum GetterParseErrorView<T> {
    /// Error while trying to add given configuration.
    AddConfigError(UnacceptableParseErrorView, T),
    /// This attribute option is set multiple time we only accept it once.
    FieldAttributeOptionSetMultipleTimes(T),
}

impl<T: OptionList> View for GetterParseError<T> {
    type V = GetterParseErrorView<T>;

    open spec fn view(&self) -> GetterParseErrorView<T> {
        match self {
            GetterParseError::AddConfigError(error, option) => GetterParseErrorView::AddConfigError(
                error@,
                *option,
            ),
            GetterParseError::FieldAttributeOptionSetMultipleTimes(option) => GetterParseErrorView::FieldAttributeOptionSetMultipleTimes(*option),
        }
    }
}

impl<T: OptionList> GetterParseErrorView<T> {
    /// The text of the error.
    pub open spec fn text(self) -> Seq<char> {
        match self {
            GetterParseErrorView::FieldAttributeOptionSetMultipleTimes(option) => option.label()
                + " is set multiple times"@,
            GetterParseErrorView::AddConfigError(error, option) => while_parsing_text(
                error.text(),
                option.label(),
            ),
        }
    }
}

impl GetterParseErrorView<MutableOptionList> {
    /// The same error, told of the options of the immutable getter.
    pub open spec fn widen(self) -> GetterParseErrorView<ImmutableOptionList> {
        match self {
            GetterParseErrorView::FieldAttributeOptionSetMultipleTimes(option) => GetterParseErrorView::FieldAttributeOptionSetMultipleTimes(
                ImmutableOptionList::MutableOption(option),
            ),
            GetterParseErrorView::AddConfigError(error, option) => GetterParseErrorView::AddConfigError(
                error,
                ImmutableOptionList::MutableOption(option),
            ),
        }
    }
}

impl<T: OptionList> GetterParseError<T> {
    /// The text of the error.
    pub fn message(&self) -> (r: String)
        ensures
            r@ == self@.text(),
    {
        match self {
            Self::FieldAttributeOptionSetMultipleTimes(option) => {
                let mut out = option.name();
                out.append(" is set multiple times");
                out
            },
            Self::AddConfigError(error, option) => {
                let error_text = error.message();
                let option_text = option.name();
                while_parsing(error_text.as_str(), option_text.as_str())
            },
        }
    }
}

impl GetterParseError<MutableOptionList> {
    /// The same error, told of the options of the immutable getter.
    pub fn widen(self) -> (r: GetterParseError<ImmutableOptionList>)
        ensures
            r@ == self@.widen(),
    {
        match self {
            GetterParseError::FieldAttributeOptionSetMultipleTimes(option) => GetterParseError::FieldAttributeOptionSetMultipleTimes(
                ImmutableOptionList::MutableOption(option),
            ),
            GetterParseError::AddConfigError(error, option) => GetterParseError::AddConfigError(
                error,
                ImmutableOptionList::MutableOption(option),
            ),
        }
    }
}

/// Error return by validation function that verify the integrity of the configuration.
#[derive(Debug, Clone, Copy, PartialEq, Eq, Structural, Hash, PartialOrd, Ord)]
pub enum OptionValidationError {
    /// name = \"#\" is missing and there is no default name for tuple struct
    FunctionNameMissing,
    /// self_ty is value but getter_ty is reference which is not valid,
    /// it create a dandling reference which the borrow checker reject
    SelfMoveOnReturnRef,
}

impl OptionValidationError {
    /// The text of the error.
    pub open spec fn text(self) -> Seq<char> {
        match self {
            OptionValidationError::FunctionNameMissing => "name = \"#\" is missing and there is no default name for tuple struct"@,
            OptionValidationError::SelfMoveOnReturnRef => "self_ty is value but getter_ty is reference which is not valid, it create a dandling reference which the borrow checker reject"@,
        }
    }

    /// The text of the error.
    pub fn message(&self) -> (r: String)
        ensures
            r@ == self.text(),
    {
        match self {
            Self::FunctionNameMissing => String::from_str(
                "name = \"#\" is missing and there is no default name for tuple struct",
            ),
            Self::SelfMoveOnReturnRef => String::from_str(
                "self_ty is value but getter_ty is reference which is not valid, it create a dandling reference which the borrow checker reject",
            ),
        }
    }
}

/// Error of resolving the attributes of one field.
#[derive(Debug, Clone, PartialEq, Eq)]
pub enum OptionParseError {
    /// the attribute is a name value which is not supported yet
    NameValue,
    /// no attribute found
    NotFound,
    /// The arguments of an attribute do not parse: the message of the parser
    ExprParseError(String),
    /// Error while parsing option for getter in the filed attribute
    GetterParseError(GetterParseError<ImmutableOptionList>),
    /// Error during the validation of the option, see [`OptionValidationError`]
    OptionValidationError(OptionValidationError),
}

/// What an [`OptionParseError`] holds.
pub enum OptionParseErrorView {
    /// the attribute is a name value which is not supported yet
    NameValue,
    /// no attribute found
    NotFound,
    /// The arguments of an attribute do not parse: the message of the parser
    ExprParseError(Seq<char>),
    /// Error while parsing option for getter in the filed attribute
    GetterParseError(GetterParseErrorView<ImmutableOptionList>),
    /// Error during the validation of the option
    OptionValidationError(OptionValidationError),
}

impl View for OptionParseError {
    type V = OptionParseErrorView;

    open spec fn view(&self) -> OptionParseErrorView {
        match self {
            OptionParseError::NameValue => OptionParseErrorView::NameValue,
            OptionParseError::NotFound => OptionParseErrorView::NotFound,
            OptionParseError::ExprParseError(message) => OptionParseErrorView::ExprParseError(
                message@,
            ),
            OptionParseError::GetterParseError(error) => OptionParseErrorView::GetterParseError(
                error@,
            ),
            OptionParseError::OptionValidationError(error) => OptionParseErrorView::OptionValidationError(*error),
        }
    }
}

impl OptionParseErrorView {
    /// The text of the error.
    pub open spec fn text(self) -> Seq<char> {
        match self {
            OptionParseErrorView::NameValue => "field attribute is not supported in name value mode, please refer to the documentation"@,
            OptionParseErrorView::NotFound => "attribute #[get] or #[get_mut] not found"@,
            OptionParseErrorView::ExprParseError(message) => message,
            OptionParseErrorView::GetterParseError(error) => error.text(),
            OptionParseErrorView::OptionValidationError(error) => error.text(),
        }
    }
}

impl OptionParseError {
    /// The text of the error.
    pub fn message(&self) -> (r: String)
        ensures
            r@ == self@.text(),
    {
        match self {
            Self::NameValue => String::from_str(
                "field attribute is not supported in name value mode, please refer to the documentation",
            ),
            Self::NotFound => String::from_str("attribute #[get] or #[get_mut] not found"),
            Self::ExprParseError(message) => message.clone(),
            Self::GetterParseError(error) => error.message(),
            Self::OptionValidationError(error) => error.message(),
        }
    }
}

} // verus!
