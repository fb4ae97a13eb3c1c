//! Contains the trait [`ParseOptionUtils`] by which an option is read from
//! one annotation argument.
//!
//! An option is set in one of three shapes: a bare word, as `public` in
//! `#[get(public)]`; a name and a string, as in `#[get(visibility = "public")]`; or a
//! name and a parenthesized word, as in `#[get(visibility(public))]`. An
//! argument that is not aimed at the option gives an acceptable error: the
//! caller tries the next option. An argument that is aimed at the option and
//! is malformed gives an unacceptable error, which is reported.
//!
//! Where the parser of the host language is asked, what is returned is stated
//! for whatever the parser answered: the answer is a parameter of the
//! statement.

use vstd::prelude::*;

use super::error::{
    AcceptableParseError, ParseAttributeOptionError, ParseAttributeOptionErrorView,
    UnacceptableParseError, UnacceptableParseErrorView,
};
use super::host::{parse_word, text_result_view, Outcome};
use super::syntax::{
    Annotation, AnnotationPath, AnnotationPathView, AnnotationValue, AnnotationValueView,
    AnnotationView, NameValue, NameValueView, TokenList, TokenListView,
};

verus! {

/// What an optional value holds.
pub open spec fn option_view<T: View>(value: Option<T>) -> Option<T::V> {
    match value {
        Some(v) => Some(v@),
        None => None,
    }
}

/// What the result of reading an option holds.
pub open spec fn parse_view<T: View>(result: Result<T, ParseAttributeOptionError>) -> Result<
    T::V,
    ParseAttributeOptionErrorView,
> {
    match result {
        Ok(v) => Ok(v@),
        Err(error) => Err(error@),
    }
}

/// What the result of reading a literal holds.
pub open spec fn literal_view<T: View>(result: Result<T, UnacceptableParseError>) -> Result<
    T::V,
    UnacceptableParseErrorView,
> {
    match result {
        Ok(v) => Ok(v@),
        Err(error) => Err(error@),
    }
}

/// The text that a string literal denotes, if the value is one.
pub open spec fn string_literal(value: AnnotationValueView) -> Option<Seq<char>> {
    match value {
        AnnotationValueView::Str(text) => Some(text),
        _ => None,
    }
}

/// Get the text of a string literal if the value is one. Otherwise returns [`None`].
pub fn get_string_literal(value: &AnnotationValue) -> (r: Option<String>)
    ensures
        option_view(r) == string_literal(value@),
{
    match value {
        AnnotationValue::Str(text) => Some(text.clone()),
        _ => None,
    }
}

/// A value that was recognized, or the error of a right-hand side that is
/// no legal spelling.
pub open spec fn or_invalid<V>(value: Option<V>) -> Result<V, UnacceptableParseErrorView> {
    match value {
        Some(v) => Ok(v),
        None => Err(UnacceptableParseErrorView::RightHandValueInvalid),
    }
}

/// trait for option element that are parsed from an [`Annotation`]
///
/// The parameter `is_path` of the statements is the answer of the parser of
/// the host language to whether the scope of a restricted visibility is a
/// path; the options that have no scope do not read it.
pub trait ParseOptionUtils: Sized + View {
    /// The value that a word stands for as a standalone flag.
    spec fn recognize_bare(word: Seq<char>, is_path: bool) -> Option<Self::V>;

    /// The value that a word stands for on the right-hand side of an
    /// assignment or between parentheses.
    spec fn recognize_value(word: Seq<char>, is_path: bool) -> Option<Self::V>;

    /// Whether a word is a left-hand side that names this option.
    spec fn is_trigger(word: Seq<char>) -> bool;

    /// The value that the right-hand side of an assignment to this option
    /// stands for, or what is wrong with it.
    spec fn recognize_literal(value: AnnotationValueView, is_path: bool) -> Result<
        Self::V,
        UnacceptableParseErrorView,
    >;

    /// Try parse the option from a string
    fn parse_option_from_str(path: &str) -> (r: Option<Self>)
        ensures
            exists|is_path: bool| option_view(r) == #[trigger] Self::recognize_bare(path@, is_path),
    ;

    /// Try parse the option from a string in the case of an assignment
    fn parse_option_from_str_assignment(path: &str) -> (r: Option<Self>)
        ensures
            exists|is_path: bool|
                option_view(r) == #[trigger] Self::recognize_value(path@, is_path),
    ;

    /// return accepted value for the left hand element of the assignment.
    fn left_hand_path_accepted(path: &str) -> (r: bool)
        ensures
            r == Self::is_trigger(path@),
    ;

    /// Try parse the right-hand side of an assignment to this option.
    fn parse_literal(value: &AnnotationValue) -> (r: Result<Self, UnacceptableParseError>)
        ensures
            exists|is_path: bool|
                literal_view(r) == #[trigger] Self::recognize_literal(value@, is_path),
    ;
}

/// What a bare path resolves to: the value of its word, where the path is one
/// word and the word is a flag of the option.
pub open spec fn resolve_path<T: ParseOptionUtils>(path: AnnotationPathView, is_path: bool)
    -> Option<T::V> {
    match path.ident() {
        Some(word) => T::recognize_bare(word, is_path),
        None => None,
    }
}

/// What `name = value` resolves to.
pub open spec fn resolve_name_value<T: ParseOptionUtils>(
    name_value: NameValueView,
    is_path: bool,
) -> Result<T::V, ParseAttributeOptionErrorView> {
    match name_value.path.ident() {
        None => Err(
            ParseAttributeOptionErrorView::Unacceptable(
                UnacceptableParseErrorView::LeftHandSideValuePathIsNotIdent,
            ),
        ),
        Some(name) => if T::is_trigger(name) {
            match T::recognize_literal(name_value.value, is_path) {
                Ok(value) => Ok(value),
                Err(error) => Err(ParseAttributeOptionErrorView::Unacceptable(error)),
            }
        } else {
            Err(
                ParseAttributeOptionErrorView::Acceptable(
                    AcceptableParseError::LeftHandSideValueNotRecognized,
                ),
            )
        },
    }
}

/// What a parenthesized argument resolves to, given what parsing it as one
/// word gave.
pub open spec fn resolve_word<T: ParseOptionUtils>(
    word: Result<Seq<char>, Seq<char>>,
    is_path: bool,
) -> Result<T::V, ParseAttributeOptionErrorView> {
    match word {
        Ok(ident) => match T::recognize_value(ident, is_path) {
            Some(value) => Ok(value),
            None => Err(
                ParseAttributeOptionErrorView::Unacceptable(
                    UnacceptableParseErrorView::RightHandValueInvalid,
                ),
            ),
        },
        Err(message) => Err(
            ParseAttributeOptionErrorView::Unacceptable(
                UnacceptableParseErrorView::IdentParseError(message),
            ),
        ),
    }
}

/// What `name(tokens)` resolves to, given what the parser answered: where
/// the name is that of the option, what parsing the tokens as one word gave
/// decides.
pub open spec fn resolve_list<T: ParseOptionUtils>(list: TokenListView, outcome: Outcome) -> Result<
    T::V,
    ParseAttributeOptionErrorView,
> {
    match list.path.ident() {
        None => Err(
            ParseAttributeOptionErrorView::Unacceptable(
                UnacceptableParseErrorView::LeftHandSideValuePathIsNotIdent,
            ),
        ),
        Some(name) => if T::is_trigger(name) {
            resolve_word::<T>(outcome.word, outcome.is_path)
        } else {
            Err(
                ParseAttributeOptionErrorView::Acceptable(
                    AcceptableParseError::LeftHandSideValueNotRecognized,
                ),
            )
        },
    }
}

/// What an annotation argument resolves to for the option `T`, given what
/// the parser answered: the value that it sets, an acceptable error where it
/// is not aimed at the option, or an unacceptable error where it is aimed at
/// the option and malformed.
pub open spec fn resolve<T: ParseOptionUtils>(option: AnnotationView, outcome: Outcome) -> Result<
    T::V,
    ParseAttributeOptionErrorView,
> {
    match option {
        AnnotationView::Path(path) => match resolve_path::<T>(path, outcome.is_path) {
            Some(value) => Ok(value),
            None => Err(
                ParseAttributeOptionErrorView::Acceptable(AcceptableParseError::PathNotRecognized),
            ),
        },
        AnnotationView::NameValue(name_value) => resolve_name_value::<T>(
            name_value,
            outcome.is_path,
        ),
        AnnotationView::List(list) => resolve_list::<T>(list, outcome),
    }
}

/// Try parse an option from an [`AnnotationPath`] as the modifier
pub fn parse_from_path<T: ParseOptionUtils>(path: &AnnotationPath) -> (r: Option<T>)
    ensures
        exists|is_path: bool| option_view(r) == #[trigger] resolve_path::<T>(path@, is_path),
{
    match path.get_ident() {
        Some(ident) => {
            let r = parse_from_ident::<T>(ident);
            proof {
                let is_path = choose|is_path: bool|
                    option_view(r) == #[trigger] T::recognize_bare(ident@, is_path);
                assert(option_view(r) == resolve_path::<T>(path@, is_path));
            }
            r
        },
        None => {
            assert(option_view(None::<T>) == resolve_path::<T>(path@, true));
            None
        },
    }
}

/// Try parse an option from an identifier as the modifier
pub fn parse_from_ident<T: ParseOptionUtils>(ident: &str) -> (r: Option<T>)
    ensures
        exists|is_path: bool| option_view(r) == #[trigger] T::recognize_bare(ident@, is_path),
{
    T::parse_option_from_str(ident)
}

/// Try parse an option from an identifier as an assignment
pub fn parse_from_ident_assignment<T: ParseOptionUtils>(ident: &str) -> (r: Option<T>)
    ensures
        exists|is_path: bool| option_view(r) == #[trigger] T::recognize_value(ident@, is_path),
{
    T::parse_option_from_str_assignment(ident)
}

/// Try to parse the option element from an [`Annotation`]: [`Ok`] if the
/// argument sets the option, [`Err`] otherwise. What is returned is what the
/// argument resolves to for some answer of the parser.
pub fn parse_option_utils<T: ParseOptionUtils>(option: &Annotation) -> (r: Result<
    T,
    ParseAttributeOptionError,
>)
    ensures
        exists|outcome: Outcome| parse_view(r) == #[trigger] resolve::<T>(option@, outcome),
{
    match option {
        Annotation::Path(path) => {
            let found = parse_from_path::<T>(path);
            let ghost is_path = choose|is_path: bool|
                option_view(found) == #[trigger] resolve_path::<T>(path@, is_path);
            let r = match found {
                Some(value) => Ok(value),
                None => Err(
                    ParseAttributeOptionError::Acceptable(AcceptableParseError::PathNotRecognized),
                ),
            };
            assert(parse_view(r) == resolve::<T>(
                option@,
                Outcome { word: Err(Seq::empty()), is_path },
            ));
            r
        },
        Annotation::NameValue(name_value) => {
            let r = parse_name_value::<T>(name_value);
            proof {
                let is_path = choose|is_path: bool|
                    parse_view(r) == #[trigger] resolve_name_value::<T>(name_value@, is_path);
                assert(parse_view(r) == resolve::<T>(
                    option@,
                    Outcome { word: Err(Seq::empty()), is_path },
                ));
            }
            r
        },
        Annotation::List(meta_list) => {
            let r = parse_meta_list::<T>(meta_list);
            proof {
                let outcome = choose|outcome: Outcome|
                    parse_view(r) == #[trigger] resolve_list::<T>(meta_list@, outcome);
                assert(parse_view(r) == resolve::<T>(option@, outcome));
            }
            r
        },
    }
}

/// Try parse the rule from a [`NameValue`].
pub fn parse_name_value<T: ParseOptionUtils>(name_value: &NameValue) -> (r: Result<
    T,
    ParseAttributeOptionError,
>)
    ensures
        exists|is_path: bool|
            parse_view(r) == #[trigger] resolve_name_value::<T>(name_value@, is_path),
{
    match name_value.path.get_ident() {
        None => {
            let r = Err(
                ParseAttributeOptionError::Unacceptable(
                    UnacceptableParseError::LeftHandSideValuePathIsNotIdent,
                ),
            );
            assert(parse_view::<T>(r) == resolve_name_value::<T>(name_value@, true));
            r
        },
        Some(name) => {
            if T::left_hand_path_accepted(name) {
                let literal = T::parse_literal(&name_value.value);
                let ghost is_path = choose|is_path: bool|
                    literal_view(literal) == #[trigger] T::recognize_literal(
                        name_value@.value,
                        is_path,
                    );
                let r = match literal {
                    Ok(value) => Ok(value),
                    Err(error) => Err(ParseAttributeOptionError::Unacceptable(error)),
                };
                assert(parse_view(r) == resolve_name_value::<T>(name_value@, is_path));
                r
            } else {
                let r = Err(
                    ParseAttributeOptionError::Acceptable(
                        AcceptableParseError::LeftHandSideValueNotRecognized,
                    ),
                );
                assert(parse_view::<T>(r) == resolve_name_value::<T>(name_value@, true));
                r
            }
        },
    }
}

/// Try parse the option from what parsing a parenthesized argument as one
/// word gave.
pub fn parse_from_word<T: ParseOptionUtils>(word: Result<String, String>) -> (r: Result<
    T,
    ParseAttributeOptionError,
>)
    ensures
        exists|is_path: bool|
            parse_view(r) == #[trigger] resolve_word::<T>(text_result_view(word), is_path),
{
    match word {
        Ok(ident) => {
            let found = parse_from_ident_assignment::<T>(ident.as_str());
            let ghost is_path = choose|is_path: bool|
                option_view(found) == #[trigger] T::recognize_value(ident@, is_path);
            let r = match found {
                Some(value) => Ok(value),
                None => Err(
                    ParseAttributeOptionError::Unacceptable(
                        UnacceptableParseError::RightHandValueInvalid,
                    ),
                ),
            };
            assert(parse_view(r) == resolve_word::<T>(text_result_view(word), is_path));
            r
        },
        Err(message) => {
            let r = Err(
                ParseAttributeOptionError::Unacceptable(
                    UnacceptableParseError::IdentParseError(message),
                ),
            );
            assert(parse_view::<T>(r) == resolve_word::<T>(text_result_view(word), true));
            r
        },
    }
}

/// Try parse the rule from a [`TokenList`]: where the name is that of the
/// option, the parser of the host language is asked for the one word between
/// the parentheses, and [`parse_from_word`] decides on its answer.
pub fn parse_meta_list<T: ParseOptionUtils>(meta_list: &TokenList) -> (r: Result<
    T,
    ParseAttributeOptionError,
>)
    ensures
        exists|outcome: Outcome| parse_view(r) == #[trigger] resolve_list::<T>(meta_list@, outcome),
{
    match meta_list.path.get_ident() {
        None => {
            let r = Err(
                ParseAttributeOptionError::Unacceptable(
                    UnacceptableParseError::LeftHandSideValuePathIsNotIdent,
                ),
            );
            assert(parse_view::<T>(r) == resolve_list::<T>(
                meta_list@,
                Outcome { word: Err(Seq::empty()), is_path: true },
            ));
            r
        },
        Some(name) => {
            if T::left_hand_path_accepted(name) {
                let word = parse_word(meta_list.tokens.as_str());
                let r = parse_from_word::<T>(word);
                proof {
                    let is_path = choose|is_path: bool|
                        parse_view(r) == #[trigger] resolve_word::<T>(
                            text_result_view(word),
                            is_path,
                        );
                    assert(parse_view(r) == resolve_list::<T>(
                        meta_list@,
                        Outcome { word: text_result_view(word), is_path },
                    ));
                }
                r
            } else {
                let r = Err(
                    ParseAttributeOptionError::Acceptable(
                        AcceptableParseError::LeftHandSideValueNotRecognized,
                    ),
                );
                assert(parse_view::<T>(r) == resolve_list::<T>(
                    meta_list@,
                    Outcome { word: Err(Seq::empty()), is_path: true },
                ));
                r
            }
        },
    }
}

/// trait for option element that are parsed from an [`Annotation`]
pub trait ParseOption: ParseOptionUtils {
    /// try to parse the option element from an [`Annotation`]: [`Ok`] if the
    /// argument sets the option.
    fn parse_option(option: &Annotation) -> (r: Result<Self, ParseAttributeOptionError>)
        ensures
            exists|outcome: Outcome| parse_view(r) == #[trigger] resolve::<Self>(option@, outcome),
    ;
}

/// Every option that is read by [`ParseOptionUtils`] is parsed by
/// [`parse_option_utils`].
impl<T: ParseOptionUtils> ParseOption for T {
    fn parse_option(option: &Annotation) -> (r: Result<Self, ParseAttributeOptionError>) {
        parse_option_utils::<T>(option)
    }
}

} // verus!
