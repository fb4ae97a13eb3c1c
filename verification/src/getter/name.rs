//! Contains [`FunctionName`]

use vstd::prelude::*;
use vstd::string::*;

use super::attribute_option::{
    get_string_literal, literal_view, option_view, or_invalid, ParseOptionUtils,
};
use super::error::{UnacceptableParseError, UnacceptableParseErrorView};
use super::field::{FieldName, FieldNameView};
use super::host::{is_xid_continue, is_xid_start, xid_continue, xid_start};
use super::syntax::{AnnotationValue, AnnotationValueView};
use crate::text::{join, str_eq};

verus! {

/// optional name of the getter
#[derive(Debug, PartialEq, Eq, Hash, PartialOrd, Ord)]
pub struct FunctionName {
    /// Wrapped ident value
    name: Option<String>,
}

impl View for FunctionName {
    type V = Option<Seq<char>>;

    closed spec fn view(&self) -> Option<Seq<char>> {
        match self.name {
            Some(name) => Some(name@),
            None => None,
        }
    }
}

impl Clone for FunctionName {
    fn clone(&self) -> (r: Self)
        ensures
            r@ == self@,
    {
        match &self.name {
            Some(name) => FunctionName { name: Some(name.clone()) },
            None => FunctionName { name: None },
        }
    }
}

impl Default for FunctionName {
    fn default() -> (r: Self)
        ensures
            r@ is None,
    {
        FunctionName { name: None }
    }
}

/// Whether a text is an identifier: it is not empty, it starts with `_` or
/// with a character of the property XID_Start, and it goes on with
/// characters of the property XID_Continue.
pub open spec fn is_identifier(text: Seq<char>) -> bool {
    &&& text.len() > 0
    &&& (text[0] == '_' || xid_start(text[0]))
    &&& forall|i: int| 0 < i < text.len() ==> xid_continue(#[trigger] text[i])
}

/// Whether a text is an identifier.
pub fn is_identifier_text(text: &str) -> (r: bool)
    ensures
        r == is_identifier(text@),
{
    let len: usize = text.unicode_len();
    if len == 0 {
        return false;
    }
    let first = text.get_char(0);
    if !(first == '_' || is_xid_start(first)) {
        return false;
    }
    let mut i: usize = 1;
    while i < len
        invariant
            1 <= i <= len,
            len == text@.len(),
            forall|k: int| 0 < k < i ==> xid_continue(#[trigger] text@[k]),
        decreases len - i,
    {
        if !is_xid_continue(text.get_char(i)) {
            return false;
        }
        i += 1;
    }
    true
}

/// The name that a text gives to a getter: the text, where it is an
/// identifier.
pub open spec fn name_of(text: Seq<char>) -> Option<Option<Seq<char>>> {
    if is_identifier(text) {
        Some(Some(text))
    } else {
        None
    }
}

/// The name of the immutable getter: the name that the option gives, or else
/// the identifier of the field.
pub open spec fn getter_name(name: Option<Seq<char>>, field: FieldNameView) -> Option<Seq<char>> {
    match name {
        Some(name) => Some(name),
        None => field.ident(),
    }
}

/// The name of the mutable getter: the name that the option gives, or else
/// the identifier of the field followed by `_mut`.
pub open spec fn getter_name_mut(name: Option<Seq<char>>, field: FieldNameView) -> Option<
    Seq<char>,
> {
    match name {
        Some(name) => Some(name),
        None => match field.ident() {
            Some(ident) => Some(ident + "_mut"@),
            None => None,
        },
    }
}

impl FunctionName {
    /// wrap a new optional name into a new [`Self`]
    pub fn new(name: Option<String>) -> (r: Self)
        ensures
            r@ == (match name {
                Some(name) => Some(name@),
                None => None,
            }),
    {
        Self { name }
    }

    /// The name that a text gives: the text, where it is an identifier.
    pub fn from_text(text: &str) -> (r: Option<Self>)
        ensures
            option_view(r) == name_of(text@),
    {
        if is_identifier_text(text) {
            Some(Self::new(Some(text.to_owned())))
        } else {
            None
        }
    }

    /// Get the getter function name. see [`Self::name`]
    fn ident<'a>(&'a self, field: &'a FieldName) -> (r: Option<&'a str>)
        ensures
            r is Some <==> getter_name(self@, field@) is Some,
            r matches Some(name) ==> Some(name@) == getter_name(self@, field@),
    {
        match &self.name {
            Some(name) => Some(name.as_str()),
            None => field.require_ident(),
        }
    }

    /// Get the getter function name.
    ///
    /// Return [`None`] if the field is identless and the name option is left unset.
    pub fn name<'a>(&'a self, field: &'a FieldName) -> (r: Option<&'a str>)
        ensures
            r is Some <==> getter_name(self@, field@) is Some,
            r matches Some(name) ==> Some(name@) == getter_name(self@, field@),
    {
        self.ident(field)
    }

    /// Get the mut getter function name.
    ///
    /// Return [`None`] if the field is identless and the name option is left unset.
    pub fn name_mut(&self, field: &FieldName) -> (r: Option<String>)
        ensures
            r is Some <==> getter_name_mut(self@, field@) is Some,
            r matches Some(name) ==> Some(name@) == getter_name_mut(self@, field@),
    {
        match &self.name {
            Some(name) => Some(name.clone()),
            None => match field.require_ident() {
                Some(ident) => Some(join(ident, "_mut")),
                None => None,
            },
        }
    }
}

impl ParseOptionUtils for FunctionName {
    /// A name is never a standalone flag.
    open spec fn recognize_bare(word: Seq<char>, is_path: bool) -> Option<Option<Seq<char>>> {
        None
    }

    /// An identifier on the right-hand side is taken as the name.
    open spec fn recognize_value(word: Seq<char>, is_path: bool) -> Option<Option<Seq<char>>> {
        name_of(word)
    }

    open spec fn is_trigger(word: Seq<char>) -> bool {
        word == "name"@
    }

    open spec fn recognize_literal(value: AnnotationValueView, is_path: bool) -> Result<
        Option<Seq<char>>,
        UnacceptableParseErrorView,
    > {
        match value {
            AnnotationValueView::Str(text) => or_invalid(name_of(text)),
            _ => Err(UnacceptableParseErrorView::RightHandNameValueExprNotLitString),
        }
    }

    fn parse_option_from_str(path: &str) -> (r: Option<Self>) {
        assert(option_view(None::<FunctionName>) == Self::recognize_bare(path@, true));
        None
    }

    fn parse_option_from_str_assignment(path: &str) -> (r: Option<Self>) {
        let r = Self::from_text(path);
        assert(option_view(r) == Self::recognize_value(path@, true));
        r
    }

    fn left_hand_path_accepted(path: &str) -> (r: bool) {
        str_eq(path, "name")
    }

    fn parse_literal(value: &AnnotationValue) -> (r: Result<Self, UnacceptableParseError>) {
        let r = match get_string_literal(value) {
            None => Err(UnacceptableParseError::RightHandNameValueExprNotLitString),
            Some(text) => match Self::from_text(text.as_str()) {
                Some(name) => Ok(name),
                None => Err(UnacceptableParseError::RightHandValueInvalid),
            },
        };
        assert(literal_view(r) == Self::recognize_literal(value@, true));
        r
    }
}

} // verus!
