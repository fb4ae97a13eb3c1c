//! Module containing [`GetterTy`]

use vstd::prelude::*;
use vstd::string::*;

use super::attribute_option::{
    get_string_literal, literal_view, option_view, or_invalid, ParseOptionUtils,
};
use super::error::{UnacceptableParseError, UnacceptableParseErrorView};
use super::syntax::{AnnotationValue, AnnotationValueView};
use crate::text::str_eq;

verus! {

/// Getter type. By default it is by reference (and it is in most case).
/// However it can useful to the [`GetterTy::Copy`] type for small copy type.
/// There also the clone type.
///
/// Accepted value:
/// - `by_ref`, `ref`, `by_value`, `by_copy`, `by_clone`, `copy`, `clone`
/// - `getter_ty = "..."`, `getter_type = "..."`
/// - `getter_ty(...)`, `getter_type(...)`
#[derive(Debug, Clone, Copy, PartialEq, Eq, Structural, Hash, PartialOrd, Ord)]
pub enum GetterTy {
    /// to get the field by copy, as in `fn field(&self) -> u32 { self.field }`;
    /// works only for type that implements [`Copy`].
    Copy,
    /// to get the field by a clone, as in
    /// `fn field(&self) -> String { self.field.clone() }`;
    /// works only for type that implements [`Clone`].
    Clone,
    /// to get the field by reference, as in
    /// `fn field(&self) -> &String { &self.field }`;
    /// this is the default behavior.
    Ref,
}

impl View for GetterTy {
    type V = GetterTy;

    open spec fn view(&self) -> GetterTy {
        *self
    }
}

impl Default for GetterTy {
    fn default() -> (r: Self)
        ensures
            r == GetterTy::Ref,
    {
        GetterTy::Ref
    }
}

impl GetterTy {
    /// What stands before the returned type, and before the field in the body.
    pub open spec fn prefix(self) -> Seq<char> {
        match self {
            GetterTy::Ref => "&"@,
            GetterTy::Clone | GetterTy::Copy => ""@,
        }
    }

    /// What stands behind the field in the body.
    pub open spec fn suffix(self) -> Seq<char> {
        match self {
            GetterTy::Clone => ".clone()"@,
            GetterTy::Copy | GetterTy::Ref => ""@,
        }
    }

    /// How the documentation of the getter names the way that the field is
    /// returned.
    pub open spec fn label(self) -> Seq<char> {
        match self {
            GetterTy::Ref => "reference"@,
            GetterTy::Copy => "copied value"@,
            GetterTy::Clone => "cloned value"@,
        }
    }

    /// The value that a word spells.
    pub open spec fn of_word(word: Seq<char>) -> Option<GetterTy> {
        if word == "by_ref"@ || word == "by ref"@ || word == "ref"@ {
            Some(GetterTy::Ref)
        } else if word == "by_value"@ || word == "by_copy"@ || word == "copy"@ || word == "Copy"@ {
            Some(GetterTy::Copy)
        } else if word == "by_clone"@ || word == "clone"@ || word == "Clone"@ {
            Some(GetterTy::Clone)
        } else {
            None
        }
    }

    /// Whether a word is a left-hand side of the option.
    pub open spec fn is_left_hand(word: Seq<char>) -> bool {
        word == "getter_ty"@ || word == "getter_type"@ || word == "Getter_ty"@ || word
            == "Getter_type"@
    }

    /// Get the text for start of the function implementation
    pub fn prefix_quote(self) -> (r: String)
        ensures
            r@ == self.prefix(),
    {
        match self {
            Self::Ref => String::from_str("&"),
            Self::Clone | Self::Copy => String::from_str(""),
        }
    }

    /// Get the text for end of the function implementation
    pub fn suffix_quote(self) -> (r: String)
        ensures
            r@ == self.suffix(),
    {
        match self {
            Self::Clone => String::from_str(".clone()"),
            Self::Copy | Self::Ref => String::from_str(""),
        }
    }

    /// How the documentation of the getter names the way that the field is
    /// returned.
    pub fn to_string(&self) -> (r: String)
        ensures
            r@ == self.label(),
    {
        match self {
            Self::Ref => String::from_str("reference"),
            Self::Copy => String::from_str("copied value"),
            Self::Clone => String::from_str("cloned value"),
        }
    }

    /// Parse the option from a string
    pub fn parse_string(path: &str) -> (r: Option<Self>)
        ensures
            r == GetterTy::of_word(path@),
    {
        if str_eq(path, "by_ref") || str_eq(path, "by ref") || str_eq(path, "ref") {
            Some(Self::Ref)
        } else if str_eq(path, "by_value") || str_eq(path, "by_copy") || str_eq(path, "copy")
            || str_eq(path, "Copy") {
            Some(Self::Copy)
        } else if str_eq(path, "by_clone") || str_eq(path, "clone") || str_eq(path, "Clone") {
            Some(Self::Clone)
        } else {
            None
        }
    }

    /// Get the left hand value accepted in the parsing of the option
    pub fn left_hand_path_accepted_self(path: &str) -> (r: bool)
        ensures
            r == GetterTy::is_left_hand(path@),
    {
        str_eq(path, "getter_ty") || str_eq(path, "getter_type") || str_eq(path, "Getter_ty")
            || str_eq(path, "Getter_type")
    }
}

impl ParseOptionUtils for GetterTy {
    open spec fn recognize_bare(word: Seq<char>, is_path: bool) -> Option<GetterTy> {
        GetterTy::of_word(word)
    }

    open spec fn recognize_value(word: Seq<char>, is_path: bool) -> Option<GetterTy> {
        GetterTy::of_word(word)
    }

    open spec fn is_trigger(word: Seq<char>) -> bool {
        GetterTy::is_left_hand(word)
    }

    open spec fn recognize_literal(value: AnnotationValueView, is_path: bool) -> Result<
        GetterTy,
        UnacceptableParseErrorView,
    > {
        match value {
            AnnotationValueView::Str(text) => or_invalid(GetterTy::of_word(text)),
            _ => Err(UnacceptableParseErrorView::RightHandNameValueExprNotLitString),
        }
    }

    fn parse_option_from_str(path: &str) -> (r: Option<Self>) {
        let r = Self::parse_string(path);
        assert(option_view(r) == Self::recognize_bare(path@, true));
        r
    }

    fn parse_option_from_str_assignment(path: &str) -> (r: Option<Self>) {
        let r = Self::parse_string(path);
        assert(option_view(r) == Self::recognize_value(path@, true));
        r
    }

    fn left_hand_path_accepted(path: &str) -> (r: bool) {
        Self::left_hand_path_accepted_self(path)
    }

    fn parse_literal(value: &AnnotationValue) -> (r: Result<Self, UnacceptableParseError>) {
        let r = match get_string_literal(value) {
            None => Err(UnacceptableParseError::RightHandNameValueExprNotLitString),
            Some(text) => match Self::parse_string(text.as_str()) {
                Some(ty) => Ok(ty),
                None => Err(UnacceptableParseError::RightHandValueInvalid),
            },
        };
        assert(literal_view(r) == Self::recognize_literal(value@, true));
        r
    }
}

} // verus!
