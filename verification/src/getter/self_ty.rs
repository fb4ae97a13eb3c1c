//! Contains [`SelfTy`]

use vstd::prelude::*;
use vstd::string::*;

use super::attribute_option::{
    get_string_literal, literal_view, option_view, or_invalid, ParseOptionUtils,
};
use super::error::{UnacceptableParseError, UnacceptableParseErrorView};
use super::syntax::{AnnotationValue, AnnotationValueView};
use crate::text::str_eq;

verus! {

/// How the getter takes `self`: by reference, or by value.
///
/// Accepted value:
/// - `self = "..."`, `self_type = "..."`, `self_ty = "..."`
/// - `self(...)`, `self_type(...)`, `self_ty(...)`
/// where ... is `ref`, `value`, `copy` or `move`
#[derive(Debug, Clone, Copy, PartialEq, Eq, Structural, Hash, PartialOrd, Ord)]
pub enum SelfTy {
    /// `self` is borrowed, as in `fn field(&self) -> &String { &self.field }`;
    /// this is the default behavior.
    Ref,
    /// `self` is moved, as in `fn field(self) -> u32 { self.field }`.
    /// It is recommended only for Self type that implements [`Copy`] and is smaller than a word.
    Value,
}

impl View for SelfTy {
    type V = SelfTy;

    open spec fn view(&self) -> SelfTy {
        *self
    }
}

impl Default for SelfTy {
    fn default() -> (r: Self)
        ensures
            r == SelfTy::Ref,
    {
        SelfTy::Ref
    }
}

impl SelfTy {
    /// What stands before `self` in the parameters of the getter.
    pub open spec fn prefix(self) -> Seq<char> {
        match self {
            SelfTy::Ref => "&"@,
            SelfTy::Value => ""@,
        }
    }

    /// The value that a word spells on a right-hand side.
    pub open spec fn of_word(word: Seq<char>) -> Option<SelfTy> {
        if word == "value"@ || word == "copy"@ || word == "move"@ {
            Some(SelfTy::Value)
        } else if word == "ref"@ {
            Some(SelfTy::Ref)
        } else {
            None
        }
    }

    /// Whether a word is a left-hand side of the option.
    pub open spec fn is_left_hand(word: Seq<char>) -> bool {
        word == "self"@ || word == "self_ty"@ || word == "self_type"@ || word == "Self"@ || word
            == "Self_ty"@ || word == "Self_type"@
    }

    /// The value that a word spells on a right-hand side.
    pub fn parse_word(path: &str) -> (r: Option<Self>)
        ensures
            r == SelfTy::of_word(path@),
    {
        if str_eq(path, "value") || str_eq(path, "copy") || str_eq(path, "move") {
            Some(Self::Value)
        } else if str_eq(path, "ref") {
            Some(Self::Ref)
        } else {
            None
        }
    }

    /// add a `&` symbol if it is a [`Self::Ref`] otherwise add nothing
    pub fn quote(self) -> (r: String)
        ensures
            r@ == self.prefix(),
    {
        match self {
            Self::Ref => String::from_str("&"),
            Self::Value => String::from_str(""),
        }
    }
}

impl ParseOptionUtils for SelfTy {
    open spec fn recognize_bare(word: Seq<char>, is_path: bool) -> Option<SelfTy> {
        None
    }

    open spec fn recognize_value(word: Seq<char>, is_path: bool) -> Option<SelfTy> {
        SelfTy::of_word(word)
    }

    open spec fn is_trigger(word: Seq<char>) -> bool {
        SelfTy::is_left_hand(word)
    }

    open spec fn recognize_literal(value: AnnotationValueView, is_path: bool) -> Result<
        SelfTy,
        UnacceptableParseErrorView,
    > {
        match value {
            AnnotationValueView::Str(text) => or_invalid(SelfTy::of_word(text)),
            _ => Err(UnacceptableParseErrorView::RightHandNameValueExprNotLitString),
        }
    }

    fn parse_option_from_str(path: &str) -> (r: Option<Self>) {
        assert(option_view(None::<SelfTy>) == Self::recognize_bare(path@, true));
        None
    }

    fn parse_option_from_str_assignment(path: &str) -> (r: Option<Self>) {
        let r = Self::parse_word(path);
        assert(option_view(r) == Self::recognize_value(path@, true));
        r
    }

    fn left_hand_path_accepted(path: &str) -> (r: bool) {
        str_eq(path, "self") || str_eq(path, "self_ty") || str_eq(path, "self_type") || str_eq(
            path,
            "Self",
        ) || str_eq(path, "Self_ty") || str_eq(path, "Self_type")
    }

    fn parse_literal(value: &AnnotationValue) -> (r: Result<Self, UnacceptableParseError>) {
        let r = match get_string_literal(value) {
            None => Err(UnacceptableParseError::RightHandNameValueExprNotLitString),
            Some(text) => match Self::parse_word(text.as_str()) {
                Some(ty) => Ok(ty),
                None => Err(UnacceptableParseError::RightHandValueInvalid),
            },
        };
        assert(literal_view(r) == Self::recognize_literal(value@, true));
        r
    }
}

} // verus!
