//! Contains [`ConstTy`]

use vstd::prelude::*;
use vstd::string::*;

use super::attribute_option::{
    get_string_literal, literal_view, option_view, or_invalid, ParseOptionUtils,
};
use super::error::{UnacceptableParseError, UnacceptableParseErrorView};
use super::syntax::{AnnotationValue, AnnotationValueView};
use crate::text::str_eq;

verus! {

/// Option to determine if a getter should be constant or not.
/// By default the getter is not constant.
///
/// Accept value : like `#[get(Const)]` or `#[get(Const = true)]`.
/// - Const
/// - constant
/// - Constant
/// - Const = true/false
/// - Const(...)
#[derive(Debug, Clone, Copy, PartialEq, Eq, Structural, Hash, PartialOrd, Ord)]
pub enum ConstTy {
    /// Non constant so the default `fn name()`.
    NonConstant,
    /// Constant, i.e. `const fn name()`.
    Constant,
}

impl View for ConstTy {
    type V = ConstTy;

    open spec fn view(&self) -> ConstTy {
        *self
    }
}

impl Default for ConstTy {
    fn default() -> (r: Self)
        ensures
            r == ConstTy::NonConstant,
    {
        ConstTy::NonConstant
    }
}

impl ConstTy {
    /// The keyword that the option adds to the declaration, with the space
    /// behind it.
    pub open spec fn keyword(self) -> Seq<char> {
        match self {
            ConstTy::Constant => "const "@,
            ConstTy::NonConstant => ""@,
        }
    }

    /// How messages name the value.
    pub open spec fn label(self) -> Seq<char> {
        match self {
            ConstTy::Constant => "constant"@,
            ConstTy::NonConstant => "non-constant"@,
        }
    }

    /// The value that a boolean stands for.
    pub open spec fn of_bool(value: bool) -> ConstTy {
        if value {
            ConstTy::Constant
        } else {
            ConstTy::NonConstant
        }
    }

    /// Whether the value is [`ConstTy::Constant`].
    pub open spec fn is_constant(self) -> bool {
        self == ConstTy::Constant
    }

    /// Whether a word is a left-hand side of the option, and so a flag too.
    pub open spec fn is_left_hand(word: Seq<char>) -> bool {
        word == "const"@ || word == "Const"@ || word == "constant"@ || word == "Constant"@
    }

    /// The value that a word spells as a standalone flag.
    pub open spec fn of_flag(word: Seq<char>) -> Option<ConstTy> {
        if ConstTy::is_left_hand(word) {
            Some(ConstTy::Constant)
        } else {
            None
        }
    }

    /// The value that a word spells on a right-hand side.
    pub open spec fn of_word(word: Seq<char>) -> Option<ConstTy> {
        if ConstTy::is_left_hand(word) || word == "true"@ {
            Some(ConstTy::Constant)
        } else if word == "false"@ {
            Some(ConstTy::NonConstant)
        } else {
            None
        }
    }

    /// The value that a word spells as a standalone flag.
    pub fn parse_flag(path: &str) -> (r: Option<Self>)
        ensures
            r == ConstTy::of_flag(path@),
    {
        if str_eq(path, "const") || str_eq(path, "Const") || str_eq(path, "constant") || str_eq(
            path,
            "Constant",
        ) {
            Some(Self::Constant)
        } else {
            None
        }
    }

    /// The value that a word spells on a right-hand side.
    pub fn parse_word(path: &str) -> (r: Option<Self>)
        ensures
            r == ConstTy::of_word(path@),
    {
        match Self::parse_flag(path) {
            Some(ty) => Some(ty),
            None => {
                if str_eq(path, "true") {
                    Some(Self::Constant)
                } else if str_eq(path, "false") {
                    Some(Self::NonConstant)
                } else {
                    None
                }
            },
        }
    }

    /// return the text of the const function part
    pub fn quote(self) -> (r: String)
        ensures
            r@ == self.keyword(),
    {
        match self {
            Self::Constant => String::from_str("const "),
            Self::NonConstant => String::from_str(""),
        }
    }

    /// How messages name the value.
    pub fn to_string(&self) -> (r: String)
        ensures
            r@ == self.label(),
    {
        match self {
            Self::Constant => String::from_str("constant"),
            Self::NonConstant => String::from_str("non-constant"),
        }
    }
}

impl ParseOptionUtils for ConstTy {
    open spec fn recognize_bare(word: Seq<char>, is_path: bool) -> Option<ConstTy> {
        ConstTy::of_flag(word)
    }

    open spec fn recognize_value(word: Seq<char>, is_path: bool) -> Option<ConstTy> {
        ConstTy::of_word(word)
    }

    open spec fn is_trigger(word: Seq<char>) -> bool {
        ConstTy::is_left_hand(word)
    }

    /// A boolean literal is accepted beside a string.
    open spec fn recognize_literal(value: AnnotationValueView, is_path: bool) -> Result<
        ConstTy,
        UnacceptableParseErrorView,
    > {
        match value {
            AnnotationValueView::Bool(flag) => Ok(ConstTy::of_bool(flag)),
            AnnotationValueView::Str(text) => or_invalid(ConstTy::of_word(text)),
            AnnotationValueView::Other => Err(
                UnacceptableParseErrorView::RightHandNameValueExprNotLitString,
            ),
        }
    }

    fn parse_option_from_str(path: &str) -> (r: Option<Self>) {
        let r = Self::parse_flag(path);
        assert(option_view(r) == Self::recognize_bare(path@, true));
        r
    }

    fn parse_option_from_str_assignment(path: &str) -> (r: Option<Self>) {
        let r = Self::parse_word(path);
        assert(option_view(r) == Self::recognize_value(path@, true));
        r
    }

    fn left_hand_path_accepted(path: &str) -> (r: bool) {
        str_eq(path, "const") || str_eq(path, "Const") || str_eq(path, "constant") || str_eq(
            path,
            "Constant",
        )
    }

    fn parse_literal(value: &AnnotationValue) -> (r: Result<Self, UnacceptableParseError>) {
        let r = match value {
            AnnotationValue::Bool(flag) => Ok(ConstTy::from(*flag)),
            _ => match get_string_literal(value) {
                None => Err(UnacceptableParseError::RightHandNameValueExprNotLitString),
                Some(text) => match Self::parse_word(text.as_str()) {
                    Some(ty) => Ok(ty),
                    None => Err(UnacceptableParseError::RightHandValueInvalid),
                },
            },
        };
        assert(literal_view(r) == Self::recognize_literal(value@, true));
        r
    }
}

impl From<bool> for ConstTy {
    fn from(value: bool) -> (r: Self) {
        if value {
            Self::Constant
        } else {
            Self::NonConstant
        }
    }
}

impl vstd::std_specs::convert::FromSpecImpl<bool> for ConstTy {
    open spec fn obeys_from_spec() -> bool {
        true
    }

    open spec fn from_spec(value: bool) -> Self {
        ConstTy::of_bool(value)
    }
}

impl From<ConstTy> for bool {
    fn from(value: ConstTy) -> (r: Self) {
        match value {
            ConstTy::Constant => true,
            ConstTy::NonConstant => false,
        }
    }
}

impl vstd::std_specs::convert::FromSpecImpl<ConstTy> for bool {
    open spec fn obeys_from_spec() -> bool {
        true
    }

    open spec fn from_spec(value: ConstTy) -> Self {
        value.is_constant()
    }
}

impl AsRef<bool> for ConstTy {
    fn as_ref(&self) -> (r: &bool)
        ensures
            *r == self.is_constant(),
    {
        match self {
            Self::Constant => &true,
            Self::NonConstant => &false,
        }
    }
}

} // verus!
