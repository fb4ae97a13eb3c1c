//! Contains [`Visibility`]

use vstd::prelude::*;
use vstd::string::*;

use super::attribute_option::{
    get_string_literal, literal_view, option_view, or_invalid, ParseOptionUtils,
};
use super::error::{UnacceptableParseError, UnacceptableParseErrorView};
use super::host::parses_as_path;
use super::syntax::{AnnotationValue, AnnotationValueView};
use crate::text::str_eq;

verus! {

/// Visibility option
///
/// accepted option :
/// - `pub`, `public`, `crate`, `private`, `pub(...)`
/// - `visibility = "..."`
/// - `visibility(...)`
#[derive(Debug, PartialEq, Eq)]
pub enum Visibility {
    /// Public, pub modifier like `pub fn`.
    Public,
    /// Private, no modifier like `fn`.
    /// Default value
    Private,
    /// Restricted visibility like `pub(crate) fn` or `pub(super) fn`: the
    /// text of the scope, or none for the crate.
    Crate(Option<String>),
}

/// What a [`Visibility`] holds.
pub enum VisibilityView {
    /// Public
    Public,
    /// Private
    Private,
    /// Restricted to a scope, or to the crate where none is given
    Crate(Option<Seq<char>>),
}

impl View for Visibility {
    type V = VisibilityView;

    open spec fn view(&self) -> VisibilityView {
        match self {
            Visibility::Public => VisibilityView::Public,
            Visibility::Private => VisibilityView::Private,
            Visibility::Crate(Some(scope)) => VisibilityView::Crate(Some(scope@)),
            Visibility::Crate(None) => VisibilityView::Crate(None),
        }
    }
}

impl Clone for Visibility {
    fn clone(&self) -> (r: Self)
        ensures
            r@ == self@,
    {
        match self {
            Visibility::Public => Visibility::Public,
            Visibility::Private => Visibility::Private,
            Visibility::Crate(Some(scope)) => Visibility::Crate(Some(scope.clone())),
            Visibility::Crate(None) => Visibility::Crate(None),
        }
    }
}

impl Default for Visibility {
    fn default() -> (r: Self)
        ensures
            r@ == VisibilityView::Private,
    {
        Visibility::Private
    }
}

/// Whether a word has the shape `pub(` ... `)`.
pub open spec fn is_scoped_form(word: Seq<char>) -> bool {
    word.len() >= 5 && word.subrange(0, 4) == "pub("@ && word[word.len() - 1] == ')'
}

/// What stands between the parentheses of a word of the shape `pub(` ... `)`.
pub open spec fn scope_of(word: Seq<char>) -> Seq<char> {
    word.subrange(4, word.len() - 1)
}

impl VisibilityView {
    /// The value that a word of the shape `pub(` ... `)` spells, given
    /// whether what stands between its parentheses parses as a path.
    pub open spec fn of_scope(scope: Seq<char>, is_path: bool) -> Option<VisibilityView> {
        if is_path {
            Some(VisibilityView::Crate(Some(scope)))
        } else {
            None
        }
    }

    /// The value that a word spells, given whether what stands between the
    /// parentheses of a word of the shape `pub(` ... `)` parses as a path.
    pub open spec fn of_word(word: Seq<char>, is_path: bool) -> Option<VisibilityView> {
        if word == "pub"@ || word == "public"@ || word == "Public"@ || word == "Pub"@ {
            Some(VisibilityView::Public)
        } else if word == "crate"@ || word == "Crate"@ {
            Some(VisibilityView::Crate(None))
        } else if word == "private"@ || word == "Private"@ {
            Some(VisibilityView::Private)
        } else if is_scoped_form(word) {
            VisibilityView::of_scope(scope_of(word), is_path)
        } else {
            None
        }
    }

    /// The keyword that the visibility adds to the declaration, with the
    /// space behind it.
    pub open spec fn keyword(self) -> Seq<char> {
        match self {
            VisibilityView::Private => ""@,
            VisibilityView::Public => "pub "@,
            VisibilityView::Crate(None) => "pub(crate) "@,
            VisibilityView::Crate(Some(scope)) => "pub("@ + scope + ") "@,
        }
    }
}

impl Visibility {
    /// The restricted visibility of a scope, given whether the text of the
    /// scope parses as a path.
    pub fn from_scope(scope: &str, is_path: bool) -> (r: Option<Self>)
        ensures
            option_view(r) == VisibilityView::of_scope(scope@, is_path),
    {
        if is_path {
            Some(Self::Crate(Some(scope.to_owned())))
        } else {
            None
        }
    }

    /// Try parse a a [`Visibility`] from a `&str` as the modifier. For a
    /// word of the shape `pub(` ... `)` the parser of the host language is
    /// asked whether what stands between the parentheses is a path, and
    /// [`Self::from_scope`] decides on its answer.
    pub fn visibility_from_path_str(string: &str) -> (r: Option<Self>)
        ensures
            exists|is_path: bool| option_view(r) == #[trigger] VisibilityView::of_word(
                string@,
                is_path,
            ),
            !is_scoped_form(string@) ==> option_view(r) == VisibilityView::of_word(string@, true),
    {
        if str_eq(string, "pub") || str_eq(string, "public") || str_eq(string, "Public") || str_eq(
            string,
            "Pub",
        ) {
            assert(option_view(Some(Self::Public)) == VisibilityView::of_word(string@, true));
            return Some(Self::Public);
        } else if str_eq(string, "crate") || str_eq(string, "Crate") {
            assert(option_view(Some(Self::Crate(None))) == VisibilityView::of_word(
                string@,
                true,
            ));
            return Some(Self::Crate(None));
        } else if str_eq(string, "private") || str_eq(string, "Private") {
            assert(option_view(Some(Self::Private)) == VisibilityView::of_word(string@, true));
            return Some(Self::Private);
        }
        let len: usize = string.unicode_len();
        if len >= 5 && string.get_char(len - 1) == ')' && str_eq(
            string.substring_char(0, 4),
            "pub(",
        ) {
            let scope = string.substring_char(4, len - 1);
            let is_path = parses_as_path(scope);
            let r = Self::from_scope(scope, is_path);
            assert(option_view(r) == VisibilityView::of_word(string@, is_path));
            return r;
        }
        assert(option_view(None::<Visibility>) == VisibilityView::of_word(string@, true));
        None
    }

    /// The keyword that the visibility adds to the declaration, with the
    /// space behind it.
    pub fn quote(&self) -> (r: String)
        ensures
            r@ == self@.keyword(),
    {
        match self {
            Self::Private => String::from_str(""),
            Self::Public => String::from_str("pub "),
            Self::Crate(None) => String::from_str("pub(crate) "),
            Self::Crate(Some(scope)) => {
                let mut out = String::from_str("pub(");
                out.append(scope.as_str());
                out.append(") ");
                out
            },
        }
    }
}

impl ParseOptionUtils for Visibility {
    open spec fn recognize_bare(word: Seq<char>, is_path: bool) -> Option<VisibilityView> {
        VisibilityView::of_word(word, is_path)
    }

    open spec fn recognize_value(word: Seq<char>, is_path: bool) -> Option<VisibilityView> {
        VisibilityView::of_word(word, is_path)
    }

    open spec fn is_trigger(word: Seq<char>) -> bool {
        word == "visibility"@ || word == "Visibility"@
    }

    open spec fn recognize_literal(value: AnnotationValueView, is_path: bool) -> Result<
        VisibilityView,
        UnacceptableParseErrorView,
    > {
        match value {
            AnnotationValueView::Str(text) => or_invalid(VisibilityView::of_word(text, is_path)),
            _ => Err(UnacceptableParseErrorView::RightHandNameValueExprNotLitString),
        }
    }

    fn parse_option_from_str(path: &str) -> (r: Option<Self>) {
        let r = Self::visibility_from_path_str(path);
        proof {
            let is_path = choose|is_path: bool|
                option_view(r) == #[trigger] VisibilityView::of_word(path@, is_path);
            assert(option_view(r) == Self::recognize_bare(path@, is_path));
        }
        r
    }

    fn parse_option_from_str_assignment(path: &str) -> (r: Option<Self>) {
        let r = Self::visibility_from_path_str(path);
        proof {
            let is_path = choose|is_path: bool|
                option_view(r) == #[trigger] VisibilityView::of_word(path@, is_path);
            assert(option_view(r) == Self::recognize_value(path@, is_path));
        }
        r
    }

    fn left_hand_path_accepted(path: &str) -> (r: bool) {
        str_eq(path, "visibility") || str_eq(path, "Visibility")
    }

    fn parse_literal(value: &AnnotationValue) -> (r: Result<Self, UnacceptableParseError>) {
        match get_string_literal(value) {
            None => {
                let r = Err(UnacceptableParseError::RightHandNameValueExprNotLitString);
                assert(literal_view::<Visibility>(r) == Self::recognize_literal(value@, true));
                r
            },
            Some(text) => {
                let found = Self::visibility_from_path_str(text.as_str());
                let ghost is_path = choose|is_path: bool|
                    option_view(found) == #[trigger] VisibilityView::of_word(text@, is_path);
                let r = match found {
                    Some(visibility) => Ok(visibility),
                    None => Err(UnacceptableParseError::RightHandValueInvalid),
                };
                assert(literal_view(r) == Self::recognize_literal(value@, is_path));
                r
            },
        }
    }
}

} // verus!
