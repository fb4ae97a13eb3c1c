//! The annotation syntax that the option compiler reads: paths, literal
//! values and the three shapes of an annotation argument, as plain values,
//! and the calls into the host language's parser that turn the text of a
//! parenthesized argument into such values.

use vstd::prelude::*;

verus! {

/// A path such as `name` or `a::b`, without generic arguments.
#[derive(Debug, Clone, PartialEq, Eq)]
pub struct AnnotationPath {
    /// whether the path starts with `::`
    pub leading_colon: bool,
    /// the identifiers that `::` separates
    pub segments: Vec<String>,
}

/// What a [`AnnotationPath`] holds.
pub struct AnnotationPathView {
    /// whether the path starts with `::`
    pub leading_colon: bool,
    /// the identifiers that `::` separates
    pub segments: Seq<Seq<char>>,
}

impl View for AnnotationPath {
    type V = AnnotationPathView;

    open spec fn view(&self) -> AnnotationPathView {
        AnnotationPathView {
            leading_colon: self.leading_colon,
            segments: self.segments@.map_values(|s: String| s@),
        }
    }
}

impl AnnotationPathView {
    /// The identifier that the path consists of: a path is an identifier if it
    /// has no leading colon and one segment.
    pub open spec fn ident(self) -> Option<Seq<char>> {
        if !self.leading_colon && self.segments.len() == 1 {
            Some(self.segments[0])
        } else {
            None
        }
    }

    /// The path that consists of one identifier.
    pub open spec fn of_ident(ident: Seq<char>) -> AnnotationPathView {
        AnnotationPathView { leading_colon: false, segments: seq![ident] }
    }
}

impl AnnotationPath {
    /// The path that consists of the identifier `ident`.
    pub fn from_ident(ident: &str) -> (r: AnnotationPath)
        ensures
            r@ == AnnotationPathView::of_ident(ident@),
            r@.ident() == Some(ident@),
    {
        let mut segments: Vec<String> = Vec::new();
        segments.push(ident.to_owned());
        let r = AnnotationPath { leading_colon: false, segments };
        assert(r@.segments =~= seq![ident@]);
        r
    }

    /// If this path consists of a single ident, returns the ident.
    pub fn get_ident(&self) -> (r: Option<&str>)
        ensures
            r is Some <==> self@.ident() is Some,
            r matches Some(ident) ==> Some(ident@) == self@.ident(),
    {
        if !self.leading_colon && self.segments.len() == 1 {
            Some(self.segments[0].as_str())
        } else {
            None
        }
    }

    /// Determines whether this is a path of length 1 equal to the given ident.
    pub fn is_ident(&self, ident: &str) -> (r: bool)
        ensures
            r == (self@.ident() == Some(ident@)),
    {
        match self.get_ident() {
            Some(id) => crate::text::str_eq(id, ident),
            None => false,
        }
    }
}

/// The right-hand side of `name = value`, as far as the options read it.
#[derive(Debug, Clone, PartialEq, Eq)]
pub enum AnnotationValue {
    /// a string literal, with the text that it denotes
    Str(String),
    /// a boolean literal
    Bool(bool),
    /// any other expression
    Other,
}

/// What a [`AnnotationValue`] holds.
pub enum AnnotationValueView {
    /// a string literal, with the text that it denotes
    Str(Seq<char>),
    /// a boolean literal
    Bool(bool),
    /// any other expression
    Other,
}

impl View for AnnotationValue {
    type V = AnnotationValueView;

    open spec fn view(&self) -> AnnotationValueView {
        match self {
            AnnotationValue::Str(text) => AnnotationValueView::Str(text@),
            AnnotationValue::Bool(flag) => AnnotationValueView::Bool(*flag),
            AnnotationValue::Other => AnnotationValueView::Other,
        }
    }
}

/// An argument of the shape `name = value`.
#[derive(Debug, Clone, PartialEq, Eq)]
pub struct NameValue {
    /// the left-hand side
    pub path: AnnotationPath,
    /// the right-hand side
    pub value: AnnotationValue,
}

/// What a [`NameValue`] holds.
pub struct NameValueView {
    /// the left-hand side
    pub path: AnnotationPathView,
    /// the right-hand side
    pub value: AnnotationValueView,
}

impl View for NameValue {
    type V = NameValueView;

    open spec fn view(&self) -> NameValueView {
        NameValueView { path: self.path@, value: self.value@ }
    }
}

/// An argument of the shape `name(tokens)`.
#[derive(Debug, Clone, PartialEq, Eq)]
pub struct TokenList {
    /// what stands before the parentheses
    pub path: AnnotationPath,
    /// the text between the parentheses
    pub tokens: String,
}

/// What a [`TokenList`] holds.
pub struct TokenListView {
    /// what stands before the parentheses
    pub path: AnnotationPathView,
    /// the text between the parentheses
    pub tokens: Seq<char>,
}

impl View for TokenList {
    type V = TokenListView;

    open spec fn view(&self) -> TokenListView {
        TokenListView { path: self.path@, tokens: self.tokens@ }
    }
}

/// One parsed unit of annotation syntax: the content of an attribute, or one
/// of the arguments between its parentheses.
#[derive(Debug, Clone, PartialEq, Eq)]
pub enum Annotation {
    /// a bare path, such as `public`
    Path(AnnotationPath),
    /// a name and a value, such as `name = "x"`
    NameValue(NameValue),
    /// a name and a parenthesized argument, such as `name(x)`
    List(TokenList),
}

/// What a [`Annotation`] holds.
pub enum AnnotationView {
    /// a bare path, such as `public`
    Path(AnnotationPathView),
    /// a name and a value, such as `name = "x"`
    NameValue(NameValueView),
    /// a name and a parenthesized argument, such as `name(x)`
    List(TokenListView),
}

impl View for Annotation {
    type V = AnnotationView;

    open spec fn view(&self) -> AnnotationView {
        match self {
            Annotation::Path(path) => AnnotationView::Path(path@),
            Annotation::NameValue(name_value) => AnnotationView::NameValue(name_value@),
            Annotation::List(list) => AnnotationView::List(list@),
        }
    }
}

impl AnnotationView {
    /// The path that the unit starts with.
    pub open spec fn path(self) -> AnnotationPathView {
        match self {
            AnnotationView::Path(path) => path,
            AnnotationView::NameValue(name_value) => name_value.path,
            AnnotationView::List(list) => list.path,
        }
    }
}

/// What a sequence of [`Annotation`] holds.
pub open spec fn annotations_view(items: Seq<Annotation>) -> Seq<AnnotationView> {
    items.map_values(|m: Annotation| m@)
}

impl Annotation {
    /// The bare word `ident`.
    pub fn word(ident: &str) -> (r: Annotation)
        ensures
            r@ == AnnotationView::Path(AnnotationPathView::of_ident(ident@)),
    {
        Annotation::Path(AnnotationPath::from_ident(ident))
    }

    /// The argument `ident = value`.
    pub fn name_value(ident: &str, value: AnnotationValue) -> (r: Annotation)
        ensures
            r@ == AnnotationView::NameValue(
                NameValueView { path: AnnotationPathView::of_ident(ident@), value: value@ },
            ),
    {
        Annotation::NameValue(NameValue { path: AnnotationPath::from_ident(ident), value })
    }

    /// The argument `ident = "text"`.
    pub fn name_text(ident: &str, text: &str) -> (r: Annotation)
        ensures
            r@ == AnnotationView::NameValue(
                NameValueView {
                    path: AnnotationPathView::of_ident(ident@),
                    value: AnnotationValueView::Str(text@),
                },
            ),
    {
        Annotation::name_value(ident, AnnotationValue::Str(text.to_owned()))
    }

    /// The argument `ident(tokens)`.
    pub fn list(ident: &str, tokens: &str) -> (r: Annotation)
        ensures
            r@ == AnnotationView::List(
                TokenListView { path: AnnotationPathView::of_ident(ident@), tokens: tokens@ },
            ),
    {
        Annotation::List(TokenList { path: AnnotationPath::from_ident(ident), tokens: tokens.to_owned() })
    }

    /// The path that the unit starts with.
    pub fn path(&self) -> (r: &AnnotationPath)
        ensures
            r@ == self@.path(),
    {
        match self {
            Annotation::Path(path) => path,
            Annotation::NameValue(name_value) => &name_value.path,
            Annotation::List(list) => &list.path,
        }
    }
}

} // verus!
