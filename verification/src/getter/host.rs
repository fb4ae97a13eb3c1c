//! The calls into the parser of the host language, of whose answers nothing
//! is claimed, and into the tables of the identifier characters.

use vstd::prelude::*;

use super::syntax::{
    annotations_view, Annotation, AnnotationPath, AnnotationValue, AnnotationView, NameValue,
    TokenList,
};

verus! {

/// `syn::Meta`: the content of an attribute as the parser of the host
/// language gives it. Nothing is known of a value of it.
#[verifier::external_type_specification]
#[verifier::external_body]
pub struct ExSynMeta(syn::Meta);

/// `syn::Path`: a path as the parser of the host language gives it. Nothing
/// is known of a value of it.
#[verifier::external_type_specification]
#[verifier::external_body]
pub struct ExSynPath(syn::Path);

/// `syn::Expr`: an expression as the parser of the host language gives it.
/// Nothing is known of a value of it.
#[verifier::external_type_specification]
#[verifier::external_body]
pub struct ExSynExpr(syn::Expr);

/// What the parser of the host language answered while one option was
/// tried on one argument. Which answer a text gets is not known here: the
/// parser is another crate's, and its lexer is chosen by the process.
pub struct Outcome {
    /// what parsing the parenthesized tokens as one identifier gave: the
    /// identifier, or the message of the error
    pub word: Result<Seq<char>, Seq<char>>,
    /// whether the scope of a restricted visibility parsed as a path
    pub is_path: bool,
}

/// Whether a character has the Unicode property XID_Start.
pub uninterp spec fn xid_start(c: char) -> bool;

/// Whether a character has the Unicode property XID_Continue.
pub uninterp spec fn xid_continue(c: char) -> bool;

/// What a result that holds text on both sides holds.
pub open spec fn text_result_view(r: Result<String, String>) -> Result<Seq<char>, Seq<char>> {
    match r {
        Ok(text) => Ok(text@),
        Err(message) => Err(message@),
    }
}

/// What a result of arguments or a message holds.
pub open spec fn arguments_result_view(r: Result<Vec<Annotation>, String>) -> Result<
    Seq<AnnotationView>,
    Seq<char>,
> {
    match r {
        Ok(list) => Ok(annotations_view(list@)),
        Err(message) => Err(message@),
    }
}

/// Calls `unicode_ident::is_xid_start`, which looks the character up in
/// the tables of the crate.
#[verifier::external_body]
pub(crate) fn is_xid_start(c: char) -> (r: bool)
    ensures
        r == xid_start(c),
{
    unicode_ident::is_xid_start(c)
}

/// Calls `unicode_ident::is_xid_continue`, which looks the character up in
/// the tables of the crate.
#[verifier::external_body]
pub(crate) fn is_xid_continue(c: char) -> (r: bool)
    ensures
        r == xid_continue(c),
{
    unicode_ident::is_xid_continue(c)
}

/// Calls `syn::parse_str::<syn::Ident>`: parses the whole of `tokens` as a
/// single identifier that is no keyword, and hands back its spelling, or the
/// message of the error. Nothing is claimed of the result.
#[verifier::external_body]
pub(crate) fn parse_word(tokens: &str) -> (r: Result<String, String>) {
    match syn::parse_str::<syn::Ident>(tokens) {
        Ok(ident) => Ok(ident.to_string()),
        Err(error) => Err(error.to_string()),
    }
}

/// Calls `syn::parse_str::<syn::Path>` and tells whether it succeeded.
/// Nothing is claimed of the result.
#[verifier::external_body]
pub(crate) fn parses_as_path(text: &str) -> (r: bool) {
    syn::parse_str::<syn::Path>(text).is_ok()
}

/// Calls `syn::punctuated::Punctuated::<syn::Meta, syn::token::Comma>::parse_terminated`
/// through `syn::parse::Parser::parse_str`: parses the whole of `tokens` as
/// annotation arguments that commas separate, with an optional trailing
/// comma, and hands them back as plain values, or the message of the error.
/// Nothing is claimed of the result.
#[verifier::external_body]
pub(crate) fn parse_arguments(tokens: &str) -> (r: Result<Vec<Annotation>, String>) {
    let parser = syn::punctuated::Punctuated::<syn::Meta, syn::token::Comma>::parse_terminated;
    match syn::parse::Parser::parse_str(parser, tokens) {
        Ok(list) => Ok(list.iter().map(meta_from_host).collect()),
        Err(error) => Err(error.to_string()),
    }
}

/// Reads a `syn::Meta` into an [`Annotation`], variant by variant: the path
/// by [`path_from_host`], the value of an assignment by [`value_from_host`],
/// and the tokens between parentheses as their text
/// (`proc_macro2::TokenStream::to_string`). Nothing is claimed of the result.
#[verifier::external_body]
fn meta_from_host(meta: &syn::Meta) -> Annotation {
    match meta {
        syn::Meta::Path(path) => Annotation::Path(path_from_host(path)),
        syn::Meta::NameValue(pair) => Annotation::NameValue(
            NameValue { path: path_from_host(&pair.path), value: value_from_host(&pair.value) },
        ),
        syn::Meta::List(list) => Annotation::List(
            TokenList { path: path_from_host(&list.path), tokens: list.tokens.to_string() },
        ),
    }
}

/// Reads a `syn::Path` into an [`AnnotationPath`]: whether it has a leading
/// colon, and the spelling of the identifier of each segment
/// (`proc_macro2::Ident::to_string`). Nothing is claimed of the result.
#[verifier::external_body]
fn path_from_host(path: &syn::Path) -> AnnotationPath {
    AnnotationPath {
        leading_colon: path.leading_colon.is_some(),
        segments: path.segments.iter().map(|segment| segment.ident.to_string()).collect(),
    }
}

/// Reads a `syn::Expr` into an [`AnnotationValue`]: a string literal gives
/// the text that it denotes (`syn::LitStr::value`), a boolean literal its
/// value. Nothing is claimed of the result.
#[verifier::external_body]
fn value_from_host(expr: &syn::Expr) -> AnnotationValue {
    match expr {
        syn::Expr::Lit(syn::ExprLit { lit: syn::Lit::Str(text), .. }) => AnnotationValue::Str(
            text.value(),
        ),
        syn::Expr::Lit(syn::ExprLit { lit: syn::Lit::Bool(flag), .. }) => AnnotationValue::Bool(
            flag.value,
        ),
        _ => AnnotationValue::Other,
    }
}

} // verus!
