//! Contains [`Field`], the description of a field that the option compiler
//! reads, [`FieldName`], the way to access a field, and [`FieldInformation`].

use vstd::prelude::*;
use vstd::string::*;

use super::syntax::{Annotation, AnnotationView, annotations_view};
use crate::text::{decimal, decimal_text};

verus! {

/// A field as it is declared: its attributes, its identifier where it has
/// one, and the text of its type.
#[derive(Debug, Clone, PartialEq, Eq)]
pub struct FieldDeclaration {
    /// the content of each attribute of the field, in order
    pub attrs: Vec<Annotation>,
    /// the identifier of the field; none for the field of a tuple struct
    pub ident: Option<String>,
    /// the declared type of the field
    pub ty: String,
}

/// What a [`FieldDeclaration`] holds.
pub struct FieldDeclarationView {
    /// the content of each attribute of the field, in order
    pub attrs: Seq<AnnotationView>,
    /// the identifier of the field; none for the field of a tuple struct
    pub ident: Option<Seq<char>>,
    /// the declared type of the field
    pub ty: Seq<char>,
}

impl View for FieldDeclaration {
    type V = FieldDeclarationView;

    open spec fn view(&self) -> FieldDeclarationView {
        FieldDeclarationView {
            attrs: annotations_view(self.attrs@),
            ident: match self.ident {
                Some(ident) => Some(ident@),
                None => None,
            },
            ty: self.ty@,
        }
    }
}

/// Contain a [`FieldDeclaration`] and an index that track the position of the field to
/// get working getter on tuple structure
#[derive(Debug, Clone, PartialEq, Eq)]
pub struct Field {
    /// the declaration of the field
    pub field: FieldDeclaration,
    /// the position of the field. Mostly for tuple struct
    pub index: usize,
}

/// What a [`Field`] holds.
pub struct FieldView {
    /// the declaration of the field
    pub field: FieldDeclarationView,
    /// the position of the field
    pub index: nat,
}

impl View for Field {
    type V = FieldView;

    open spec fn view(&self) -> FieldView {
        FieldView { field: self.field@, index: self.index as nat }
    }
}

impl Field {
    /// the constructor
    pub fn new(field: FieldDeclaration, index: usize) -> (r: Self)
        ensures
            r.field == field,
            r.index == index,
    {
        Self { field, index }
    }

    /// getter of the declaration of the field
    pub fn field(&self) -> (r: &FieldDeclaration)
        ensures
            *r == self.field,
    {
        &self.field
    }

    /// the getter on the index used for tuple struct
    pub fn index(&self) -> (r: usize)
        ensures
            r == self.index,
    {
        self.index
    }
}

/// Represent the way to access a field. Either with [`Self::Ident`] or [`Self::Index`]
#[derive(Debug, PartialEq, Eq)]
pub enum FieldName {
    /// the field is accessed with an ident as name field
    Ident(String),
    /// the field is accessed with an index as a tuple or uname field
    Index(usize),
}

/// What a [`FieldName`] holds.
pub enum FieldNameView {
    /// the field is accessed with an ident as name field
    Ident(Seq<char>),
    /// the field is accessed with an index as a tuple or uname field
    Index(nat),
}

impl View for FieldName {
    type V = FieldNameView;

    open spec fn view(&self) -> FieldNameView {
        match self {
            FieldName::Ident(ident) => FieldNameView::Ident(ident@),
            FieldName::Index(index) => FieldNameView::Index(*index as nat),
        }
    }
}

impl Clone for FieldName {
    fn clone(&self) -> (r: Self)
        ensures
            r@ == self@,
    {
        match self {
            FieldName::Ident(ident) => FieldName::Ident(ident.clone()),
            FieldName::Index(index) => FieldName::Index(*index),
        }
    }
}

impl FieldNameView {
    /// The way to access a field with the given identifier, or else at the
    /// given position.
    pub open spec fn of_part(ident: Option<Seq<char>>, index: nat) -> FieldNameView {
        match ident {
            Some(ident) => FieldNameView::Ident(ident),
            None => FieldNameView::Index(index),
        }
    }

    /// The way to access a field.
    pub open spec fn of_field(field: FieldView) -> FieldNameView {
        FieldNameView::of_part(field.field.ident, field.index)
    }

    /// The identifier, where the field is accessed by one.
    pub open spec fn ident(self) -> Option<Seq<char>> {
        match self {
            FieldNameView::Ident(ident) => Some(ident),
            FieldNameView::Index(_) => None,
        }
    }

    /// What is written behind `self.` to access the field: the identifier,
    /// or the position in decimal.
    pub open spec fn text(self) -> Seq<char> {
        match self {
            FieldNameView::Ident(ident) => ident,
            FieldNameView::Index(index) => decimal(index),
        }
    }
}

impl FieldName {
    /// Get the way to access the field from a [`Field`].
    /// It clones only the identifier of the field.
    pub fn from_field_ref(field: &Field) -> (r: Self)
        ensures
            r@ == FieldNameView::of_field(field@),
    {
        let ident = match &field.field.ident {
            Some(ident) => Some(ident.clone()),
            None => None,
        };
        Self::from_field_part(ident, field.index)
    }

    /// Get the way to access the field from a [`Field`].
    /// If you want to reuse the field afterward use [`Self::from_field_ref`] instead.
    pub fn from_field(field: Field) -> (r: Self)
        ensures
            r@ == FieldNameView::of_field(field@),
    {
        Self::from_field_part(field.field.ident, field.index)
    }

    /// Create a new self from some moved part of a [`Field`] (the ident and the index).
    pub fn from_field_part(opt_ident: Option<String>, index: usize) -> (r: Self)
        ensures
            r@ == FieldNameView::of_part(
                match opt_ident {
                    Some(ident) => Some(ident@),
                    None => None,
                },
                index as nat,
            ),
    {
        match opt_ident {
            Some(ident) => FieldName::Ident(ident),
            None => FieldName::Index(index),
        }
    }

    /// Return [`Some`] on an identifier and [`None`] on an index
    pub fn require_ident(&self) -> (r: Option<&str>)
        ensures
            r is Some <==> self@.ident() is Some,
            r matches Some(ident) ==> Some(ident@) == self@.ident(),
    {
        match self {
            Self::Ident(ident) => Some(ident.as_str()),
            Self::Index(_) => None,
        }
    }

    /// What is written behind `self.` to access the field.
    pub fn to_string(&self) -> (r: String)
        ensures
            r@ == self@.text(),
    {
        match self {
            Self::Ident(ident) => ident.clone(),
            Self::Index(index) => decimal_text(*index),
        }
    }
}

/// Contain the [`FieldName`] and type of a field
#[derive(Debug, PartialEq, Eq)]
pub struct FieldInformation {
    /// the way to access the field
    pub field_name: FieldName,
    /// The type of the field
    pub ty: String,
}

/// What a [`FieldInformation`] holds.
pub struct FieldInformationView {
    /// the way to access the field
    pub field_name: FieldNameView,
    /// The type of the field
    pub ty: Seq<char>,
}

impl View for FieldInformation {
    type V = FieldInformationView;

    open spec fn view(&self) -> FieldInformationView {
        FieldInformationView { field_name: self.field_name@, ty: self.ty@ }
    }
}

impl Clone for FieldInformation {
    fn clone(&self) -> (r: Self)
        ensures
            r@ == self@,
    {
        FieldInformation { field_name: self.field_name.clone(), ty: self.ty.clone() }
    }
}

impl FieldInformationView {
    /// The name and the type of a field.
    pub open spec fn of_field(field: FieldView) -> FieldInformationView {
        FieldInformationView { field_name: FieldNameView::of_field(field), ty: field.field.ty }
    }
}

impl FieldInformation {
    /// Create a [`FieldInformation`] from a [`Field`].
    pub fn from_field(field: Field) -> (r: Self)
        ensures
            r@ == FieldInformationView::of_field(field@),
    {
        Self {
            field_name: FieldName::from_field_part(field.field.ident, field.index),
            ty: field.field.ty,
        }
    }

    /// Getter on the field name.
    pub fn field_name(&self) -> (r: &FieldName)
        ensures
            *r == self.field_name,
    {
        &self.field_name
    }

    /// Getter on the type of the field.
    pub fn ty(&self) -> (r: &str)
        ensures
            r@ == self.ty@,
    {
        self.ty.as_str()
    }
}

} // verus!
