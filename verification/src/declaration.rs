//! The declaration a directive stands on, as far as generation reads it.

use crate::argument::{name_views, Name, NameView};
use proc_macro2::Span;
use vstd::prelude::*;

verus! {

/// The kinds of declaration that generation tells apart.
#[derive(Clone, Debug)]
pub enum Shape {
    /// A struct with named fields, in the order declared.
    Record { fields: Vec<Name> },
    /// A struct with positional fields or with none; `span` is where its field list stands.
    Positional { span: Span },
    /// An enum or a union.
    NotStruct,
}

/// A [`Shape`] as contracts see it.
pub enum ShapeView {
    Record { fields: Seq<NameView> },
    Positional { span: Span },
    NotStruct,
}

impl View for Shape {
    type V = ShapeView;

    open spec fn view(&self) -> ShapeView {
        match self {
            Shape::Record { fields } => ShapeView::Record { fields: name_views(fields@) },
            Shape::Positional { span } => ShapeView::Positional { span: *span },
            Shape::NotStruct => ShapeView::NotStruct,
        }
    }
}

/// A type declaration: its name, the place of the whole item, and its shape.
/// The types of the fields are not held: a generated comparison leaves
/// each field to that field's own equality.
#[derive(Clone, Debug)]
pub struct Declaration {
    pub name: Name,
    pub span: Span,
    pub shape: Shape,
}

/// A [`Declaration`] as contracts see it.
pub struct DeclarationView {
    pub name: NameView,
    pub span: Span,
    pub shape: ShapeView,
}

impl View for Declaration {
    type V = DeclarationView;

    open spec fn view(&self) -> DeclarationView {
        DeclarationView { name: self.name@, span: self.span, shape: self.shape@ }
    }
}

} // verus!
