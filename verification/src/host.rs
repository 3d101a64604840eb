//! The host grammar: `syn`'s syntax trees, and `proc_macro2`'s tokens and spans.
//!
//! Everything that Verus takes on trust stands in this file. The types
//! are opaque: nothing is known of a value but its identity. Each
//! function with a body makes one step into a syntax tree and hands back
//! what stands there. What it hands back has a name, a function without a
//! body, where it depends on nothing but the value looked into: the
//! contract of the step says that much and no more. So nothing is claimed
//! of how tokens read, only that the same tokens read the same. A place
//! that is put together from the places of several tokens has no name:
//! how far two places join is for the host to say.

use proc_macro2::{Ident, Span, TokenStream};
use syn::parse::Parser;
use syn::punctuated::Punctuated;
use syn::spanned::Spanned;
use syn::token::Comma;
use syn::{Data, DeriveInput, Expr, Field, Fields, Lit, LitStr, Path};
use vstd::prelude::*;

verus! {

/// `proc_macro2::Span`: a region of source text. Nothing is known of a span
/// but its identity; the library only carries spans from the node they
/// were read on to the diagnostic that points there.
#[verifier::external_type_specification]
#[verifier::external_body]
pub struct ExSpan(Span);

/// `Span::clone`: a span is `Copy`, so its clone is the span itself.
pub assume_specification[ <Span as Clone>::clone ](span: &Span) -> (copy: Span)
    ensures
        copy == *span,
;

/// `proc_macro2::TokenStream`: a sequence of tokens of the host language.
#[verifier::external_type_specification]
#[verifier::external_body]
pub struct ExTokenStream(TokenStream);

/// `proc_macro2::Ident`: an identifier, with the place it stands.
#[verifier::external_type_specification]
#[verifier::external_body]
pub struct ExIdent(Ident);

/// `syn::Expr`: an expression of the host language.
#[verifier::external_type_specification]
#[verifier::external_body]
pub struct ExExpr(Expr);

/// `syn::Path`: a path, such as `a::b` or the bare `a`.
#[verifier::external_type_specification]
#[verifier::external_body]
pub struct ExPath(Path);

/// `syn::Lit`: a literal.
#[verifier::external_type_specification]
#[verifier::external_body]
pub struct ExLit(Lit);

/// `syn::LitStr`: a string literal.
#[verifier::external_type_specification]
#[verifier::external_body]
pub struct ExLitStr(LitStr);

/// `syn::DeriveInput`: the declaration of a struct, an enum or a union.
#[verifier::external_type_specification]
#[verifier::external_body]
pub struct ExDeriveInput(DeriveInput);

/// `syn::Fields`: the field list of a struct, named, positional or absent.
#[verifier::external_type_specification]
#[verifier::external_body]
pub struct ExFields(Fields);

/// `syn::Field`: one field of a struct.
#[verifier::external_type_specification]
#[verifier::external_body]
pub struct ExField(Field);

/// `syn::Error`: why `syn` could not read some tokens.
#[verifier::external_type_specification]
#[verifier::external_body]
pub struct ExError(syn::Error);

/// One step into an expression: its kind, and the parts that the directive's grammar reads.
pub enum Node<'a> {
    Call { callee: &'a Expr, args: Vec<&'a Expr> },
    Assign { target: &'a Expr, value: &'a Expr },
    Path { path: &'a Path },
    Lit { lit: &'a Lit },
    Other,
}

/// A [`Node`] as contracts see it.
pub enum NodeView {
    Call { callee: Expr, args: Seq<Expr> },
    Assign { target: Expr, value: Expr },
    Path { path: Path },
    Lit { lit: Lit },
    Other,
}

impl<'a> View for Node<'a> {
    type V = NodeView;

    open spec fn view(&self) -> NodeView {
        match *self {
            Node::Call { callee, args } => NodeView::Call {
                callee: *callee,
                args: args@.map_values(|arg: &'a Expr| *arg),
            },
            Node::Assign { target, value } => NodeView::Assign { target: *target, value: *value },
            Node::Path { path } => NodeView::Path { path: *path },
            Node::Lit { lit } => NodeView::Lit { lit: *lit },
            Node::Other => NodeView::Other,
        }
    }
}

/// One step into a declaration: its kind, and the field list of a struct.
pub enum Layout<'a> {
    Named { fields: Vec<&'a Field> },
    Positional { fields: &'a Fields },
    NotStruct,
}

/// A [`Layout`] as contracts see it.
pub enum LayoutView {
    Named { fields: Seq<Field> },
    Positional { fields: Fields },
    NotStruct,
}

impl<'a> View for Layout<'a> {
    type V = LayoutView;

    open spec fn view(&self) -> LayoutView {
        match *self {
            Layout::Named { fields } => LayoutView::Named {
                fields: fields@.map_values(|field: &'a Field| *field),
            },
            Layout::Positional { fields } => LayoutView::Positional { fields: *fields },
            Layout::NotStruct => LayoutView::NotStruct,
        }
    }
}

/// What `Punctuated::<Expr, Comma>::parse_terminated` makes of a stream.
pub uninterp spec fn expressions_in(tokens: TokenStream) -> Result<Seq<Expr>, syn::Error>;

/// What `syn::parse2::<DeriveInput>` makes of a stream.
pub uninterp spec fn declaration_in(tokens: TokenStream) -> Result<DeriveInput, syn::Error>;

/// Which variant of `syn::Expr` an expression is, with the parts of that variant.
pub uninterp spec fn node_of(expr: Expr) -> NodeView;

/// What `Path::get_ident` gives for a path.
pub uninterp spec fn sole_ident_of(path: Path) -> Option<Ident>;

/// What `Ident::to_string` gives for an identifier.
pub uninterp spec fn text_of(ident: Ident) -> Seq<char>;

/// What `Ident::span` gives for an identifier.
pub uninterp spec fn place_of(ident: Ident) -> Span;

/// The string literal that a `syn::Lit` is, where it is one.
pub uninterp spec fn string_in(lit: Lit) -> Option<LitStr>;

/// What `LitStr::value` gives for a string literal.
pub uninterp spec fn value_of(string: LitStr) -> Seq<char>;

/// What `Lit::span` gives for a literal.
pub uninterp spec fn lit_place_of(lit: Lit) -> Span;

/// What the `Display` of a `syn::Error` writes.
pub uninterp spec fn message_of(error: syn::Error) -> Seq<char>;

/// The `ident` of a declaration.
pub uninterp spec fn declared_ident_of(input: DeriveInput) -> Ident;

/// Which variant of `syn::Data` a declaration holds and, for a struct, which of `syn::Fields`.
pub uninterp spec fn layout_of(input: DeriveInput) -> LayoutView;

/// The `ident` of a field.
pub uninterp spec fn field_ident_of(field: Field) -> Option<Ident>;

/// `Punctuated::<Expr, Comma>::parse_terminated`, run by `Parser::parse2`:
/// reads the whole stream as expressions with commas between them, one
/// allowed at the end, and gives the expressions in order. Nothing is
/// claimed of which streams read and as what: only that what comes is
/// what `expressions_in` names.
#[verifier::external_body]
pub(crate) fn expressions(tokens: TokenStream) -> (list: Result<Vec<Expr>, syn::Error>)
    ensures
        match list {
            Ok(list) => expressions_in(tokens) == Ok::<Seq<Expr>, syn::Error>(list@),
            Err(error) => expressions_in(tokens) == Err::<Seq<Expr>, syn::Error>(error),
        },
{
    let list = Punctuated::<Expr, Comma>::parse_terminated.parse2(tokens)?;
    Ok(list.into_iter().collect())
}

/// `syn::parse2::<DeriveInput>`: reads the whole stream as one declaration.
/// Nothing is claimed of which streams read and as what: only that what
/// comes is what `declaration_in` names.
#[verifier::external_body]
pub(crate) fn declaration(tokens: TokenStream) -> (input: Result<DeriveInput, syn::Error>)
    ensures
        input == declaration_in(tokens),
{
    syn::parse2::<DeriveInput>(tokens)
}

/// The variants of `syn::Expr` told apart: a call with its `func` and
/// `args`, an assignment with its `left` and `right`, a path expression
/// with its `path`, a literal expression with its `lit`. What comes is
/// what `node_of` names.
#[verifier::external_body]
pub(crate) fn node(expr: &Expr) -> (node: Node<'_>)
    ensures
        node@ == node_of(*expr),
{
    match expr {
        Expr::Call(call) => Node::Call { callee: &call.func, args: call.args.iter().collect() },
        Expr::Assign(assign) => Node::Assign { target: &assign.left, value: &assign.right },
        Expr::Path(path) => Node::Path { path: &path.path },
        Expr::Lit(lit) => Node::Lit { lit: &lit.lit },
        _ => Node::Other,
    }
}

/// `Spanned::span` of an expression: the place it stands, put together
/// from the places of its first and its last token.
#[verifier::external_body]
pub(crate) fn place(expr: &Expr) -> (span: Span) {
    expr.span()
}

/// `Path::get_ident`: the one identifier that the path consists of, where
/// it is no more than that. What comes is what `sole_ident_of` names.
#[verifier::external_body]
pub(crate) fn sole_ident(path: &Path) -> (ident: Option<&Ident>)
    ensures
        match ident {
            Some(ident) => sole_ident_of(*path) == Some(*ident),
            None => sole_ident_of(*path) is None,
        },
{
    path.get_ident()
}

/// `Ident::to_string`: the identifier as it is written, a raw one with
/// its `r#`. What comes is what `text_of` names.
#[verifier::external_body]
pub(crate) fn ident_text(ident: &Ident) -> (text: String)
    ensures
        text@ == text_of(*ident),
{
    ident.to_string()
}

/// `Ident::span`: the place an identifier stands, as the identifier
/// holds it. What comes is what `place_of` names.
#[verifier::external_body]
pub(crate) fn ident_place(ident: &Ident) -> (span: Span)
    ensures
        span == place_of(*ident),
{
    ident.span()
}

/// The variant `Str` of `syn::Lit` told from the others: the string
/// literal, where the literal is one. What comes is what `string_in` names.
#[verifier::external_body]
pub(crate) fn string_literal(lit: &Lit) -> (string: Option<&LitStr>)
    ensures
        match string {
            Some(string) => string_in(*lit) == Some(*string),
            None => string_in(*lit) is None,
        },
{
    match lit {
        Lit::Str(string) => Some(string),
        _ => None,
    }
}

/// `LitStr::value`: the text that a string literal denotes, its escapes
/// resolved. What comes is what `value_of` names.
#[verifier::external_body]
pub(crate) fn denoted(string: &LitStr) -> (text: String)
    ensures
        text@ == value_of(*string),
{
    string.value()
}

/// `Lit::span`: the place a literal stands, as its token holds it. What
/// comes is what `lit_place_of` names.
#[verifier::external_body]
pub(crate) fn lit_place(lit: &Lit) -> (span: Span)
    ensures
        span == lit_place_of(*lit),
{
    lit.span()
}

/// The `Display` of a `syn::Error`: its message, the first where it holds
/// several. What comes is what `message_of` names.
#[verifier::external_body]
pub(crate) fn error_text(error: &syn::Error) -> (text: String)
    ensures
        text@ == message_of(*error),
{
    error.to_string()
}

/// `Error::span`: the place that a `syn::Error` points at. It is the
/// caller's own place where the error was made on another thread, so it has no name.
#[verifier::external_body]
pub(crate) fn error_place(error: &syn::Error) -> (span: Span) {
    error.span()
}

/// The `ident` of a declaration: the name of the type declared. What
/// comes is what `declared_ident_of` names.
#[verifier::external_body]
pub(crate) fn declared_ident(input: &DeriveInput) -> (ident: &Ident)
    ensures
        *ident == declared_ident_of(*input),
{
    &input.ident
}

/// `Spanned::span` of a declaration: the place of the whole item, put
/// together from the places of its first and its last token.
#[verifier::external_body]
pub(crate) fn declared_at(input: &DeriveInput) -> (span: Span) {
    input.span()
}

/// The variants of `syn::Data` and, for a struct, of `syn::Fields` told
/// apart: the fields of a named list in order, or else the field list
/// itself. What comes is what `layout_of` names.
#[verifier::external_body]
pub(crate) fn layout(input: &DeriveInput) -> (layout: Layout<'_>)
    ensures
        layout@ == layout_of(*input),
{
    match &input.data {
        Data::Struct(data) => match &data.fields {
            Fields::Named(list) => Layout::Named { fields: list.named.iter().collect() },
            other => Layout::Positional { fields: other },
        },
        _ => Layout::NotStruct,
    }
}

/// `Spanned::span` of a field list: the place it stands, put together
/// from the places of its first and its last token.
#[verifier::external_body]
pub(crate) fn fields_place(fields: &Fields) -> (span: Span) {
    fields.span()
}

/// The `ident` of a field: its name, where it has one. What comes is
/// what `field_ident_of` names.
#[verifier::external_body]
pub(crate) fn field_ident(field: &Field) -> (ident: Option<&Ident>)
    ensures
        match ident {
            Some(ident) => field_ident_of(*field) == Some(*ident),
            None => field_ident_of(*field) is None,
        },
{
    field.ident.as_ref()
}

} // verus!
