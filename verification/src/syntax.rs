//! Reading tokens: from the host's token streams to arguments and declarations.
//!
//! How tokens read as expressions and declarations is the host grammar's
//! matter. What is read here is how far the directive looks into them:
//! the kind of each argument and of its parts, the names of the fields.
//! The contracts say so over what the host grammar hands back, step by
//! step. Of a place that the host puts together from several tokens they
//! say nothing: such a place is taken as it comes.

use crate::argument::{
    argument_views, name_views, operand_views, Argument, ArgumentView, Name, NameView, Operand,
    OperandView,
};
use crate::declaration::{Declaration, DeclarationView, Shape, ShapeView};
use crate::diagnostic::{Diagnostic, DiagnosticView, Problem};
use crate::host::{
    declaration, declaration_in, declared_at, declared_ident, declared_ident_of, denoted,
    error_place, error_text, expressions, expressions_in, field_ident, field_ident_of,
    fields_place, ident_place, ident_text, layout, layout_of, lit_place, lit_place_of, message_of,
    node, node_of, place, place_of, sole_ident, sole_ident_of, string_in, string_literal, text_of,
    value_of, Layout, LayoutView, Node, NodeView,
};
use proc_macro2::{Ident, TokenStream};
use syn::{DeriveInput, Expr, Field};
use vstd::prelude::*;

verus! {

/// The name that an identifier reads as: its text, and the place it stands.
pub open spec fn name_read(ident: Ident) -> NameView {
    NameView { text: text_of(ident), span: place_of(ident) }
}

/// Whether `operand` is how `expr` reads below the top of an argument.
///
/// A path that is one bare identifier reads as that identifier, where
/// the identifier stands. A string literal reads as the text it denotes,
/// another literal as some other expression, both where the literal
/// stands. Any other path reads as a path, and anything else as some
/// other expression, at the place that the host gives the expression.
pub open spec fn reads_as_operand(expr: Expr, operand: OperandView) -> bool {
    match node_of(expr) {
        NodeView::Path { path } => match sole_ident_of(path) {
            Some(ident) => operand == (OperandView::Ident {
                name: text_of(ident),
                span: place_of(ident),
            }),
            None => operand is Path,
        },
        NodeView::Lit { lit } => match string_in(lit) {
            Some(string) => operand == (OperandView::Str {
                value: value_of(string),
                span: lit_place_of(lit),
            }),
            None => operand == (OperandView::Other { span: lit_place_of(lit) }),
        },
        _ => operand is Other,
    }
}

/// Whether `argument` is how `expr` reads as an argument of a directive.
///
/// A call reads as a call, its callee and each of its arguments as
/// operands, in order. An assignment reads as an assignment, its two
/// sides as operands. Anything else reads as some other expression, at
/// the place that the host gives it.
pub open spec fn reads_as_argument(expr: Expr, argument: ArgumentView) -> bool {
    match node_of(expr) {
        NodeView::Call { callee, args } => {
            &&& argument is Call
            &&& reads_as_operand(callee, argument->callee)
            &&& argument->args.len() == args.len()
            &&& forall|i: int|
                0 <= i < args.len() ==> reads_as_operand(args[i], #[trigger] argument->args[i])
        },
        NodeView::Assign { target, value } => {
            &&& argument is Assign
            &&& reads_as_operand(target, argument->target)
            &&& reads_as_operand(value, argument->value)
        },
        _ => argument is Other,
    }
}

/// Whether `arguments` are how the expressions `list` read, one argument for each, in order.
pub open spec fn read_as_arguments(list: Seq<Expr>, arguments: Seq<ArgumentView>) -> bool {
    &&& arguments.len() == list.len()
    &&& forall|i: int| 0 <= i < list.len() ==> reads_as_argument(list[i], #[trigger] arguments[i])
}

/// The names of the fields that have one, in order.
pub open spec fn names_of(fields: Seq<Field>) -> Seq<NameView>
    decreases fields.len(),
{
    if fields.len() == 0 {
        Seq::empty()
    } else {
        match field_ident_of(fields.last()) {
            Some(ident) => names_of(fields.drop_last()).push(name_read(ident)),
            None => names_of(fields.drop_last()),
        }
    }
}

/// Whether `shape` is how a declaration of the layout `layout` reads.
///
/// A struct with named fields reads as a record of their names, in the
/// order declared. Another struct reads as positional, at the place
/// that the host gives its field list. An enum or a union reads as no struct.
pub open spec fn reads_as_shape(layout: LayoutView, shape: ShapeView) -> bool {
    match layout {
        LayoutView::Named { fields } => shape == (ShapeView::Record { fields: names_of(fields) }),
        LayoutView::Positional { .. } => shape is Positional,
        LayoutView::NotStruct => shape is NotStruct,
    }
}

/// Whether `declaration` is how the item `input` reads: under its name,
/// in its shape, at the place that the host gives the item.
pub open spec fn read_as_declaration(input: DeriveInput, declaration: DeclarationView) -> bool {
    &&& declaration.name == name_read(declared_ident_of(input))
    &&& reads_as_shape(layout_of(input), declaration.shape)
}

/// Whether `d` stands for the refusal `error` of the host grammar, in the grammar's own words.
pub open spec fn refused_as(error: syn::Error, d: DiagnosticView) -> bool {
    d.problem == Problem::Syntax && d.message == message_of(error)
}

/// The diagnostic that stands for a refusal by the host grammar, in the grammar's own words.
fn syntax_error(error: &syn::Error) -> (d: Diagnostic)
    ensures
        refused_as(*error, d@),
{
    Diagnostic { problem: Problem::Syntax, message: error_text(error), span: error_place(error) }
}

/// An identifier as a name: its text, and the place it stands.
fn name_of(ident: &Ident) -> (name: Name)
    ensures
        name@ == name_read(*ident),
{
    Name { text: ident_text(ident), span: ident_place(ident) }
}

/// An expression as an operand.
fn operand(expr: &Expr) -> (operand: Operand)
    ensures
        reads_as_operand(*expr, operand@),
{
    match node(expr) {
        Node::Path { path } => match sole_ident(path) {
            Some(ident) => {
                let name = name_of(ident);
                Operand::Ident { name: name.text, span: name.span }
            },
            None => Operand::Path { span: place(expr) },
        },
        Node::Lit { lit } => match string_literal(lit) {
            Some(string) => Operand::Str { value: denoted(string), span: lit_place(lit) },
            None => Operand::Other { span: lit_place(lit) },
        },
        _ => Operand::Other { span: place(expr) },
    }
}

/// An expression as an argument.
fn argument(expr: &Expr) -> (argument: Argument)
    ensures
        reads_as_argument(*expr, argument@),
{
    match node(expr) {
        Node::Call { callee, args } => {
            let mut operands: Vec<Operand> = Vec::new();
            let mut i: usize = 0;
            while i < args.len()
                invariant
                    i <= args.len(),
                    operands.len() == i,
                    forall|j: int|
                        0 <= j < i ==> reads_as_operand(*args@[j], #[trigger] operands@[j]@),
                decreases args.len() - i,
            {
                operands.push(operand(args[i]));
                i += 1;
            }
            let callee = operand(callee);
            proof {
                let read = operand_views(operands@);
                assert forall|j: int| 0 <= j < args.len() implies reads_as_operand(
                    *args@[j],
                    #[trigger] read[j],
                ) by {
                    assert(read[j] == operands@[j]@);
                }
            }
            Argument::Call { callee, args: operands }
        },
        Node::Assign { target, value } => Argument::Assign {
            target: operand(target),
            value: operand(value),
        },
        _ => Argument::Other { span: place(expr) },
    }
}

/// Reads the tokens between a directive's parentheses as its arguments.
///
/// What the host grammar takes as a list of expressions gives one
/// argument for each expression, in order. What it refuses gives a
/// `Syntax` diagnostic in the grammar's own words.
pub fn read_arguments(tokens: TokenStream) -> (result: Result<Vec<Argument>, Diagnostic>)
    ensures
        match (expressions_in(tokens), result) {
            (Ok(list), Ok(arguments)) => read_as_arguments(list, argument_views(arguments@)),
            (Err(error), Err(d)) => refused_as(error, d@),
            _ => false,
        },
{
    let list = match expressions(tokens) {
        Ok(list) => list,
        Err(error) => {
            return Err(syntax_error(&error));
        },
    };
    let mut arguments: Vec<Argument> = Vec::new();
    let mut i: usize = 0;
    while i < list.len()
        invariant
            i <= list.len(),
            arguments.len() == i,
            forall|j: int| 0 <= j < i ==> reads_as_argument(list@[j], #[trigger] arguments@[j]@),
        decreases list.len() - i,
    {
        arguments.push(argument(&list[i]));
        i += 1;
    }
    proof {
        let read = argument_views(arguments@);
        assert forall|j: int| 0 <= j < list.len() implies reads_as_argument(
            list@[j],
            #[trigger] read[j],
        ) by {
            assert(read[j] == arguments@[j]@);
        }
    }
    Ok(arguments)
}

/// Reads the tokens of the item that a directive stands on as a declaration.
///
/// What the host grammar takes as a struct, an enum or a union gives a
/// declaration of that name and shape, at the place that the host gives
/// the item. What it refuses gives a `Syntax` diagnostic in the grammar's own words.
pub fn read_declaration(tokens: TokenStream) -> (result: Result<Declaration, Diagnostic>)
    ensures
        match (declaration_in(tokens), result) {
            (Ok(input), Ok(declaration)) => read_as_declaration(input, declaration@),
            (Err(error), Err(d)) => refused_as(error, d@),
            _ => false,
        },
{
    let input = match declaration(tokens) {
        Ok(input) => input,
        Err(error) => {
            return Err(syntax_error(&error));
        },
    };
    let shape = match layout(&input) {
        Layout::Named { fields } => {
            let ghost all = fields@.map_values(|field: &Field| *field);
            let mut names: Vec<Name> = Vec::new();
            let mut i: usize = 0;
            assert(all.take(0) == Seq::<Field>::empty());
            while i < fields.len()
                invariant
                    i <= fields.len(),
                    all == fields@.map_values(|field: &Field| *field),
                    name_views(names@) == names_of(all.take(i as int)),
                decreases fields.len() - i,
            {
                assert(all.take(i as int + 1).drop_last() == all.take(i as int));
                assert(all.take(i as int + 1).last() == *fields@[i as int]);
                // Every field of a named list has a name.
                match field_ident(fields[i]) {
                    Some(ident) => {
                        names.push(name_of(ident));
                    },
                    None => {},
                }
                i += 1;
            }
            assert(all.take(i as int) == all);
            Shape::Record { fields: names }
        },
        Layout::Positional { fields } => Shape::Positional { span: fields_place(fields) },
        Layout::NotStruct => Shape::NotStruct,
    };
    Ok(Declaration { name: name_of(declared_ident(&input)), span: declared_at(&input), shape })
}

} // verus!
