//! The arguments of a directive, as far as the directive's grammar looks into them.
//!
//! An argument is an expression of the host language. The grammar tells a
//! call from an assignment from anything else, and looks one level into a
//! call (its callee and its arguments) and into an assignment (its two
//! sides). `Operand` is what it sees there.

use proc_macro2::Span;
use vstd::prelude::*;

verus! {

/// An identifier as it was written: its text and the place it stands.
#[derive(Clone, Debug)]
pub struct Name {
    pub text: String,
    pub span: Span,
}

/// A [`Name`] as contracts see it: its text as a sequence of characters.
pub struct NameView {
    pub text: Seq<char>,
    pub span: Span,
}

impl View for Name {
    type V = NameView;

    open spec fn view(&self) -> NameView {
        NameView { text: self.text@, span: self.span }
    }
}

/// The views of a sequence of names, in order.
pub open spec fn name_views(names: Seq<Name>) -> Seq<NameView> {
    names.map_values(|n: Name| n@)
}

/// An expression below the top of an argument.
#[derive(Clone, Debug)]
pub enum Operand {
    /// A path that is one bare identifier.
    Ident { name: String, span: Span },
    /// Any other path.
    Path { span: Span },
    /// A string literal, with the text it denotes.
    Str { value: String, span: Span },
    /// Any other expression.
    Other { span: Span },
}

/// An [`Operand`] as contracts see it.
pub enum OperandView {
    Ident { name: Seq<char>, span: Span },
    Path { span: Span },
    Str { value: Seq<char>, span: Span },
    Other { span: Span },
}

impl OperandView {
    /// The place the operand stands.
    pub open spec fn span(self) -> Span {
        match self {
            OperandView::Ident { span, .. } => span,
            OperandView::Path { span } => span,
            OperandView::Str { span, .. } => span,
            OperandView::Other { span } => span,
        }
    }
}

impl View for Operand {
    type V = OperandView;

    open spec fn view(&self) -> OperandView {
        match self {
            Operand::Ident { name, span } => OperandView::Ident { name: name@, span: *span },
            Operand::Path { span } => OperandView::Path { span: *span },
            Operand::Str { value, span } => OperandView::Str { value: value@, span: *span },
            Operand::Other { span } => OperandView::Other { span: *span },
        }
    }
}

impl Operand {
    /// The place the operand stands.
    pub fn span(&self) -> (span: Span)
        ensures
            span == self@.span(),
    {
        match self {
            Operand::Ident { span, .. } => *span,
            Operand::Path { span } => *span,
            Operand::Str { span, .. } => *span,
            Operand::Other { span } => *span,
        }
    }
}

/// The views of a sequence of operands, in order.
pub open spec fn operand_views(operands: Seq<Operand>) -> Seq<OperandView> {
    operands.map_values(|o: Operand| o@)
}

/// One argument of a directive.
#[derive(Clone, Debug)]
pub enum Argument {
    /// `callee(args...)`.
    Call { callee: Operand, args: Vec<Operand> },
    /// `target = value`.
    Assign { target: Operand, value: Operand },
    /// Any other expression.
    Other { span: Span },
}

/// An [`Argument`] as contracts see it.
pub enum ArgumentView {
    Call { callee: OperandView, args: Seq<OperandView> },
    Assign { target: OperandView, value: OperandView },
    Other { span: Span },
}

impl View for Argument {
    type V = ArgumentView;

    open spec fn view(&self) -> ArgumentView {
        match self {
            Argument::Call { callee, args } => ArgumentView::Call {
                callee: callee@,
                args: operand_views(args@),
            },
            Argument::Assign { target, value } => ArgumentView::Assign {
                target: target@,
                value: value@,
            },
            Argument::Other { span } => ArgumentView::Other { span: *span },
        }
    }
}

/// The views of a sequence of arguments, in order.
pub open spec fn argument_views(arguments: Seq<Argument>) -> Seq<ArgumentView> {
    arguments.map_values(|a: Argument| a@)
}

} // verus!
