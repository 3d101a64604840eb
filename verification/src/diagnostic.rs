//! Diagnostics: what went wrong and where.

use proc_macro2::Span;
use vstd::prelude::*;

verus! {

/// Every way in which a directive or its declaration can be refused.
#[derive(Clone, Copy, Debug, PartialEq, Eq, Structural)]
pub enum Problem {
    /// An argument is neither a call nor an assignment.
    UnsupportedArgument,
    /// The callee of a call is not a path.
    CalleeNotPath,
    /// The callee of a call is a path other than the bare name `ignore`.
    CalleeNotIgnore,
    /// An argument of `ignore(...)` is not a bare identifier.
    IgnoredNotIdentifier,
    /// The left-hand side of an assignment is not a path.
    TargetNotPath,
    /// The left-hand side of an assignment is a path, but no bare identifier.
    TargetNotIdentifier,
    /// The left-hand side of an assignment is an identifier other than `method`.
    TargetNotMethod,
    /// The right-hand side of `method = ...` is not a string literal.
    MethodNotString,
    /// The declaration is a struct without named fields.
    FieldsNotNamed,
    /// The declaration is not a struct.
    NotStruct,
    /// Every field is ignored.
    NothingToCompare,
    /// The tokens are not what the host grammar expects.
    Syntax,
}

/// The kinds of refusal.
#[derive(Clone, Copy, Debug, PartialEq, Eq, Structural)]
pub enum Category {
    /// An argument of the directive is not of a shape that the directive knows.
    MalformedArgument,
    /// The directive stands on something other than a struct with named fields.
    WrongDeclarationKind,
    /// No field would be left to compare.
    VacuousComparison,
    /// The host grammar could not read the tokens.
    HostSyntax,
}

impl Problem {
    /// The kind of refusal that a problem belongs to.
    pub open spec fn category_spec(self) -> Category {
        match self {
            Problem::FieldsNotNamed | Problem::NotStruct => Category::WrongDeclarationKind,
            Problem::NothingToCompare => Category::VacuousComparison,
            Problem::Syntax => Category::HostSyntax,
            _ => Category::MalformedArgument,
        }
    }

    /// The kind of refusal that a problem belongs to.
    #[verifier::when_used_as_spec(category_spec)]
    pub fn category(self) -> (category: Category)
        ensures
            category == self.category_spec(),
    {
        match self {
            Problem::FieldsNotNamed | Problem::NotStruct => Category::WrongDeclarationKind,
            Problem::NothingToCompare => Category::VacuousComparison,
            Problem::Syntax => Category::HostSyntax,
            _ => Category::MalformedArgument,
        }
    }

    /// The text of a problem. For `Syntax` it is a general word only: a
    /// diagnostic that the host grammar raises carries the grammar's own sentence.
    pub open spec fn text(self) -> Seq<char> {
        match self {
            Problem::UnsupportedArgument => "unsupported argument; use `ignore(...)` or `method = \"...\"`"@,
            Problem::CalleeNotPath => "expected path in ignore(...)"@,
            Problem::CalleeNotIgnore => "expected `ignore(...)`"@,
            Problem::IgnoredNotIdentifier => "expected identifier in ignore(...)"@,
            Problem::TargetNotPath => "expected `method = \"...\"` syntax"@,
            Problem::TargetNotIdentifier => "expected identifier on left-hand side"@,
            Problem::TargetNotMethod => "expected `method` on left-hand side"@,
            Problem::MethodNotString => "method value must be a string literal"@,
            Problem::FieldsNotNamed => "subset_eq only supports structs with named fields"@,
            Problem::NotStruct => "subset_eq can only be applied to structs"@,
            Problem::NothingToCompare => "no fields left to compare after ignoring specified ones"@,
            Problem::Syntax => "syntax error"@,
        }
    }

    /// The text of a problem, as a diagnostic shows it.
    pub fn message(self) -> (text: String)
        ensures
            text@ == self.text(),
    {
        match self {
            Problem::UnsupportedArgument => "unsupported argument; use `ignore(...)` or `method = \"...\"`".to_owned(),
            Problem::CalleeNotPath => "expected path in ignore(...)".to_owned(),
            Problem::CalleeNotIgnore => "expected `ignore(...)`".to_owned(),
            Problem::IgnoredNotIdentifier => "expected identifier in ignore(...)".to_owned(),
            Problem::TargetNotPath => "expected `method = \"...\"` syntax".to_owned(),
            Problem::TargetNotIdentifier => "expected identifier on left-hand side".to_owned(),
            Problem::TargetNotMethod => "expected `method` on left-hand side".to_owned(),
            Problem::MethodNotString => "method value must be a string literal".to_owned(),
            Problem::FieldsNotNamed => "subset_eq only supports structs with named fields".to_owned(),
            Problem::NotStruct => "subset_eq can only be applied to structs".to_owned(),
            Problem::NothingToCompare => "no fields left to compare after ignoring specified ones".to_owned(),
            Problem::Syntax => "syntax error".to_owned(),
        }
    }
}

/// A refusal: the problem, the text to show, and the place to point at.
#[derive(Clone, Debug)]
pub struct Diagnostic {
    pub problem: Problem,
    pub message: String,
    pub span: Span,
}

/// A [`Diagnostic`] as contracts see it.
pub struct DiagnosticView {
    pub problem: Problem,
    pub message: Seq<char>,
    pub span: Span,
}

/// The diagnostic for `problem` in its fixed text, pointing at `span`.
pub open spec fn diagnostic_at(problem: Problem, span: Span) -> DiagnosticView {
    DiagnosticView { problem, message: problem.text(), span }
}

impl Diagnostic {
    /// A diagnostic for `problem` in its fixed text, pointing at `span`.
    pub fn new(problem: Problem, span: Span) -> (d: Diagnostic)
        ensures
            d@ == diagnostic_at(problem, span),
    {
        Diagnostic { problem, message: problem.message(), span }
    }
}

impl View for Diagnostic {
    type V = DiagnosticView;

    open spec fn view(&self) -> DiagnosticView {
        DiagnosticView { problem: self.problem, message: self.message@, span: self.span }
    }
}

} // verus!
