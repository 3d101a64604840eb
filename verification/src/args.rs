//! The directive's arguments: which fields to leave out, and what to call the method.
//!
//! Two shapes are understood, in any order and any number of times:
//! `ignore(a, b, ...)` and `method = "name"`. The ignored names of all
//! `ignore` calls are put together in the order written. Of several
//! `method` assignments the last one counts. The first argument that is
//! neither shape ends the reading, and nothing of what was read so far is kept.

use crate::argument::{
    argument_views, name_views, operand_views, Argument, ArgumentView, Name, NameView, Operand,
    OperandView,
};
use crate::diagnostic::{diagnostic_at, Diagnostic, DiagnosticView, Problem};
use proc_macro2::Span;
use vstd::prelude::*;

verus! {

/// The callee that marks a list of fields to leave out.
pub open spec fn ignore_word() -> Seq<char> {
    "ignore"@
}

/// The assignment target that names the method.
pub open spec fn method_word() -> Seq<char> {
    "method"@
}

/// What a directive asks for.
#[derive(Clone, Debug)]
pub struct Args {
    /// The names to leave out, in the order written; a name may stand more than once.
    pub ignored: Vec<Name>,
    /// The name for the method, where the directive gives one.
    pub method: Option<String>,
}

/// [`Args`] as contracts see them.
pub struct ArgsView {
    pub ignored: Seq<NameView>,
    pub method: Option<Seq<char>>,
}

impl View for Args {
    type V = ArgsView;

    open spec fn view(&self) -> ArgsView {
        ArgsView {
            ignored: name_views(self.ignored@),
            method: match self.method {
                Some(name) => Some(name@),
                None => None,
            },
        }
    }
}

/// The place of the first operand that is not a bare identifier, if there is one.
pub open spec fn first_non_identifier(operands: Seq<OperandView>) -> Option<Span>
    decreases operands.len(),
{
    if operands.len() == 0 {
        None
    } else if operands[0] is Ident {
        first_non_identifier(operands.drop_first())
    } else {
        Some(operands[0].span())
    }
}

/// The bare identifiers among the operands, in order.
pub open spec fn identifiers(operands: Seq<OperandView>) -> Seq<NameView>
    decreases operands.len(),
{
    if operands.len() == 0 {
        Seq::empty()
    } else {
        match operands[0] {
            OperandView::Ident { name, span } => seq![NameView { text: name, span }] + identifiers(
                operands.drop_first(),
            ),
            _ => identifiers(operands.drop_first()),
        }
    }
}

/// What is wrong with one argument, and where: `None` for an `ignore(...)`
/// of bare identifiers and for a `method = "..."`. Of several faults
/// in one argument the leftmost is reported, at the smallest expression that holds it.
pub open spec fn defect(argument: ArgumentView) -> Option<DiagnosticView> {
    match argument {
        ArgumentView::Call { callee, args } => match callee {
            OperandView::Ident { name, span } => if name == ignore_word() {
                match first_non_identifier(args) {
                    Some(at) => Some(diagnostic_at(Problem::IgnoredNotIdentifier, at)),
                    None => None,
                }
            } else {
                Some(diagnostic_at(Problem::CalleeNotIgnore, span))
            },
            OperandView::Path { span } => Some(diagnostic_at(Problem::CalleeNotIgnore, span)),
            _ => Some(diagnostic_at(Problem::CalleeNotPath, callee.span())),
        },
        ArgumentView::Assign { target, value } => match target {
            OperandView::Ident { name, span } => if name == method_word() {
                match value {
                    OperandView::Str { .. } => None,
                    _ => Some(diagnostic_at(Problem::MethodNotString, value.span())),
                }
            } else {
                Some(diagnostic_at(Problem::TargetNotMethod, span))
            },
            OperandView::Path { span } => Some(diagnostic_at(Problem::TargetNotIdentifier, span)),
            _ => Some(diagnostic_at(Problem::TargetNotPath, target.span())),
        },
        ArgumentView::Other { span } => Some(diagnostic_at(Problem::UnsupportedArgument, span)),
    }
}

/// The names that one argument leaves out: those of a call, none otherwise.
pub open spec fn ignored_in(argument: ArgumentView) -> Seq<NameView> {
    match argument {
        ArgumentView::Call { args, .. } => identifiers(args),
        _ => Seq::empty(),
    }
}

/// The method name that one argument gives: the string assigned, where it is an assignment of one.
pub open spec fn method_in(argument: ArgumentView) -> Option<Seq<char>> {
    match argument {
        ArgumentView::Assign { value: OperandView::Str { value, .. }, .. } => Some(value),
        _ => None,
    }
}

/// The defect of the first argument that has one.
pub open spec fn first_defect(arguments: Seq<ArgumentView>) -> Option<DiagnosticView>
    decreases arguments.len(),
{
    if arguments.len() == 0 {
        None
    } else {
        match defect(arguments[0]) {
            Some(d) => Some(d),
            None => first_defect(arguments.drop_first()),
        }
    }
}

/// All names left out, in the order written.
pub open spec fn ignored_of(arguments: Seq<ArgumentView>) -> Seq<NameView>
    decreases arguments.len(),
{
    if arguments.len() == 0 {
        Seq::empty()
    } else {
        ignored_in(arguments[0]) + ignored_of(arguments.drop_first())
    }
}

/// The method name given last.
pub open spec fn method_of(arguments: Seq<ArgumentView>) -> Option<Seq<char>>
    decreases arguments.len(),
{
    if arguments.len() == 0 {
        None
    } else {
        match method_of(arguments.drop_first()) {
            Some(name) => Some(name),
            None => method_in(arguments[0]),
        }
    }
}

/// What a list of arguments reads as.
pub open spec fn parse_spec(arguments: Seq<ArgumentView>) -> Result<ArgsView, DiagnosticView> {
    match first_defect(arguments) {
        Some(d) => Err(d),
        None => Ok(ArgsView { ignored: ignored_of(arguments), method: method_of(arguments) }),
    }
}

/// Whether `name` reads as `word`.
fn is_word(name: &String, word: &str) -> (same: bool)
    ensures
        same == (name@ == word@),
{
    let owned = word.to_owned();
    *name == owned
}

/// Appends the identifiers of an `ignore(...)` to `ignored`, up to the first operand that is none.
fn collect_ignored(operands: &Vec<Operand>, ignored: &mut Vec<Name>) -> (result: Result<
    (),
    Diagnostic,
>)
    ensures
        match result {
            Ok(()) => first_non_identifier(operand_views(operands@)) is None && name_views(
                final(ignored)@,
            ) == name_views(old(ignored)@) + identifiers(operand_views(operands@)),
            Err(d) => first_non_identifier(operand_views(operands@)) matches Some(at) && d@
                == diagnostic_at(Problem::IgnoredNotIdentifier, at),
        },
{
    let ghost all = operand_views(operands@);
    let ghost before = name_views(ignored@);
    let mut i: usize = 0;
    assert(all.skip(0) == all);
    while i < operands.len()
        invariant
            i <= operands.len(),
            all == operand_views(operands@),
            first_non_identifier(all) == first_non_identifier(all.skip(i as int)),
            before + identifiers(all) == name_views(ignored@) + identifiers(all.skip(i as int)),
        decreases operands.len() - i,
    {
        assert(all.skip(i as int).drop_first() == all.skip(i as int + 1));
        match &operands[i] {
            Operand::Ident { name, span } => {
                ignored.push(Name { text: name.clone(), span: *span });
            },
            other => {
                return Err(Diagnostic::new(Problem::IgnoredNotIdentifier, other.span()));
            },
        }
        i += 1;
    }
    Ok(())
}

impl Args {
    /// Reads the arguments of a directive.
    pub fn parse(arguments: &Vec<Argument>) -> (result: Result<Args, Diagnostic>)
        ensures
            match result {
                Ok(args) => parse_spec(argument_views(arguments@)) == Ok::<
                    ArgsView,
                    DiagnosticView,
                >(args@),
                Err(d) => parse_spec(argument_views(arguments@)) == Err::<ArgsView, DiagnosticView>(
                    d@,
                ),
            },
    {
        let ghost all = argument_views(arguments@);
        let mut ignored: Vec<Name> = Vec::new();
        let mut method: Option<String> = None;
        let mut i: usize = 0;
        assert(all.skip(0) == all);
        while i < arguments.len()
            invariant
                i <= arguments.len(),
                all == argument_views(arguments@),
                first_defect(all) == first_defect(all.skip(i as int)),
                ignored_of(all) == name_views(ignored@) + ignored_of(all.skip(i as int)),
                method_of(all) == match method_of(all.skip(i as int)) {
                    Some(name) => Some(name),
                    None => match method {
                        Some(name) => Some(name@),
                        None => None,
                    },
                },
            decreases arguments.len() - i,
        {
            assert(all.skip(i as int).drop_first() == all.skip(i as int + 1));
            match &arguments[i] {
                Argument::Call { callee, args } => {
                    match callee {
                        Operand::Ident { name, span } => {
                            if is_word(name, "ignore") {
                                match collect_ignored(args, &mut ignored) {
                                    Ok(()) => {},
                                    Err(d) => {
                                        return Err(d);
                                    },
                                }
                            } else {
                                return Err(Diagnostic::new(Problem::CalleeNotIgnore, *span));
                            }
                        },
                        Operand::Path { span } => {
                            return Err(Diagnostic::new(Problem::CalleeNotIgnore, *span));
                        },
                        other => {
                            return Err(Diagnostic::new(Problem::CalleeNotPath, other.span()));
                        },
                    }
                },
                Argument::Assign { target, value } => {
                    match target {
                        Operand::Ident { name, span } => {
                            if is_word(name, "method") {
                                match value {
                                    Operand::Str { value: text, .. } => {
                                        method = Some(text.clone());
                                    },
                                    other => {
                                        return Err(
                                            Diagnostic::new(Problem::MethodNotString, other.span()),
                                        );
                                    },
                                }
                            } else {
                                return Err(Diagnostic::new(Problem::TargetNotMethod, *span));
                            }
                        },
                        Operand::Path { span } => {
                            return Err(Diagnostic::new(Problem::TargetNotIdentifier, *span));
                        },
                        other => {
                            return Err(Diagnostic::new(Problem::TargetNotPath, other.span()));
                        },
                    }
                },
                Argument::Other { span } => {
                    return Err(Diagnostic::new(Problem::UnsupportedArgument, *span));
                },
            }
            i += 1;
        }
        Ok(Args { ignored, method })
    }
}

} // verus!
