//! Subset equality for records.
//!
//! A directive on a struct names the fields to leave out of a comparison,
//! and may name the method that makes it: `ignore(updated_at), method = "eq_no_meta"`.
//! This library decides what that method compares. It reads the directive's
//! arguments, picks the fields that stay, and refuses what it cannot
//! serve, with the place to point at. The struct's own equality is left
//! alone: the method stands beside it.
//!
//! - [`argument`], [`declaration`], [`diagnostic`]: what is worked on.
//! - [`args`]: the directive's arguments, read.
//! - [`generate`]: the fields that stay, and the method to add.
//! - [`laws`]: what holds of all of it.
//! - [`syntax`], [`host`]: from tokens to arguments and declarations, by the host grammar.
//!
//! [`subset_eq`] serves a directive from its tokens, [`expand`] from what was read of them.

pub mod args;
pub mod argument;
pub mod declaration;
pub mod diagnostic;
pub mod generate;
pub mod host;
pub mod laws;
pub mod syntax;

use crate::args::{parse_spec, Args};
use crate::argument::{argument_views, Argument, ArgumentView};
use crate::declaration::{Declaration, DeclarationView};
use crate::diagnostic::{Diagnostic, DiagnosticView};
use crate::generate::{generate, generate_spec, Artifact, ArtifactView};
use crate::host::{declaration_in, expressions_in};
use crate::syntax::{
    read_arguments, read_as_arguments, read_as_declaration, read_declaration, refused_as,
};
use proc_macro2::TokenStream;
use vstd::prelude::*;

verus! {

/// What a directive with the arguments `attr` yields on the declaration `item`:
/// a fault in the arguments comes before any in the declaration.
pub open spec fn expand_spec(attr: Seq<ArgumentView>, item: DeclarationView) -> Result<
    ArtifactView,
    DiagnosticView,
> {
    match parse_spec(attr) {
        Ok(args) => generate_spec(item, args),
        Err(d) => Err(d),
    }
}

/// Serves a directive with the arguments `attr` on the declaration `item`:
/// reads the arguments, and generates the method as they ask.
pub fn expand(attr: &Vec<Argument>, item: Declaration) -> (result: Result<Artifact, Diagnostic>)
    ensures
        match result {
            Ok(artifact) => expand_spec(argument_views(attr@), item@) == Ok::<
                ArtifactView,
                DiagnosticView,
            >(artifact@),
            Err(d) => expand_spec(argument_views(attr@), item@) == Err::<
                ArtifactView,
                DiagnosticView,
            >(d@),
        },
{
    match Args::parse(attr) {
        Ok(args) => generate(item, &args),
        Err(d) => Err(d),
    }
}

/// Whether `result` is what `expected` says, seen as contracts see it.
pub open spec fn answers(
    result: Result<Artifact, Diagnostic>,
    expected: Result<ArtifactView, DiagnosticView>,
) -> bool {
    match result {
        Ok(artifact) => expected == Ok::<ArtifactView, DiagnosticView>(artifact@),
        Err(d) => expected == Err::<ArtifactView, DiagnosticView>(d@),
    }
}

/// Serves a directive from its tokens: `attr` holds what stands between
/// the directive's parentheses, `item` the declaration it stands on.
///
/// The declaration is read first, then the arguments, both by the host
/// grammar; what it refuses gives a `Syntax` diagnostic in the grammar's
/// own words. What it takes is served as [`expand`] says, on the
/// arguments and the declaration that the tokens read as.
pub fn subset_eq(attr: TokenStream, item: TokenStream) -> (result: Result<Artifact, Diagnostic>)
    ensures
        match declaration_in(item) {
            Err(error) => result matches Err(d) && refused_as(error, d@),
            Ok(input) => match expressions_in(attr) {
                Err(error) => result matches Err(d) && refused_as(error, d@),
                Ok(list) => exists|arguments: Seq<ArgumentView>, declaration: DeclarationView|
                    {
                        &&& #[trigger] read_as_arguments(list, arguments)
                        &&& #[trigger] read_as_declaration(input, declaration)
                        &&& answers(result, expand_spec(arguments, declaration))
                    },
            },
        },
{
    let declaration = match read_declaration(item) {
        Ok(declaration) => declaration,
        Err(d) => {
            return Err(d);
        },
    };
    let arguments = match read_arguments(attr) {
        Ok(arguments) => arguments,
        Err(d) => {
            return Err(d);
        },
    };
    expand(&arguments, declaration)
}

} // verus!
