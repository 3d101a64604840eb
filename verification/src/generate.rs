//! Generation: from a declaration and a directive's arguments to the method to add.

use crate::args::{Args, ArgsView};
use crate::argument::{name_views, Name, NameView};
use crate::declaration::{Declaration, DeclarationView, Shape, ShapeView};
use crate::diagnostic::{diagnostic_at, Diagnostic, DiagnosticView, Problem};
use vstd::prelude::*;

verus! {

/// The method's name where the directive gives none.
pub open spec fn default_method() -> Seq<char> {
    "eq_subset_ignoring"@
}

/// Whether `text` is among the names to leave out.
pub open spec fn is_ignored(ignored: Seq<NameView>, text: Seq<char>) -> bool {
    exists|i: int| 0 <= i < ignored.len() && #[trigger] ignored[i].text == text
}

/// The test that a field passes when no ignored name is its own.
pub open spec fn kept(ignored: Seq<NameView>) -> spec_fn(NameView) -> bool {
    |field: NameView| !is_ignored(ignored, field.text)
}

/// The fields that take part in the comparison: those not ignored, in the order declared.
pub open spec fn retained(fields: Seq<NameView>, ignored: Seq<NameView>) -> Seq<NameView> {
    fields.filter(kept(ignored))
}

/// The name the method gets.
pub open spec fn method_name(wanted: Option<Seq<char>>) -> Seq<char> {
    match wanted {
        Some(name) => name,
        None => default_method(),
    }
}

/// What generation yields: the declaration as it came, and beside it one
/// public method on the declared type, `method(&self, other: &Self) -> bool`,
/// that compares the fields `compared` of `self` and `other`, as two
/// tuples of references in that order.
#[derive(Clone, Debug)]
pub struct Artifact {
    pub declaration: Declaration,
    pub method: String,
    pub compared: Vec<Name>,
}

/// An [`Artifact`] as contracts see it.
pub struct ArtifactView {
    pub declaration: DeclarationView,
    pub method: Seq<char>,
    pub compared: Seq<NameView>,
}

impl View for Artifact {
    type V = ArtifactView;

    open spec fn view(&self) -> ArtifactView {
        ArtifactView {
            declaration: self.declaration@,
            method: self.method@,
            compared: name_views(self.compared@),
        }
    }
}

/// What the method of `artifact` answers for two values of the declared
/// type, where `agree(f)` says that the two hold equal values in the
/// field named `f`, by that field's own equality: whether they agree in
/// every field compared.
pub open spec fn compares_equal(artifact: ArtifactView, agree: spec_fn(Seq<char>) -> bool) -> bool {
    forall|i: int|
        0 <= i < artifact.compared.len() ==> agree(#[trigger] artifact.compared[i].text)
}

/// What generation yields for a declaration and a directive's arguments.
pub open spec fn generate_spec(declaration: DeclarationView, args: ArgsView) -> Result<
    ArtifactView,
    DiagnosticView,
> {
    match declaration.shape {
        ShapeView::Record { fields } => {
            let compared = retained(fields, args.ignored);
            if compared.len() == 0 {
                Err(diagnostic_at(Problem::NothingToCompare, declaration.span))
            } else {
                Ok(ArtifactView { declaration, method: method_name(args.method), compared })
            }
        },
        ShapeView::Positional { span } => Err(diagnostic_at(Problem::FieldsNotNamed, span)),
        ShapeView::NotStruct => Err(diagnostic_at(Problem::NotStruct, declaration.span)),
    }
}

/// Whether one of `ignored` reads as `text`.
fn names_hold(ignored: &Vec<Name>, text: &String) -> (found: bool)
    ensures
        found == is_ignored(name_views(ignored@), text@),
{
    let mut i: usize = 0;
    while i < ignored.len()
        invariant
            i <= ignored.len(),
            forall|j: int| 0 <= j < i ==> (#[trigger] name_views(ignored@)[j]).text != text@,
        decreases ignored.len() - i,
    {
        if ignored[i].text == *text {
            assert(name_views(ignored@)[i as int].text == text@);
            return true;
        }
        i += 1;
    }
    false
}

/// The fields that are not ignored, in the order declared.
pub fn retained_fields(fields: &Vec<Name>, ignored: &Vec<Name>) -> (compared: Vec<Name>)
    ensures
        name_views(compared@) == retained(name_views(fields@), name_views(ignored@)),
{
    let ghost all = name_views(fields@);
    let ghost test = kept(name_views(ignored@));
    let mut compared: Vec<Name> = Vec::new();
    let mut i: usize = 0;
    while i < fields.len()
        invariant
            i <= fields.len(),
            all == name_views(fields@),
            test == kept(name_views(ignored@)),
            name_views(compared@) == all.take(i as int).filter(test),
        decreases fields.len() - i,
    {
        let field = &fields[i];
        assert(all.take(i as int + 1) == all.take(i as int).push(field@));
        proof {
            all.take(i as int).lemma_filter_push(field@, test);
        }
        if !names_hold(ignored, &field.text) {
            compared.push(Name { text: field.text.clone(), span: field.span });
        }
        i += 1;
    }
    assert(all.take(i as int) == all);
    compared
}

/// Generates the method for `declaration` as `args` ask.
///
/// Only a struct with named fields is taken, and only when at least one
/// field is left to compare: a comparison of nothing would hold of any
/// two values.
pub fn generate(declaration: Declaration, args: &Args) -> (result: Result<Artifact, Diagnostic>)
    ensures
        match result {
            Ok(artifact) => generate_spec(declaration@, args@) == Ok::<
                ArtifactView,
                DiagnosticView,
            >(artifact@),
            Err(d) => generate_spec(declaration@, args@) == Err::<ArtifactView, DiagnosticView>(d@),
        },
{
    let method = match &args.method {
        Some(name) => name.clone(),
        None => "eq_subset_ignoring".to_owned(),
    };
    let compared = match &declaration.shape {
        Shape::Record { fields } => retained_fields(fields, &args.ignored),
        Shape::Positional { span } => {
            return Err(Diagnostic::new(Problem::FieldsNotNamed, *span));
        },
        Shape::NotStruct => {
            return Err(Diagnostic::new(Problem::NotStruct, declaration.span));
        },
    };
    if compared.len() == 0 {
        return Err(Diagnostic::new(Problem::NothingToCompare, declaration.span));
    }
    Ok(Artifact { declaration, method, compared })
}

} // verus!
