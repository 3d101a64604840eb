//! What holds of every directive and every declaration.
//!
//! The laws are stated over the same functions as the contracts:
//! `retained`, `parse_spec`, `generate_spec`, `expand_spec`. The lemmas
//! between them say how the readings of two lists of arguments go together.

use crate::args::{
    first_defect, ignored_in, ignored_of, method_in, method_of, parse_spec, ArgsView,
};
use crate::argument::{ArgumentView, NameView};
use crate::declaration::{DeclarationView, ShapeView};
use crate::diagnostic::{diagnostic_at, DiagnosticView, Problem};
use crate::expand_spec;
use crate::generate::{
    compares_equal, default_method, generate_spec, is_ignored, kept, retained, ArtifactView,
};
use vstd::prelude::*;

verus! {

/// Whether two lists leave out the same names, however often and in whatever order each lists them.
pub open spec fn same_names(a: Seq<NameView>, b: Seq<NameView>) -> bool {
    forall|text: Seq<char>| is_ignored(a, text) <==> is_ignored(b, text)
}

/// Whether every one of `fields` is ignored.
pub open spec fn all_ignored(fields: Seq<NameView>, ignored: Seq<NameView>) -> bool {
    forall|i: int| 0 <= i < fields.len() ==> is_ignored(ignored, #[trigger] fields[i].text)
}

/// Whether `earlier` is declared among `fields` before `later` is.
pub open spec fn declared_in_order(
    fields: Seq<NameView>,
    earlier: NameView,
    later: NameView,
) -> bool {
    exists|a: int, b: int|
        0 <= a < b < fields.len() && #[trigger] fields[a] == earlier && #[trigger] fields[b]
            == later
}

/// Whether no argument assigns a string.
pub open spec fn names_no_method(attr: Seq<ArgumentView>) -> bool {
    forall|i: int| 0 <= i < attr.len() ==> method_in(#[trigger] attr[i]) is None
}

/// Whether two values agree in every one of `fields`, where `agree(f)`
/// says that they hold equal values in the field named `f`.
pub open spec fn agree_in_all(fields: Seq<NameView>, agree: spec_fn(Seq<char>) -> bool) -> bool {
    forall|i: int| 0 <= i < fields.len() ==> agree(#[trigger] fields[i].text)
}

/// Whether two values agree in every one of `fields` that is not ignored.
pub open spec fn agree_in_kept(
    fields: Seq<NameView>,
    ignored: Seq<NameView>,
    agree: spec_fn(Seq<char>) -> bool,
) -> bool {
    forall|i: int|
        0 <= i < fields.len() && !is_ignored(ignored, #[trigger] fields[i].text) ==> agree(
            fields[i].text,
        )
}

/// A field is compared if and only if its name is not ignored, and nothing
/// is compared that is not a field.
pub proof fn law_retained_iff_not_ignored(fields: Seq<NameView>, ignored: Seq<NameView>)
    ensures
        forall|i: int|
            0 <= i < fields.len() ==> (retained(fields, ignored).contains(#[trigger] fields[i])
                <==> !is_ignored(ignored, fields[i].text)),
        forall|j: int|
            0 <= j < retained(fields, ignored).len() ==> fields.contains(
                #[trigger] retained(fields, ignored)[j],
            ),
{
    let test = kept(ignored);
    let compared = retained(fields, ignored);
    assert forall|i: int| 0 <= i < fields.len() implies (compared.contains(#[trigger] fields[i])
        <==> !is_ignored(ignored, fields[i].text)) by {
        if test(fields[i]) {
            fields.lemma_filter_contains(test, i);
        }
        if compared.contains(fields[i]) {
            let j = choose|j: int| 0 <= j < compared.len() && compared[j] == fields[i];
            fields.lemma_filter_pred(test, j);
        }
    }
    assert forall|j: int| 0 <= j < compared.len() implies fields.contains(
        #[trigger] compared[j],
    ) by {
        assert(compared.contains(compared[j]));
        fields.lemma_filter_contains_rev(test, compared[j]);
    }
}

/// The fields compared stand in the order in which they are declared.
pub proof fn law_retained_in_declared_order(fields: Seq<NameView>, ignored: Seq<NameView>)
    ensures
        forall|j: int, k: int|
            0 <= j < k < retained(fields, ignored).len() ==> declared_in_order(
                fields,
                #[trigger] retained(fields, ignored)[j],
                #[trigger] retained(fields, ignored)[k],
            ),
    decreases fields.len(),
{
    reveal(Seq::filter);
    let test = kept(ignored);
    let compared = retained(fields, ignored);
    if fields.len() > 0 {
        let front = fields.drop_last();
        let before = retained(front, ignored);
        law_retained_in_declared_order(front, ignored);
        assert forall|j: int, k: int| 0 <= j < k < compared.len() implies declared_in_order(
            fields,
            #[trigger] compared[j],
            #[trigger] compared[k],
        ) by {
            if k < before.len() {
                assert(declared_in_order(front, before[j], before[k]));
                let (a, b) = choose|a: int, b: int|
                    0 <= a < b < front.len() && #[trigger] front[a] == before[j]
                        && #[trigger] front[b] == before[k];
                assert(fields[a] == compared[j] && fields[b] == compared[k]);
            } else {
                assert(before.contains(before[j]));
                front.lemma_filter_contains_rev(test, before[j]);
                let a = choose|a: int| 0 <= a < front.len() && front[a] == before[j];
                let b = fields.len() - 1;
                assert(fields[a] == compared[j] && fields[b] == compared[k]);
            }
        }
    }
}

/// Which names are ignored decides what is generated, not how often or in
/// what order they are listed.
pub proof fn law_ignored_names_are_a_set(declaration: DeclarationView, a: ArgsView, b: ArgsView)
    requires
        same_names(a.ignored, b.ignored),
        a.method == b.method,
    ensures
        generate_spec(declaration, a) == generate_spec(declaration, b),
{
    assert(kept(a.ignored) =~= kept(b.ignored));
}

/// A name listed twice counts as listed once: listing a name again,
/// wherever in the list, leaves what is generated as it was.
pub proof fn law_ignoring_twice(
    declaration: DeclarationView,
    args: ArgsView,
    at: int,
    again: NameView,
)
    requires
        0 <= at <= args.ignored.len(),
        is_ignored(args.ignored, again.text),
    ensures
        generate_spec(declaration, ArgsView { ignored: args.ignored.insert(at, again), ..args })
            == generate_spec(declaration, args),
{
    let once = args.ignored;
    let twice = once.insert(at, again);
    assert forall|text: Seq<char>| is_ignored(twice, text) <==> is_ignored(once, text) by {
        if is_ignored(twice, text) {
            let i = choose|i: int| 0 <= i < twice.len() && twice[i].text == text;
            if i < at {
                assert(once[i].text == text);
            } else if i > at {
                assert(once[i - 1].text == text);
            }
        }
        if is_ignored(once, text) {
            let i = choose|i: int| 0 <= i < once.len() && once[i].text == text;
            if i < at {
                assert(twice[i].text == text);
            } else {
                assert(twice[i + 1].text == text);
            }
        }
    }
    law_ignored_names_are_a_set(declaration, ArgsView { ignored: twice, ..args }, args);
}

/// The first defect of two lists put together is that of the first, or else that of the second.
pub proof fn lemma_first_defect_of_both(first: Seq<ArgumentView>, second: Seq<ArgumentView>)
    ensures
        first_defect(first + second) == match first_defect(first) {
            Some(d) => Some(d),
            None => first_defect(second),
        },
    decreases first.len(),
{
    if first.len() == 0 {
        assert(first + second == second);
    } else {
        assert((first + second).drop_first() == first.drop_first() + second);
        lemma_first_defect_of_both(first.drop_first(), second);
    }
}

/// Two lists put together leave out what the first does, then what the second does.
pub proof fn lemma_ignored_of_both(first: Seq<ArgumentView>, second: Seq<ArgumentView>)
    ensures
        ignored_of(first + second) == ignored_of(first) + ignored_of(second),
    decreases first.len(),
{
    if first.len() == 0 {
        assert(first + second == second);
        assert(ignored_of(first) + ignored_of(second) == ignored_of(second));
    } else {
        let head = ignored_in(first[0]);
        let tail = ignored_of(first.drop_first());
        assert((first + second).drop_first() == first.drop_first() + second);
        lemma_ignored_of_both(first.drop_first(), second);
        assert(head + (tail + ignored_of(second)) == (head + tail) + ignored_of(second));
    }
}

/// Of two lists put together the method name is the second's, or else the first's.
pub proof fn lemma_method_of_both(first: Seq<ArgumentView>, second: Seq<ArgumentView>)
    ensures
        method_of(first + second) == match method_of(second) {
            Some(name) => Some(name),
            None => method_of(first),
        },
    decreases first.len(),
{
    if first.len() == 0 {
        assert(first + second == second);
    } else {
        assert((first + second).drop_first() == first.drop_first() + second);
        lemma_method_of_both(first.drop_first(), second);
    }
}

/// A name is left out by two lists put together if and only if one of them leaves it out.
pub proof fn lemma_is_ignored_of_both(a: Seq<NameView>, b: Seq<NameView>, text: Seq<char>)
    ensures
        is_ignored(a + b, text) <==> is_ignored(a, text) || is_ignored(b, text),
{
    if is_ignored(a + b, text) {
        let i = choose|i: int| 0 <= i < (a + b).len() && (a + b)[i].text == text;
        if i < a.len() {
            assert(a[i].text == text);
        } else {
            assert(b[i - a.len()].text == text);
        }
    }
    if is_ignored(a, text) {
        let i = choose|i: int| 0 <= i < a.len() && a[i].text == text;
        assert((a + b)[i].text == text);
    }
    if is_ignored(b, text) {
        let i = choose|i: int| 0 <= i < b.len() && b[i].text == text;
        assert((a + b)[a.len() + i].text == text);
    }
}

/// Arguments may come in any order: two runs of well-formed arguments, of
/// which at most one names the method, yield the same whichever comes first.
/// (With a defect in each run, the order decides which of them is
/// reported; with a method name in each, which of them counts.)
pub proof fn law_order_of_arguments(
    first: Seq<ArgumentView>,
    second: Seq<ArgumentView>,
    item: DeclarationView,
)
    requires
        first_defect(first) is None,
        first_defect(second) is None,
        method_of(first) is None || method_of(second) is None,
    ensures
        expand_spec(first + second, item) == expand_spec(second + first, item),
{
    lemma_first_defect_of_both(first, second);
    lemma_first_defect_of_both(second, first);
    lemma_ignored_of_both(first, second);
    lemma_ignored_of_both(second, first);
    lemma_method_of_both(first, second);
    lemma_method_of_both(second, first);
    let a = parse_spec(first + second)->Ok_0;
    let b = parse_spec(second + first)->Ok_0;
    assert forall|text: Seq<char>| is_ignored(a.ignored, text) <==> is_ignored(
        b.ignored,
        text,
    ) by {
        lemma_is_ignored_of_both(ignored_of(first), ignored_of(second), text);
        lemma_is_ignored_of_both(ignored_of(second), ignored_of(first), text);
    }
    law_ignored_names_are_a_set(item, a, b);
}

/// A directive is refused for leaving nothing to compare exactly when it
/// stands on a struct with named fields and ignores every one of them;
/// the refusal points at the declaration.
pub proof fn law_nothing_left(declaration: DeclarationView, args: ArgsView)
    ensures
        (declaration.shape matches ShapeView::Record { fields } && all_ignored(
            fields,
            args.ignored,
        )) <==> generate_spec(declaration, args) == Err::<ArtifactView, DiagnosticView>(
            diagnostic_at(Problem::NothingToCompare, declaration.span),
        ),
{
    match declaration.shape {
        ShapeView::Record { fields } => {
            let compared = retained(fields, args.ignored);
            law_retained_iff_not_ignored(fields, args.ignored);
            if all_ignored(fields, args.ignored) {
                if compared.len() > 0 {
                    assert(fields.contains(compared[0]));
                    let i = choose|i: int| 0 <= i < fields.len() && fields[i] == compared[0];
                    assert(compared.contains(fields[i]));
                    assert(is_ignored(args.ignored, fields[i].text));
                }
            } else {
                let i = choose|i: int|
                    0 <= i < fields.len() && !is_ignored(args.ignored, #[trigger] fields[i].text);
                assert(compared.contains(fields[i]));
            }
        },
        ShapeView::Positional { span } => {},
        ShapeView::NotStruct => {},
    }
}

/// Where no argument assigns a string, no method name is given.
pub proof fn lemma_no_method(attr: Seq<ArgumentView>)
    requires
        names_no_method(attr),
    ensures
        method_of(attr) is None,
    decreases attr.len(),
{
    if attr.len() > 0 {
        let rest = attr.drop_first();
        assert forall|i: int| 0 <= i < rest.len() implies method_in(#[trigger] rest[i]) is None by {
            assert(rest[i] == attr[i + 1]);
        }
        lemma_no_method(rest);
    }
}

/// The method name given is that of the last argument that assigns a string.
pub proof fn lemma_method_is_the_last(attr: Seq<ArgumentView>, last: int)
    requires
        0 <= last < attr.len(),
        method_in(attr[last]) is Some,
        names_no_method(attr.skip(last + 1)),
    ensures
        method_of(attr) == method_in(attr[last]),
    decreases attr.len(),
{
    let rest = attr.drop_first();
    if last == 0 {
        assert(rest == attr.skip(1));
        lemma_no_method(rest);
    } else {
        assert(rest[last - 1] == attr[last]);
        assert(rest.skip(last) == attr.skip(last + 1));
        lemma_method_is_the_last(rest, last - 1);
    }
}

/// Without a `method = "..."` the method is called `eq_subset_ignoring`.
pub proof fn law_method_name_by_default(attr: Seq<ArgumentView>, item: DeclarationView)
    requires
        names_no_method(attr),
        expand_spec(attr, item) is Ok,
    ensures
        expand_spec(attr, item)->Ok_0.method == default_method(),
{
    lemma_no_method(attr);
}

/// With a `method = "..."` the method is called exactly as its string
/// says; of several, as the string of the last says.
pub proof fn law_method_name_as_given(
    attr: Seq<ArgumentView>,
    last: int,
    item: DeclarationView,
)
    requires
        0 <= last < attr.len(),
        method_in(attr[last]) is Some,
        names_no_method(attr.skip(last + 1)),
        expand_spec(attr, item) is Ok,
    ensures
        expand_spec(attr, item)->Ok_0.method == method_in(attr[last])->Some_0,
{
    lemma_method_is_the_last(attr, last);
}

/// The generated method holds of two values exactly when they agree in
/// every field that is not ignored. So it holds of two values that agree
/// in all fields, and of two that differ in ignored fields only, and it
/// fails of two that differ in a field that is not ignored.
pub proof fn law_compares_what_is_not_ignored(
    declaration: DeclarationView,
    args: ArgsView,
    agree: spec_fn(Seq<char>) -> bool,
)
    requires
        generate_spec(declaration, args) is Ok,
    ensures
        declaration.shape is Record,
        compares_equal(generate_spec(declaration, args)->Ok_0, agree) <==> agree_in_kept(
            declaration.shape->fields,
            args.ignored,
            agree,
        ),
        agree_in_all(declaration.shape->fields, agree) ==> compares_equal(
            generate_spec(declaration, args)->Ok_0,
            agree,
        ),
{
    let fields = declaration.shape->fields;
    let compared = generate_spec(declaration, args)->Ok_0.compared;
    assert(compared == retained(fields, args.ignored));
    law_retained_iff_not_ignored(fields, args.ignored);
    if compares_equal(generate_spec(declaration, args)->Ok_0, agree) {
        assert forall|i: int|
            0 <= i < fields.len() && !is_ignored(
                args.ignored,
                #[trigger] fields[i].text,
            ) implies agree(fields[i].text) by {
            assert(compared.contains(fields[i]));
            let j = choose|j: int| 0 <= j < compared.len() && compared[j] == fields[i];
            assert(agree(compared[j].text));
        }
    }
    if agree_in_kept(fields, args.ignored, agree) {
        assert forall|j: int| 0 <= j < compared.len() implies agree(
            #[trigger] compared[j].text,
        ) by {
            assert(fields.contains(compared[j]));
            let i = choose|i: int| 0 <= i < fields.len() && fields[i] == compared[j];
            assert(compared.contains(fields[i]));
            assert(!is_ignored(args.ignored, fields[i].text));
        }
    }
}

} // verus!
