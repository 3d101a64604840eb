use proc_macro2::{Span, TokenStream};
use subset_eq::args::Args;
use subset_eq::argument::Name;
use subset_eq::declaration::{Declaration, Shape};
use subset_eq::diagnostic::{Category, Diagnostic, Problem};
use subset_eq::generate::{generate, retained_fields, Artifact};
use subset_eq::syntax::{read_arguments, read_declaration};
use subset_eq::{expand, subset_eq};

fn tokens(text: &str) -> TokenStream {
    text.parse().unwrap()
}

fn run(attr: &str, item: &str) -> Result<Artifact, Diagnostic> {
    subset_eq(tokens(attr), tokens(item))
}

fn refused(attr: &str, item: &str) -> Diagnostic {
    match run(attr, item) {
        Ok(artifact) => panic!("generated {:?}", artifact),
        Err(d) => d,
    }
}

fn compared(artifact: &Artifact) -> Vec<&str> {
    artifact.compared.iter().map(|f| f.text.as_str()).collect()
}

fn names(texts: &[&str]) -> Vec<Name> {
    texts.iter().map(|t| Name { text: t.to_string(), span: Span::call_site() }).collect()
}

fn record(name: &str, fields: &[&str]) -> Declaration {
    Declaration {
        name: Name { text: name.to_string(), span: Span::call_site() },
        span: Span::call_site(),
        shape: Shape::Record { fields: names(fields) },
    }
}

#[test]
fn default_method_name() {
    let artifact = run("ignore(b)", "struct S { a: u8, b: u8 }").unwrap();
    assert_eq!(artifact.method, "eq_subset_ignoring");
    assert_eq!(compared(&artifact), vec!["a"]);

    let artifact = run("", "struct S { a: u8, b: u8 }").unwrap();
    assert_eq!(artifact.method, "eq_subset_ignoring");
    assert_eq!(compared(&artifact), vec!["a", "b"]);
}

#[test]
fn method_name_as_given() {
    let artifact = run("method = \"same_but_for_b\", ignore(b)", "struct S { a: u8, b: u8 }").unwrap();
    assert_eq!(artifact.method, "same_but_for_b");
    let artifact = run("method = \"x\", method = \"y\"", "struct S { a: u8 }").unwrap();
    assert_eq!(artifact.method, "y");
}

#[test]
fn a_name_listed_twice_counts_once() {
    let item = "struct S { a: u8, b: u8, c: u8 }";
    let once = run("ignore(b)", item).unwrap();
    for attr in ["ignore(b, b)", "ignore(b), ignore(b)", "ignore(b, b, b), ignore(), ignore(b)"] {
        let again = run(attr, item).unwrap();
        assert_eq!(again.method, once.method);
        assert_eq!(compared(&again), compared(&once));
        assert_eq!(compared(&again), vec!["a", "c"]);
    }
}

#[test]
fn order_of_arguments_does_not_count() {
    let item = "struct S { a: u8, b: u8, c: u8, d: u8 }";
    let one = run("ignore(a, b), method = \"m\"", item).unwrap();
    let other = run("method = \"m\", ignore(a, b)", item).unwrap();
    let third = run("ignore(b), method = \"m\", ignore(a)", item).unwrap();
    for artifact in [&one, &other, &third] {
        assert_eq!(artifact.method, "m");
        assert_eq!(compared(artifact), vec!["c", "d"]);
        assert_eq!(artifact.declaration.name.text, "S");
    }
}

#[test]
fn compared_are_the_fields_not_ignored_in_declared_order() {
    let item = "struct S { e: u8, d: u8, c: u8, b: u8, a: u8 }";
    assert_eq!(compared(&run("ignore(a, c, e)", item).unwrap()), vec!["d", "b"]);
    assert_eq!(compared(&run("ignore(b, d)", item).unwrap()), vec!["e", "c", "a"]);
    assert_eq!(compared(&run("ignore(d, e, a, b)", item).unwrap()), vec!["c"]);
    let artifact = run("ignore(e)", item).unwrap();
    let places: Vec<String> = artifact.compared.iter().map(|f| f.span.source_text().unwrap()).collect();
    assert_eq!(places, vec!["d", "c", "b", "a"]);
    assert_eq!(artifact.compared[0].span.byte_range(), 18..19);
}

#[test]
fn ignoring_what_is_no_field_changes_nothing() {
    let artifact = run("ignore(zzz, A, aa)", "struct S { a: u8, b: u8 }").unwrap();
    assert_eq!(compared(&artifact), vec!["a", "b"]);
}

#[test]
fn nothing_left_to_compare() {
    let item = "pub struct Only { x: u8 }";
    let d = refused("ignore(x)", item);
    assert_eq!(d.problem, Problem::NothingToCompare);
    assert_eq!(d.problem.category(), Category::VacuousComparison);
    assert_eq!(d.message, "no fields left to compare after ignoring specified ones");
    assert_eq!(d.span.source_text().unwrap(), item);

    let d = refused("ignore(a), method = \"m\", ignore(c, b, a)", "struct S { a: u8, b: u8, c: u8 }");
    assert_eq!(d.problem, Problem::NothingToCompare);

    let d = refused("", "struct Empty {}");
    assert_eq!(d.problem, Problem::NothingToCompare);
    assert_eq!(d.span.source_text().unwrap(), "struct Empty {}");
}

#[test]
fn struct_without_named_fields() {
    let d = refused("ignore(x)", "struct Pair(u8, u16);");
    assert_eq!(d.problem, Problem::FieldsNotNamed);
    assert_eq!(d.problem.category(), Category::WrongDeclarationKind);
    assert_eq!(d.message, "subset_eq only supports structs with named fields");
    assert_eq!(d.span.source_text().unwrap(), "(u8, u16)");

    let d = refused("", "struct Unit;");
    assert_eq!(d.problem, Problem::FieldsNotNamed);
}

#[test]
fn not_a_struct() {
    for item in ["enum E { A, B { x: u8 } }", "union U { a: u8, b: u16 }"] {
        let d = refused("ignore(x)", item);
        assert_eq!(d.problem, Problem::NotStruct);
        assert_eq!(d.problem.category(), Category::WrongDeclarationKind);
        assert_eq!(d.message, "subset_eq can only be applied to structs");
        assert_eq!(d.span.source_text().unwrap(), item);
    }
}

#[test]
fn a_fault_in_the_arguments_comes_first() {
    let d = refused("ignore(1 + 2)", "enum E { A }");
    assert_eq!(d.problem, Problem::IgnoredNotIdentifier);
    assert_eq!(d.span.source_text().unwrap(), "1 + 2");
    let d = refused("bogus", "struct Only { x: u8 }");
    assert_eq!(d.problem, Problem::UnsupportedArgument);
}

#[test]
fn the_declaration_is_read_before_the_arguments() {
    let d = refused("ignore(a b)", "fn f() {}");
    assert_eq!(d.problem, Problem::Syntax);
    assert_eq!(d.problem.category(), Category::HostSyntax);
    assert_eq!(d.message, "expected one of: `struct`, `enum`, `union`");
    assert_eq!(d.span.source_text().unwrap(), "fn");

    let d = refused("ignore(a b)", "enum E { A }");
    assert_eq!(d.problem, Problem::Syntax);
    assert_eq!(d.span.source_text().unwrap(), "b");
}

#[test]
fn expand_is_what_subset_eq_does_with_what_it_read() {
    let attr = "ignore(b), method = \"m\"";
    let item = "struct S { a: u8, b: u8 }";
    let whole = run(attr, item).unwrap();
    let by_steps = expand(
        &read_arguments(tokens(attr)).unwrap(),
        read_declaration(tokens(item)).unwrap(),
    )
    .unwrap();
    assert_eq!(whole.method, by_steps.method);
    assert_eq!(compared(&whole), compared(&by_steps));
    assert_eq!(whole.declaration.name.text, by_steps.declaration.name.text);

    let d = expand(
        &read_arguments(tokens("ignore(a, b)")).unwrap(),
        read_declaration(tokens(item)).unwrap(),
    )
    .unwrap_err();
    assert_eq!(d.problem, Problem::NothingToCompare);
}

#[test]
fn declarations_as_the_host_grammar_reads_them() {
    let d = read_declaration(tokens(
        "/// A pair.\n#[derive(Clone)]\npub(crate) struct Pair<'a, T: Clone> where T: Copy { pub left: &'a T, r#type: Vec<T>, }",
    ))
    .unwrap();
    assert_eq!(d.name.text, "Pair");
    match &d.shape {
        Shape::Record { fields } => {
            let texts: Vec<&str> = fields.iter().map(|f| f.text.as_str()).collect();
            assert_eq!(texts, vec!["left", "r#type"]);
        }
        other => panic!("read as {:?}", other),
    }
    assert!(matches!(read_declaration(tokens("struct T(u8);")).unwrap().shape, Shape::Positional { .. }));
    assert!(matches!(read_declaration(tokens("struct T;")).unwrap().shape, Shape::Positional { .. }));
    assert!(matches!(read_declaration(tokens("enum T {}")).unwrap().shape, Shape::NotStruct));

    for text in ["fn f() {}", "struct", "struct S { a: u8 } struct T;", ""] {
        let d = match read_declaration(tokens(text)) {
            Ok(d) => panic!("{} was read as {:?}", text, d),
            Err(d) => d,
        };
        assert_eq!(d.problem, Problem::Syntax);
        assert!(!d.message.is_empty());
    }
}

#[test]
fn retained_fields_by_hand() {
    let fields = names(&["id", "name", "updated_at", "cache_token"]);
    let kept = retained_fields(&fields, &names(&["updated_at", "cache_token", "updated_at"]));
    assert_eq!(kept.iter().map(|f| f.text.as_str()).collect::<Vec<_>>(), vec!["id", "name"]);
    let kept = retained_fields(&fields, &names(&[]));
    assert_eq!(kept.len(), 4);
    let kept = retained_fields(&fields, &names(&["name", "id", "cache_token", "updated_at"]));
    assert!(kept.is_empty());
    let kept = retained_fields(&names(&[]), &names(&["x"]));
    assert!(kept.is_empty());
    let kept = retained_fields(&names(&["a", "b", "a"]), &names(&["b"]));
    assert_eq!(kept.iter().map(|f| f.text.as_str()).collect::<Vec<_>>(), vec!["a", "a"]);
}

#[test]
fn generate_by_hand() {
    let args = Args { ignored: names(&["b"]), method: None };
    let artifact = generate(record("S", &["a", "b", "c"]), &args).unwrap();
    assert_eq!(artifact.method, "eq_subset_ignoring");
    assert_eq!(compared(&artifact), vec!["a", "c"]);
    assert_eq!(artifact.declaration.name.text, "S");

    let args = Args { ignored: names(&["c", "a", "b"]), method: Some("m".to_string()) };
    let d = generate(record("S", &["a", "b", "c"]), &args).unwrap_err();
    assert_eq!(d.problem, Problem::NothingToCompare);

    let positional = Declaration {
        name: Name { text: "P".to_string(), span: Span::call_site() },
        span: Span::call_site(),
        shape: Shape::Positional { span: Span::call_site() },
    };
    assert_eq!(generate(positional, &args).unwrap_err().problem, Problem::FieldsNotNamed);
    let other = Declaration {
        name: Name { text: "E".to_string(), span: Span::call_site() },
        span: Span::call_site(),
        shape: Shape::NotStruct,
    };
    assert_eq!(generate(other, &args).unwrap_err().problem, Problem::NotStruct);
}

#[test]
fn messages_and_categories() {
    let all = [
        (Problem::UnsupportedArgument, "unsupported argument; use `ignore(...)` or `method = \"...\"`", Category::MalformedArgument),
        (Problem::CalleeNotPath, "expected path in ignore(...)", Category::MalformedArgument),
        (Problem::CalleeNotIgnore, "expected `ignore(...)`", Category::MalformedArgument),
        (Problem::IgnoredNotIdentifier, "expected identifier in ignore(...)", Category::MalformedArgument),
        (Problem::TargetNotPath, "expected `method = \"...\"` syntax", Category::MalformedArgument),
        (Problem::TargetNotIdentifier, "expected identifier on left-hand side", Category::MalformedArgument),
        (Problem::TargetNotMethod, "expected `method` on left-hand side", Category::MalformedArgument),
        (Problem::MethodNotString, "method value must be a string literal", Category::MalformedArgument),
        (Problem::FieldsNotNamed, "subset_eq only supports structs with named fields", Category::WrongDeclarationKind),
        (Problem::NotStruct, "subset_eq can only be applied to structs", Category::WrongDeclarationKind),
        (Problem::NothingToCompare, "no fields left to compare after ignoring specified ones", Category::VacuousComparison),
    ];
    for (problem, text, category) in all {
        assert_eq!(problem.message(), text);
        assert_eq!(problem.category(), category);
        let d = Diagnostic::new(problem, Span::call_site());
        assert_eq!(d.problem, problem);
        assert_eq!(d.message, text);
    }
    assert_eq!(Problem::Syntax.category(), Category::HostSyntax);
}
