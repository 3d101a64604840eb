use proc_macro2::{Span, TokenStream};
use subset_eq::args::Args;
use subset_eq::argument::{Argument, Name, Operand};
use subset_eq::diagnostic::{Category, Diagnostic, Problem};
use subset_eq::syntax::read_arguments;

fn tokens(text: &str) -> TokenStream {
    text.parse().unwrap()
}

fn parse(text: &str) -> Result<Args, Diagnostic> {
    Args::parse(&read_arguments(tokens(text)).unwrap())
}

fn refused(text: &str) -> Diagnostic {
    match parse(text) {
        Ok(args) => panic!("{} was read as {:?}", text, args),
        Err(d) => d,
    }
}

fn texts(names: &[Name]) -> Vec<&str> {
    names.iter().map(|n| n.text.as_str()).collect()
}

fn at(d: &Diagnostic) -> String {
    d.span.source_text().unwrap()
}

#[test]
fn empty_list_asks_for_nothing() {
    let args = parse("").unwrap();
    assert!(args.ignored.is_empty());
    assert_eq!(args.method, None);
}

#[test]
fn empty_ignore_is_a_no_op() {
    let args = parse("ignore()").unwrap();
    assert!(args.ignored.is_empty());
    assert_eq!(args.method, None);
}

#[test]
fn ignore_and_method_in_either_order() {
    let one = parse("ignore(a, b), method = \"m\"").unwrap();
    let other = parse("method = \"m\", ignore(a, b)").unwrap();
    assert_eq!(texts(&one.ignored), vec!["a", "b"]);
    assert_eq!(texts(&other.ignored), vec!["a", "b"]);
    assert_eq!(one.method, Some("m".to_string()));
    assert_eq!(other.method, Some("m".to_string()));
}

#[test]
fn trailing_comma_is_taken() {
    let args = parse("ignore(a, b,), method = \"m\",").unwrap();
    assert_eq!(texts(&args.ignored), vec!["a", "b"]);
    assert_eq!(args.method, Some("m".to_string()));
}

#[test]
fn several_ignores_are_put_together_in_order() {
    let args = parse("ignore(b), method = \"m\", ignore(a, b), ignore()").unwrap();
    assert_eq!(texts(&args.ignored), vec!["b", "a", "b"]);
    let places: Vec<String> = args.ignored.iter().map(|n| n.span.source_text().unwrap()).collect();
    assert_eq!(places, vec!["b", "a", "b"]);
    assert_eq!(args.ignored[0].span.byte_range(), 7..8);
    assert_eq!(args.ignored[2].span.byte_range(), 35..36);
}

#[test]
fn last_method_counts() {
    let args = parse("method = \"first\", ignore(a), method = \"second\"").unwrap();
    assert_eq!(args.method, Some("second".to_string()));
}

#[test]
fn method_text_is_what_the_literal_denotes() {
    assert_eq!(parse("method = \"a\\u{62}c\"").unwrap().method, Some("abc".to_string()));
    assert_eq!(parse("method = r\"raw\"").unwrap().method, Some("raw".to_string()));
    assert_eq!(parse("method = \"not checked here\"").unwrap().method, Some("not checked here".to_string()));
}

#[test]
fn words_are_case_sensitive() {
    assert_eq!(refused("Ignore(a)").problem, Problem::CalleeNotIgnore);
    assert_eq!(refused("Method = \"m\"").problem, Problem::TargetNotMethod);
}

#[test]
fn unsupported_argument() {
    for text in ["1 + 2", "\"lit\"", "ignore", "a.b", "!x", "[a, b]"] {
        let d = refused(text);
        assert_eq!(d.problem, Problem::UnsupportedArgument);
        assert_eq!(d.message, "unsupported argument; use `ignore(...)` or `method = \"...\"`");
        assert_eq!(at(&d), text);
        assert_eq!(d.problem.category(), Category::MalformedArgument);
    }
}

#[test]
fn callee_other_than_ignore() {
    let d = refused("skip(a)");
    assert_eq!(d.problem, Problem::CalleeNotIgnore);
    assert_eq!(d.message, "expected `ignore(...)`");
    assert_eq!(at(&d), "skip");

    let d = refused("a::ignore(x)");
    assert_eq!(d.problem, Problem::CalleeNotIgnore);
    assert_eq!(at(&d), "a::ignore");

    let d = refused("ignore::<T>(x)");
    assert_eq!(d.problem, Problem::CalleeNotIgnore);
}

#[test]
fn callee_that_is_no_path() {
    let d = refused("ignore(a), (f)(x)");
    assert_eq!(d.problem, Problem::CalleeNotPath);
    assert_eq!(d.message, "expected path in ignore(...)");
    assert_eq!(at(&d), "(f)");
    assert_eq!(d.problem.category(), Category::MalformedArgument);
}

#[test]
fn ignored_is_no_identifier() {
    let d = refused("ignore(1 + 2)");
    assert_eq!(d.problem, Problem::IgnoredNotIdentifier);
    assert_eq!(d.problem.category(), Category::MalformedArgument);
    assert_eq!(d.message, "expected identifier in ignore(...)");
    assert_eq!(at(&d), "1 + 2");
    assert_eq!(d.span.byte_range(), 7..12);

    let d = refused("ignore(a, b::c, 3)");
    assert_eq!(d.problem, Problem::IgnoredNotIdentifier);
    assert_eq!(at(&d), "b::c");

    let d = refused("ignore(a, ignore(b))");
    assert_eq!(d.problem, Problem::IgnoredNotIdentifier);
    assert_eq!(at(&d), "ignore(b)");

    let d = refused("ignore(\"a\")");
    assert_eq!(d.problem, Problem::IgnoredNotIdentifier);
    assert_eq!(at(&d), "\"a\"");
}

#[test]
fn target_that_is_no_path() {
    let d = refused("1 = \"m\"");
    assert_eq!(d.problem, Problem::TargetNotPath);
    assert_eq!(d.message, "expected `method = \"...\"` syntax");
    assert_eq!(at(&d), "1");
}

#[test]
fn target_that_is_no_identifier() {
    let d = refused("a::method = \"m\"");
    assert_eq!(d.problem, Problem::TargetNotIdentifier);
    assert_eq!(d.message, "expected identifier on left-hand side");
    assert_eq!(at(&d), "a::method");
}

#[test]
fn target_other_than_method() {
    let d = refused("name = \"m\"");
    assert_eq!(d.problem, Problem::TargetNotMethod);
    assert_eq!(d.message, "expected `method` on left-hand side");
    assert_eq!(at(&d), "name");
    assert_eq!(d.problem.category(), Category::MalformedArgument);
}

#[test]
fn method_that_is_no_string() {
    for (text, place) in [
        ("method = 3", "3"),
        ("method = other", "other"),
        ("method = b\"bytes\"", "b\"bytes\""),
        ("method = 'c'", "'c'"),
        ("method = f(\"m\")", "f(\"m\")"),
    ] {
        let d = refused(text);
        assert_eq!(d.problem, Problem::MethodNotString);
        assert_eq!(d.message, "method value must be a string literal");
        assert_eq!(at(&d), place);
    }
}

#[test]
fn target_is_looked_at_before_value() {
    let d = refused("name = 3");
    assert_eq!(d.problem, Problem::TargetNotMethod);
    assert_eq!(at(&d), "name");
}

#[test]
fn first_malformed_argument_ends_the_reading() {
    let d = refused("ignore(a), bogus, method = 3, ignore(1)");
    assert_eq!(d.problem, Problem::UnsupportedArgument);
    assert_eq!(at(&d), "bogus");

    let d = refused("method = 3, bogus");
    assert_eq!(d.problem, Problem::MethodNotString);
}

#[test]
fn what_the_host_grammar_refuses() {
    for text in ["ignore(a b)", "ignore(a) method = \"m\"", "ignore(a),, ignore(b)", "method ="] {
        let d = match read_arguments(tokens(text)) {
            Ok(list) => panic!("{} was read as {:?}", text, list),
            Err(d) => d,
        };
        assert_eq!(d.problem, Problem::Syntax);
        assert_eq!(d.problem.category(), Category::HostSyntax);
        assert!(!d.message.is_empty());
    }
}

#[test]
fn the_host_grammar_speaks_in_its_own_words() {
    let d = read_arguments(tokens("ignore(a b)")).unwrap_err();
    assert_eq!(d.problem, Problem::Syntax);
    assert_eq!(d.message, "expected `,`");
    assert_eq!(at(&d), "b");
}

#[test]
fn arguments_are_read_one_level_deep() {
    let list = read_arguments(tokens("ignore(a, 1), method = \"m\", x + y")).unwrap();
    assert_eq!(list.len(), 3);
    match &list[0] {
        Argument::Call { callee: Operand::Ident { name, span }, args } => {
            assert_eq!(name, "ignore");
            assert_eq!(span.source_text().unwrap(), "ignore");
            assert_eq!(args.len(), 2);
            assert!(matches!(&args[0], Operand::Ident { name, .. } if name == "a"));
            assert!(matches!(&args[1], Operand::Other { span } if span.source_text().unwrap() == "1"));
        }
        other => panic!("read as {:?}", other),
    }
    match &list[1] {
        Argument::Assign { target: Operand::Ident { name, .. }, value: Operand::Str { value, span } } => {
            assert_eq!(name, "method");
            assert_eq!(value, "m");
            assert_eq!(span.source_text().unwrap(), "\"m\"");
        }
        other => panic!("read as {:?}", other),
    }
    assert!(matches!(&list[2], Argument::Other { span } if span.source_text().unwrap() == "x + y"));
}

#[test]
fn parse_on_arguments_written_by_hand() {
    let here = Span::call_site();
    let ident = |text: &str| Operand::Ident { name: text.to_string(), span: here };
    let list = vec![
        Argument::Assign { target: ident("method"), value: Operand::Str { value: "first".to_string(), span: here } },
        Argument::Call { callee: ident("ignore"), args: vec![ident("x"), ident("y")] },
        Argument::Call { callee: ident("ignore"), args: vec![] },
        Argument::Call { callee: ident("ignore"), args: vec![ident("x")] },
    ];
    let args = Args::parse(&list).unwrap();
    assert_eq!(texts(&args.ignored), vec!["x", "y", "x"]);
    assert_eq!(args.method, Some("first".to_string()));

    let list = vec![
        Argument::Call { callee: ident("ignore"), args: vec![ident("x"), Operand::Path { span: here }] },
    ];
    assert_eq!(Args::parse(&list).unwrap_err().problem, Problem::IgnoredNotIdentifier);
    let list = vec![Argument::Call { callee: Operand::Path { span: here }, args: vec![] }];
    assert_eq!(Args::parse(&list).unwrap_err().problem, Problem::CalleeNotIgnore);
    let list = vec![Argument::Call { callee: Operand::Str { value: "ignore".to_string(), span: here }, args: vec![] }];
    assert_eq!(Args::parse(&list).unwrap_err().problem, Problem::CalleeNotPath);
    let list = vec![Argument::Assign { target: Operand::Other { span: here }, value: ident("m") }];
    assert_eq!(Args::parse(&list).unwrap_err().problem, Problem::TargetNotPath);
}
