use proc_macro2::{Delimiter, Span, TokenStream, TokenTree};
use proc_macro_warning::{collect_warning_items, collect_warning_statements, warn, WarningSink};

fn tokens_of(stream: TokenStream) -> Vec<TokenTree> {
    stream.into_iter().collect()
}

fn ident_name(tree: &TokenTree) -> String {
    match tree {
        TokenTree::Ident(ident) => ident.to_string(),
        other => panic!("expected an identifier, got {:?}", other),
    }
}

fn punct_char(tree: &TokenTree) -> char {
    match tree {
        TokenTree::Punct(punct) => punct.as_char(),
        other => panic!("expected punctuation, got {:?}", other),
    }
}

fn group_body(tree: &TokenTree, delimiter: Delimiter) -> Vec<TokenTree> {
    match tree {
        TokenTree::Group(group) => {
            assert_eq!(group.delimiter(), delimiter);
            tokens_of(group.stream())
        }
        other => panic!("expected a group, got {:?}", other),
    }
}

fn literal_text(tree: &TokenTree) -> String {
    match tree {
        TokenTree::Literal(literal) => literal.to_string(),
        other => panic!("expected a literal, got {:?}", other),
    }
}

/// Checks that `tokens` is the shim fragment for `message`:
/// `#[deprecated = "<message>"] struct Warning; struct Warner(Warning);`
fn assert_shim(tokens: &[TokenTree], message: &str) {
    assert_eq!(tokens.len(), 9);
    assert_eq!(punct_char(&tokens[0]), '#');
    let attr = group_body(&tokens[1], Delimiter::Bracket);
    assert_eq!(attr.len(), 3);
    assert_eq!(ident_name(&attr[0]), "deprecated");
    assert_eq!(punct_char(&attr[1]), '=');
    assert_eq!(literal_text(&attr[2]), format!("\"{}\"", message));
    assert_eq!(ident_name(&tokens[2]), "struct");
    assert_eq!(ident_name(&tokens[3]), "Warning");
    assert_eq!(punct_char(&tokens[4]), ';');
    assert_eq!(ident_name(&tokens[5]), "struct");
    assert_eq!(ident_name(&tokens[6]), "Warner");
    let reference = group_body(&tokens[7], Delimiter::Parenthesis);
    assert_eq!(reference.len(), 1);
    assert_eq!(ident_name(&reference[0]), "Warning");
    assert_eq!(punct_char(&tokens[8]), ';');
}

/// Splits a statements collection into the per-warning discard statements
/// `let _ = { ... };` and returns each statement's braced body.
fn split_statements(stream: TokenStream) -> Vec<Vec<TokenTree>> {
    let tokens = tokens_of(stream);
    assert_eq!(tokens.len() % 5, 0);
    let mut bodies = Vec::new();
    for statement in tokens.chunks(5) {
        assert_eq!(ident_name(&statement[0]), "let");
        assert_eq!(ident_name(&statement[1]), "_");
        assert_eq!(punct_char(&statement[2]), '=');
        bodies.push(group_body(&statement[3], Delimiter::Brace));
        assert_eq!(punct_char(&statement[4]), ';');
    }
    bodies
}

/// Splits an items collection into the per-warning modules
/// `mod W<i> { ... }` and returns each module's name and body.
fn split_modules(stream: TokenStream) -> Vec<(String, Vec<TokenTree>)> {
    let tokens = tokens_of(stream);
    assert_eq!(tokens.len() % 3, 0);
    let mut modules = Vec::new();
    for module in tokens.chunks(3) {
        assert_eq!(ident_name(&module[0]), "mod");
        modules.push((ident_name(&module[1]), group_body(&module[2], Delimiter::Brace)));
    }
    modules
}

#[test]
fn statements_one_per_warn_in_order() {
    let mut sink = WarningSink::new();
    warn(&mut sink, Span::call_site(), "first message");
    warn(&mut sink, Span::call_site(), "second message");
    warn(&mut sink, Span::call_site(), "third message");
    let bodies = split_statements(collect_warning_statements(&mut sink));
    assert_eq!(bodies.len(), 3);
    assert_shim(&bodies[0], "first message");
    assert_shim(&bodies[1], "second message");
    assert_shim(&bodies[2], "third message");
}

#[test]
fn items_unique_names_through_two_digits() {
    let mut sink = WarningSink::new();
    for i in 0..11 {
        warn(&mut sink, Span::call_site(), &format!("message {}", i));
    }
    let modules = split_modules(collect_warning_items(&mut sink));
    assert_eq!(modules.len(), 11);
    for (i, (name, body)) in modules.iter().enumerate() {
        assert_eq!(name, &format!("W{}", i));
        assert_shim(body, &format!("message {}", i));
    }
    assert_eq!(modules[10].0, "W10");
    for i in 0..modules.len() {
        for j in 0..i {
            assert_ne!(modules[i].0, modules[j].0);
        }
    }
}

#[test]
fn second_statements_collection_is_empty() {
    let mut sink = WarningSink::new();
    warn(&mut sink, Span::call_site(), "only once");
    let first = collect_warning_statements(&mut sink);
    assert_eq!(split_statements(first).len(), 1);
    let second = collect_warning_statements(&mut sink);
    assert!(second.is_empty());
}

#[test]
fn second_items_collection_is_empty() {
    let mut sink = WarningSink::new();
    warn(&mut sink, Span::call_site(), "once more");
    let first = collect_warning_items(&mut sink);
    assert_eq!(split_modules(first).len(), 1);
    let second = collect_warning_items(&mut sink);
    assert!(second.is_empty());
}

#[test]
fn empty_collection_is_empty_fragment() {
    let mut sink = WarningSink::new();
    assert!(collect_warning_statements(&mut sink).is_empty());
    let mut sink = WarningSink::new();
    assert!(collect_warning_items(&mut sink).is_empty());
}

#[test]
fn locations_round_trip_through_rendering() {
    let source: TokenStream = "alpha beta".parse().unwrap();
    let spans: Vec<Span> = source.into_iter().map(|tree| tree.span()).collect();
    let (loc_a, loc_b) = (spans[0], spans[1]);
    assert_ne!(loc_a.start(), loc_b.start());

    let mut sink = WarningSink::new();
    warn(&mut sink, loc_a, "use of X is discouraged");
    warn(&mut sink, loc_b, "Y will be removed");
    let statements = tokens_of(collect_warning_statements(&mut sink));
    assert_eq!(statements.len(), 10);
    for tree in &statements[0..5] {
        assert_eq!(tree.span().start(), loc_a.start());
        assert_eq!(tree.span().end(), loc_a.end());
    }
    for tree in &statements[5..10] {
        assert_eq!(tree.span().start(), loc_b.start());
        assert_eq!(tree.span().end(), loc_b.end());
    }
    let bodies = split_statements(statements.into_iter().collect());
    for token in &bodies[0] {
        assert_eq!(token.span().start(), loc_a.start());
    }
    for token in &bodies[1] {
        assert_eq!(token.span().start(), loc_b.start());
    }
}

#[test]
fn two_warnings_render_two_tagged_modules() {
    let source: TokenStream = "x y".parse().unwrap();
    let spans: Vec<Span> = source.into_iter().map(|tree| tree.span()).collect();
    let (loc_a, loc_b) = (spans[0], spans[1]);

    let mut sink = WarningSink::new();
    warn(&mut sink, loc_a, "use of X is discouraged");
    warn(&mut sink, loc_b, "Y will be removed");
    let output = tokens_of(collect_warning_items(&mut sink));
    assert_eq!(output.len(), 6);
    for tree in &output[0..3] {
        assert_eq!(tree.span().start(), loc_a.start());
    }
    for tree in &output[3..6] {
        assert_eq!(tree.span().start(), loc_b.start());
    }
    let modules = split_modules(output.into_iter().collect());
    assert_eq!(modules.len(), 2);
    assert_eq!(modules[0].0, "W0");
    assert_shim(&modules[0].1, "use of X is discouraged");
    assert_eq!(modules[1].0, "W1");
    assert_shim(&modules[1].1, "Y will be removed");
}

#[test]
fn independent_sinks_never_mix() {
    let mut sink_a = WarningSink::new();
    let mut sink_b = WarningSink::new();
    warn(&mut sink_a, Span::call_site(), "a one");
    warn(&mut sink_b, Span::call_site(), "b one");
    warn(&mut sink_a, Span::call_site(), "a two");
    warn(&mut sink_b, Span::call_site(), "b two");
    warn(&mut sink_b, Span::call_site(), "b three");
    warn(&mut sink_a, Span::call_site(), "a three");

    let modules_a = split_modules(collect_warning_items(&mut sink_a));
    assert_eq!(modules_a.len(), 3);
    assert_shim(&modules_a[0].1, "a one");
    assert_shim(&modules_a[1].1, "a two");
    assert_shim(&modules_a[2].1, "a three");

    let modules_b = split_modules(collect_warning_items(&mut sink_b));
    assert_eq!(modules_b.len(), 3);
    assert_shim(&modules_b[0].1, "b one");
    assert_shim(&modules_b[1].1, "b two");
    assert_shim(&modules_b[2].1, "b three");
}

#[test]
fn message_is_escaped_into_a_literal() {
    let mut sink = WarningSink::new();
    warn(&mut sink, Span::call_site(), "say \"hi\" \\ back");
    let bodies = split_statements(collect_warning_statements(&mut sink));
    let attr = group_body(&bodies[0][1], Delimiter::Bracket);
    assert_eq!(literal_text(&attr[2]), "\"say \\\"hi\\\" \\\\ back\"");
}
