use noir_language_server::backend::{Backend, TextDocumentItem};
use noir_language_server::error::ServerError;
use noir_language_server::hints::{BindingSite, Hint};
use noir_language_server::position::{Position, Range};
use noir_language_server::syntax::{
    Diagnostic, Expression, ExpressionKind, FunctionDecl, FunctionKind, LiteralKind, Span,
    Statement, SyntaxTree,
};
use noir_language_server::text_buffer::offset_to_position;

const URI: &str = "file:///main.nr";
const SOURCE: &str = "fn main() { let x = 1; let y = true; let z = foo(); }";

fn binding(kind: ExpressionKind, start: u32, end: u32) -> Statement {
    Statement::Let(Expression { kind, span: Span { start, end } })
}

fn source_tree() -> SyntaxTree {
    SyntaxTree {
        functions: vec![FunctionDecl {
            kind: FunctionKind::Normal,
            body: vec![
                binding(ExpressionKind::Literal(LiteralKind::Integer), 20, 21),
                binding(ExpressionKind::Literal(LiteralKind::Bool), 31, 35),
                binding(ExpressionKind::Other, 45, 50),
            ],
        }],
        diagnostics: Vec::new(),
    }
}

fn tree_with_site_at(start: u32) -> SyntaxTree {
    SyntaxTree {
        functions: vec![FunctionDecl {
            kind: FunctionKind::Normal,
            body: vec![binding(ExpressionKind::Literal(LiteralKind::Integer), start, start + 1)],
        }],
        diagnostics: Vec::new(),
    }
}

fn item(uri: &str, text: &str, version: i32) -> TextDocumentItem {
    TextDocumentItem::opened(uri.to_string(), text.to_string(), version)
}

fn hint(uri: &str, line: usize, character: usize, label: &str) -> Hint {
    Hint {
        position: Position { line, character },
        label: label.to_string(),
        uri: uri.to_string(),
        range: Range {
            start: Position { line: 0, character: 4 },
            end: Position { line: 0, character: 5 },
        },
    }
}

#[test]
fn opened_document_yields_hints_for_its_literal_bindings() {
    let mut backend = Backend::new();
    backend.on_change(item(URI, SOURCE, 1), source_tree());
    assert_eq!(
        backend.binding_sites(URI),
        Ok(vec![
            BindingSite { span: Span { start: 20, end: 21 }, kind: LiteralKind::Integer },
            BindingSite { span: Span { start: 31, end: 35 }, kind: LiteralKind::Bool },
        ])
    );
    assert_eq!(
        backend.inlay_hint(URI),
        Some(vec![hint(URI, 0, 18, ": integer"), hint(URI, 0, 29, ": bool")])
    );
}

#[test]
fn document_never_opened_has_no_hints() {
    let backend = Backend::new();
    assert_eq!(backend.inlay_hint(URI), None);
    assert_eq!(backend.binding_sites(URI), Err(ServerError::NotFound));
    assert_eq!(backend.project(URI, &Vec::new()), Err(ServerError::NotFound));
    assert!(matches!(backend.text_buffer(URI), Err(ServerError::NotFound)));
    assert!(matches!(backend.syntax_tree(URI), Err(ServerError::NotFound)));
}

#[test]
fn query_for_another_document_misses() {
    let mut backend = Backend::new();
    backend.on_change(item(URI, SOURCE, 1), source_tree());
    assert_eq!(backend.inlay_hint("file:///other.nr"), None);
    assert_eq!(backend.inlay_hint("file:///main.n"), None);
    assert_eq!(backend.inlay_hint(""), None);
}

#[test]
fn change_with_identical_text_leaves_the_tree_equal() {
    let mut backend = Backend::new();
    backend.on_change(item(URI, SOURCE, 1), source_tree());
    let first_tree = backend.syntax_tree(URI).unwrap();
    let first_hints = backend.inlay_hint(URI);
    backend.on_change(item(URI, SOURCE, 2), source_tree());
    let second_tree = backend.syntax_tree(URI).unwrap();
    assert_eq!(*second_tree, *first_tree);
    assert_eq!(*second_tree, source_tree());
    assert_eq!(backend.inlay_hint(URI), first_hints);
    assert_eq!(backend.text_buffer(URI).unwrap().len_chars(), SOURCE.chars().count());
}

#[test]
fn change_replaces_text_and_tree() {
    let mut backend = Backend::new();
    backend.on_change(item(URI, SOURCE, 1), source_tree());
    backend.on_change(item(URI, "fn f() {\n  let b = 2;\n}", 2), tree_with_site_at(19));
    let buffer = backend.text_buffer(URI).unwrap();
    assert_eq!(buffer.len_chars(), 23);
    assert_eq!(offset_to_position(9, &buffer), Some(Position { line: 1, character: 0 }));
    assert_eq!(*backend.syntax_tree(URI).unwrap(), tree_with_site_at(19));
    assert_eq!(backend.inlay_hint(URI), Some(vec![hint(URI, 1, 8, ": integer")]));
}

#[test]
fn stale_tree_against_shorter_text_loses_only_the_stale_hint() {
    let mut backend = Backend::new();
    let long: String = "x".repeat(100);
    backend.on_change(item(URI, &long, 1), tree_with_site_at(50));
    let stale_sites = backend.binding_sites(URI).unwrap();
    assert_eq!(backend.inlay_hint(URI), Some(vec![hint(URI, 0, 48, ": integer")]));
    backend.on_change(item(URI, "let a = 1;", 2), tree_with_site_at(8));
    assert_eq!(backend.text_buffer(URI).unwrap().len_chars(), 10);
    assert_eq!(backend.project(URI, &stale_sites), Ok(Vec::new()));
    let mut mixed = backend.binding_sites(URI).unwrap();
    mixed.extend(stale_sites);
    mixed.push(BindingSite { span: Span { start: 4, end: 5 }, kind: LiteralKind::Bool });
    assert_eq!(
        backend.project(URI, &mixed),
        Ok(vec![hint(URI, 0, 6, ": integer"), hint(URI, 0, 2, ": bool")])
    );
    assert_eq!(backend.inlay_hint(URI), Some(vec![hint(URI, 0, 6, ": integer")]));
}

#[test]
fn new_tree_against_old_text_drops_what_does_not_fit() {
    let mut backend = Backend::new();
    backend.on_change(item(URI, "short", 1), tree_with_site_at(90));
    assert_eq!(backend.inlay_hint(URI), Some(Vec::new()));
}

#[test]
fn closed_document_has_no_hints() {
    let mut backend = Backend::new();
    backend.on_change(item(URI, SOURCE, 1), source_tree());
    backend.on_change(item("file:///lib.nr", "let k = 7;", 1), tree_with_site_at(8));
    backend.did_close(URI);
    assert_eq!(backend.inlay_hint(URI), None);
    assert_eq!(backend.binding_sites(URI), Err(ServerError::NotFound));
    assert!(matches!(backend.text_buffer(URI), Err(ServerError::NotFound)));
    assert!(matches!(backend.syntax_tree(URI), Err(ServerError::NotFound)));
    assert_eq!(
        backend.inlay_hint("file:///lib.nr"),
        Some(vec![hint("file:///lib.nr", 0, 6, ": integer")])
    );
}

#[test]
fn closing_a_document_that_is_not_open_changes_nothing() {
    let mut backend = Backend::new();
    backend.on_change(item(URI, SOURCE, 1), source_tree());
    let before = backend.inlay_hint(URI);
    backend.did_close("file:///other.nr");
    assert_eq!(backend.inlay_hint(URI), before);
}

#[test]
fn reopened_document_is_served_again() {
    let mut backend = Backend::new();
    backend.on_change(item(URI, SOURCE, 1), source_tree());
    backend.did_close(URI);
    backend.on_change(item(URI, "let k = 7;", 1), tree_with_site_at(8));
    assert_eq!(backend.inlay_hint(URI), Some(vec![hint(URI, 0, 6, ": integer")]));
}

#[test]
fn change_to_one_document_leaves_the_others() {
    let mut backend = Backend::new();
    backend.on_change(item(URI, SOURCE, 1), source_tree());
    let before = backend.inlay_hint(URI);
    backend.on_change(item("file:///lib.nr", "let k = 7;", 1), tree_with_site_at(8));
    backend.on_change(item("file:///lib.nr", "let k = 70;", 2), tree_with_site_at(8));
    assert_eq!(backend.inlay_hint(URI), before);
    assert_eq!(
        backend.inlay_hint("file:///lib.nr"),
        Some(vec![hint("file:///lib.nr", 0, 6, ": integer")])
    );
}

#[test]
fn partial_tree_is_stored_with_its_diagnostics() {
    let mut backend = Backend::new();
    let mut tree = tree_with_site_at(8);
    tree.diagnostics.push(Diagnostic {
        message: "expected `;`".to_string(),
        span: Span { start: 9, end: 10 },
    });
    backend.on_change(item(URI, "let a = 1", 1), tree.clone());
    let stored = backend.syntax_tree(URI).unwrap();
    assert!(stored.has_diagnostics());
    assert_eq!(stored.diagnostics, tree.diagnostics);
    assert_eq!(backend.inlay_hint(URI), Some(vec![hint(URI, 0, 6, ": integer")]));
    backend.on_change(item(URI, "let a = 1;", 2), tree_with_site_at(8));
    assert!(!backend.syntax_tree(URI).unwrap().has_diagnostics());
}

#[test]
fn open_event_carries_its_fields() {
    let opened = TextDocumentItem::opened(URI.to_string(), SOURCE.to_string(), 7);
    assert_eq!(
        opened,
        TextDocumentItem { uri: URI.to_string(), text: SOURCE.to_string(), version: 7 }
    );
}

#[test]
fn change_event_takes_the_first_content_change_as_full_text() {
    let changed = TextDocumentItem::changed(
        URI.to_string(),
        3,
        vec!["let a = 1;".to_string(), "ignored".to_string()],
    );
    assert_eq!(
        changed,
        Ok(TextDocumentItem { uri: URI.to_string(), text: "let a = 1;".to_string(), version: 3 })
    );
}

#[test]
fn change_event_without_content_is_malformed() {
    let changed = TextDocumentItem::changed(URI.to_string(), 3, Vec::new());
    assert_eq!(changed, Err(ServerError::MalformedEvent));
}

#[test]
fn malformed_change_leaves_the_state_untouched() {
    let mut backend = Backend::new();
    backend.on_change(item(URI, SOURCE, 1), source_tree());
    let before = backend.inlay_hint(URI);
    if let Ok(changed) = TextDocumentItem::changed(URI.to_string(), 2, Vec::new()) {
        backend.on_change(changed, tree_with_site_at(8));
    }
    assert_eq!(backend.inlay_hint(URI), before);
}
