use naming_check::case_conv::CaseType;
use naming_check::decl_check::{names_equal, pat_equals_to_name};
use naming_check::diagnostics::{DiagnosticSink, IncorrectCase};
use naming_check::syntax::{FileId, Name, Pat, SyntaxNodePtr};

fn name_node(text: &str) -> Name {
    Name { text: text.to_string(), ptr: SyntaxNodePtr { start: 0, end: text.len() as u32 } }
}

#[test]
fn names_equal_compares_the_text() {
    let node = name_node("SomeField");
    assert!(names_equal(Some(&node), &"SomeField".to_string()));
    assert!(!names_equal(Some(&node), &"some_field".to_string()));
    assert!(!names_equal(Some(&node), &"SomeFiel".to_string()));
    assert!(!names_equal(None, &"SomeField".to_string()));
    assert!(!names_equal(None, &"".to_string()));
}

#[test]
fn pat_equals_to_name_takes_identifier_patterns_only() {
    let at = SyntaxNodePtr { start: 3, end: 12 };
    let ident = Pat::IdentPat { name: "SomeParam".to_string(), ptr: at };
    let other = Pat::Other { ptr: at };
    assert!(pat_equals_to_name(Some(&ident), &"SomeParam".to_string()));
    assert!(!pat_equals_to_name(Some(&ident), &"OtherParam".to_string()));
    assert!(!pat_equals_to_name(Some(&other), &"SomeParam".to_string()));
    assert!(!pat_equals_to_name(None, &"SomeParam".to_string()));
    assert_eq!(ident.ptr(), at);
    assert_eq!(other.ptr(), at);
}

#[test]
fn pat_equals_to_name_looks_at_the_identifier_alone() {
    // The pattern `mut SomeParam` binds `SomeParam`; its pointer covers the
    // modifier too.
    let pattern = Pat::IdentPat {
        name: "SomeParam".to_string(),
        ptr: SyntaxNodePtr { start: 6, end: 19 },
    };
    assert!(pat_equals_to_name(Some(&pattern), &"SomeParam".to_string()));
    assert!(!pat_equals_to_name(Some(&pattern), &"mut SomeParam".to_string()));
    assert!(pat_equals_to_name(
        Some(&Pat::IdentPat { name: "CAPS_PARAM".to_string(), ptr: pattern.ptr() }),
        &"CAPS_PARAM".to_string()
    ));
}

fn diagnostic(kind: &str, case: CaseType, current: &str, suggested: &str) -> IncorrectCase {
    IncorrectCase {
        file: FileId(0),
        ident_type: kind.to_string(),
        ident: SyntaxNodePtr { start: 0, end: current.len() as u32 },
        expected_case: case,
        ident_text: current.to_string(),
        suggested_text: suggested.to_string(),
    }
}

#[test]
fn message_names_kind_name_convention_and_suggestion() {
    assert_eq!(
        diagnostic("Function", CaseType::LowerSnakeCase, "Foo", "foo").message(),
        "Function `Foo` should have a snake_case name, e.g. `foo`"
    );
    assert_eq!(
        diagnostic("Structure", CaseType::UpperCamelCase, "foo", "Foo").message(),
        "Structure `foo` should have a CamelCase name, e.g. `Foo`"
    );
}

#[test]
fn sink_keeps_the_order_of_pushes() {
    let mut sink = DiagnosticSink::new();
    assert_eq!(sink.len(), 0);
    sink.push(diagnostic("Field", CaseType::LowerSnakeCase, "A", "a"));
    sink.push(diagnostic("Field", CaseType::LowerSnakeCase, "B", "b"));
    assert_eq!(sink.len(), 2);
    let texts: Vec<&str> = sink.diagnostics().iter().map(|d| d.ident_text.as_str()).collect();
    assert_eq!(texts, vec!["A", "B"]);
}
