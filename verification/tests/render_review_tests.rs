use lint_core::diagnostics::Diagnostic;
use lint_core::diagnostics::Severity;
use lint_core::render::dec_string;
use lint_core::render::diagnostic_to_string;
use lint_core::render::severity_str;
use lint_core::review::ReviewEvent;
use lint_core::review::ReviewState;
use lint_core::review::review_done;
use lint_core::review::review_step;
use lint_core::syntax::TextRange;

#[test]
fn decimal_formatting_is_exact() {
    assert_eq!(dec_string(0), "0");
    assert_eq!(dec_string(7), "7");
    assert_eq!(dec_string(10), "10");
    assert_eq!(dec_string(907), "907");
    assert_eq!(dec_string(18), "18");
}

#[test]
fn severity_words() {
    assert_eq!(severity_str(&Severity::Hint), "hint");
    assert_eq!(severity_str(&Severity::Information), "information");
    assert_eq!(severity_str(&Severity::Warning), "warning");
    assert_eq!(severity_str(&Severity::Error), "error");
}

#[test]
fn renders_a_full_diagnostic() {
    let diag = Diagnostic {
        category: "lint/nursery/enforceFooBar".to_string(),
        severity: Severity::Error,
        message: "Variable is read here.".to_string(),
        note: Some("This note will give you more information.".to_string()),
        range: TextRange { start: 6, end: 17 },
        fix_available: false,
    };
    let text = diagnostic_to_string("file.js", "const foo = 'baz';", &diag);
    assert_eq!(
        text,
        "file.js:6..17 error[lint/nursery/enforceFooBar]: Variable is read here.\n  note: This note will give you more information.\n  --> foo = 'baz'"
    );
}

#[test]
fn renders_without_note_or_excerpt() {
    let diag = Diagnostic {
        category: "lint".to_string(),
        severity: Severity::Warning,
        message: "m".to_string(),
        note: None,
        range: TextRange { start: 2, end: 9 },
        fix_available: false,
    };
    let text = diagnostic_to_string("a.js", "short", &diag);
    assert_eq!(text, "a.js:2..9 warning[lint]: m");
}

#[test]
fn review_session_over_empty_list_is_done_at_once() {
    let s = review_step(ReviewState::Start, 0, ReviewEvent::Other);
    assert_eq!(s, ReviewState::Done);
    assert!(review_done(&s));
}

#[test]
fn review_session_quits_only_on_the_exit_signal() {
    let s = review_step(ReviewState::Start, 3, ReviewEvent::Other);
    assert_eq!(s, ReviewState::Reviewing(0));
    assert!(!review_done(&s));
    let s = review_step(s, 3, ReviewEvent::Other);
    assert_eq!(s, ReviewState::Reviewing(0));
    let s = review_step(s, 3, ReviewEvent::QuitRequested);
    assert_eq!(s, ReviewState::Done);
    let s = review_step(s, 3, ReviewEvent::Other);
    assert_eq!(s, ReviewState::Done);
}
