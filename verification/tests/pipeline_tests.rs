use lint_core::orchestrator::ApplyErrorKind;
use lint_core::orchestrator::Execution;
use lint_core::orchestrator::FileStatus;
use lint_core::orchestrator::lint;
use lint_core::orchestrator::lint_with_guard;
use lint_core::quota::DiagnosticQuota;
use lint_core::quota::UNLIMITED_QUOTA;
use lint_core::service::FixMode;
use lint_core::syntax::Declarator;
use lint_core::syntax::FileModel;
use lint_core::syntax::Initializer;
use lint_core::syntax::TextRange;
use lint_core::workspace::WorkspaceFile;

fn declarator(start: usize, end: usize, is_const: Option<bool>, id: Option<&str>, init: Option<(usize, usize, Option<&str>)>) -> Declarator {
    Declarator {
        range: TextRange { start, end },
        is_const,
        id: id.map(|s| s.to_string()),
        init: init.map(|(s, e, lit)| Initializer {
            range: TextRange { start: s, end: e },
            literal: lit.map(|l| l.to_string()),
        }),
    }
}

fn baz_model() -> FileModel {
    FileModel {
        analyzable: true,
        declarators: vec![declarator(6, 17, Some(true), Some("foo"), Some((12, 17, Some("baz"))))],
    }
}

fn check_only() -> Execution {
    Execution { fix_mode: None, interactive: false }
}

fn check_apply(mode: FixMode) -> Execution {
    Execution { fix_mode: Some(mode), interactive: false }
}

#[test]
fn clean_file_is_success() {
    let model = FileModel::empty();
    let (report, _file) = lint(
        &check_only(),
        &DiagnosticQuota::unlimited(),
        "file.js".to_string(),
        "let a = 1;".to_string(),
        model,
    )
    .unwrap();
    assert_eq!(report.status, FileStatus::Success);
    assert!(report.diagnostics_report.is_none());
    assert!(report.review_diagnostics.is_none());
    assert!(report.skipped_fixes_note.is_none());
}

#[test]
fn check_mode_classifies_errors_found() {
    let (report, _file) = lint(
        &check_only(),
        &DiagnosticQuota::unlimited(),
        "file.js".to_string(),
        "const foo = 'baz';".to_string(),
        baz_model(),
    )
    .unwrap();
    assert_eq!(report.status, FileStatus::ApplyError(ApplyErrorKind::ErrorsFound));
    assert_eq!(ApplyErrorKind::ErrorsFound.code(), "errors found");
    let payload = report.diagnostics_report.unwrap();
    assert_eq!(payload.name, "file.js");
    assert_eq!(payload.content, "const foo = 'baz';");
    assert_eq!(payload.diagnostics.len(), 1);
    assert_eq!(payload.skipped_diagnostics, 0);
}

#[test]
fn apply_mode_fixes_and_succeeds() {
    let (report, file) = lint(
        &check_apply(FixMode::SafeOnly),
        &DiagnosticQuota::unlimited(),
        "file.js".to_string(),
        "const foo = 'baz';".to_string(),
        baz_model(),
    )
    .unwrap();
    assert_eq!(report.status, FileStatus::Success);
    assert!(report.diagnostics_report.is_none());
    assert_eq!(report.skipped_fixes_note, Some(0));
    assert_eq!(file.input(), "const foo = 'bar';");
}

#[test]
fn apply_mode_with_remaining_errors_classifies_remain_after_fix() {
    let (report, file) = lint(
        &check_apply(FixMode::UnsafeOnly),
        &DiagnosticQuota::unlimited(),
        "file.js".to_string(),
        "const foo = 'baz';".to_string(),
        baz_model(),
    )
    .unwrap();
    assert_eq!(report.status, FileStatus::ApplyError(ApplyErrorKind::ErrorsRemainAfterFix));
    assert_eq!(ApplyErrorKind::ErrorsRemainAfterFix.code(), "errors remain after fix");
    assert_eq!(file.input(), "const foo = 'baz';");
}

#[test]
fn quota_snapshot_caps_the_pull() {
    let quota = DiagnosticQuota::new(0);
    assert_eq!(quota.snapshot(), 0);
    let (report, _file) = lint(
        &check_only(),
        &quota,
        "file.js".to_string(),
        "const foo = 'baz';".to_string(),
        baz_model(),
    )
    .unwrap();
    assert_eq!(report.status, FileStatus::ApplyError(ApplyErrorKind::ErrorsFound));
    let payload = report.diagnostics_report.unwrap();
    assert!(payload.diagnostics.is_empty());
    assert_eq!(payload.skipped_diagnostics, 1);
    assert_eq!(DiagnosticQuota::unlimited().snapshot(), UNLIMITED_QUOTA);
}

#[test]
fn interactive_run_hands_out_the_review_list() {
    let cfg = Execution { fix_mode: Some(FixMode::SafeOnly), interactive: true };
    let (report, file) = lint(
        &cfg,
        &DiagnosticQuota::unlimited(),
        "file.js".to_string(),
        "const foo = 'baz';".to_string(),
        baz_model(),
    )
    .unwrap();
    let review = report.review_diagnostics.unwrap();
    assert_eq!(review.len(), 1);
    assert!(review[0].fix_available);
    assert_eq!(file.input(), "const foo = 'baz';");
    assert_eq!(report.status, FileStatus::ApplyError(ApplyErrorKind::ErrorsFound));
    assert!(report.skipped_fixes_note.is_none());
}

#[test]
fn skipped_fixes_are_noted() {
    let model = FileModel {
        analyzable: true,
        declarators: vec![
            declarator(6, 17, Some(true), Some("foo"), Some((12, 17, Some("baz")))),
            declarator(6, 17, Some(true), Some("foo"), Some((14, 18, Some("zap")))),
        ],
    };
    let (report, file) = lint(
        &check_apply(FixMode::SafeOnly),
        &DiagnosticQuota::unlimited(),
        "file.js".to_string(),
        "const foo = 'baz';".to_string(),
        model,
    )
    .unwrap();
    assert_eq!(report.skipped_fixes_note, Some(1));
    assert_eq!(report.status, FileStatus::ApplyError(ApplyErrorKind::ErrorsRemainAfterFix));
    assert_eq!(file.input(), "const foo = 'bar';");
}

#[test]
fn unanalyzable_file_fails_with_path_and_code() {
    let model = FileModel { analyzable: false, declarators: vec![] };
    let err = lint(
        &check_only(),
        &DiagnosticQuota::unlimited(),
        "broken.js".to_string(),
        String::new(),
        model,
    )
    .unwrap_err();
    assert_eq!(err.path, "broken.js");
    assert_eq!(err.category, "lint");
}

#[test]
fn update_then_input_round_trips() {
    let mut file = WorkspaceFile::new(
        "file.js".to_string(),
        "const foo = 'baz';".to_string(),
        baz_model(),
    );
    let text = "const foo = 'bar';".to_string();
    file.update_file(text.clone(), FileModel { analyzable: true, declarators: vec![] });
    assert_eq!(file.input(), text);
    assert_eq!(file.path, "file.js");
}

#[test]
fn pull_after_update_sees_the_new_revision() {
    let mut file = WorkspaceFile::new(
        "file.js".to_string(),
        "const foo = 'baz';".to_string(),
        baz_model(),
    );
    file.update_file(
        "const foo = 'bar';".to_string(),
        FileModel {
            analyzable: true,
            declarators: vec![declarator(6, 17, Some(true), Some("foo"), Some((12, 17, Some("bar"))))],
        },
    );
    let report = lint_with_guard(&check_only(), &DiagnosticQuota::unlimited(), &mut file).unwrap();
    assert_eq!(report.status, FileStatus::Success);
    assert!(report.diagnostics_report.is_none());
}
