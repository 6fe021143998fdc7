use lint_core::diagnostics::Severity;
use lint_core::rules::RegisteredRule;
use lint_core::rules::RuleCategories;
use lint_core::rules::RuleCategory;
use lint_core::service::FileGuard;
use lint_core::service::FixMode;
use lint_core::syntax::Declarator;
use lint_core::syntax::FileModel;
use lint_core::syntax::Initializer;
use lint_core::syntax::TextRange;

fn declarator(start: usize, end: usize, is_const: Option<bool>, id: Option<&str>, init: Option<(usize, usize, Option<&str>)>) -> Declarator {
    Declarator {
        range: TextRange { start, end },
        is_const,
        id: id.map(|s| s.to_string()),
        init: init.map(|(s, e, lit)| Initializer {
            range: TextRange { start: s, end: e },
            literal: lit.map(|l| l.to_string()),
        }),
    }
}

/// The model of `const foo = 'baz';`: one declarator over `foo = 'baz'`
/// (positions 6..17), its initializer literal `baz` at 12..17.
fn baz_model() -> FileModel {
    FileModel {
        analyzable: true,
        declarators: vec![declarator(6, 17, Some(true), Some("foo"), Some((12, 17, Some("baz"))))],
    }
}

fn baz_guard() -> FileGuard {
    FileGuard { content: "const foo = 'baz';".to_string(), model: baz_model() }
}

#[test]
fn scenario_one_diagnostic() {
    let result = baz_guard()
        .pull_diagnostics(RuleCategories::lint(), u64::MAX, false)
        .unwrap();
    assert_eq!(result.diagnostics.len(), 1);
    assert_eq!(result.errors, 1);
    assert_eq!(result.skipped_diagnostics, 0);
    let diag = &result.diagnostics[0];
    assert_eq!(diag.range, TextRange { start: 6, end: 17 });
    assert_eq!(diag.severity, Severity::Error);
    assert_eq!(diag.category, "lint/nursery/enforceFooBar");
    assert_eq!(diag.message, "Variable is read here.");
    assert_eq!(diag.note.as_deref(), Some("This note will give you more information."));
    assert!(!diag.fix_available);
}

#[test]
fn scenario_zero_cap() {
    let result = baz_guard()
        .pull_diagnostics(RuleCategories::lint(), 0, false)
        .unwrap();
    assert!(result.diagnostics.is_empty());
    assert_eq!(result.skipped_diagnostics, 1);
    assert_eq!(result.errors, 1);
}

#[test]
fn zero_cap_counts_every_match() {
    let guard = FileGuard {
        content: "const foo = 'a'; const foo = 'b';".to_string(),
        model: FileModel {
            analyzable: true,
            declarators: vec![
                declarator(6, 15, Some(true), Some("foo"), Some((12, 15, Some("a")))),
                declarator(23, 32, Some(true), Some("foo"), Some((29, 32, Some("b")))),
            ],
        },
    };
    let result = guard.pull_diagnostics(RuleCategories::lint(), 0, false).unwrap();
    assert!(result.diagnostics.is_empty());
    assert_eq!(result.skipped_diagnostics, 2);
    assert_eq!(result.errors, 2);
    let capped = guard.pull_diagnostics(RuleCategories::lint(), 1, false).unwrap();
    assert_eq!(capped.diagnostics.len(), 1);
    assert_eq!(capped.skipped_diagnostics, 1);
    assert_eq!(capped.errors, 2);
}

#[test]
fn no_match_pull_is_empty() {
    let guard = FileGuard {
        content: "const foo = 'bar';".to_string(),
        model: FileModel {
            analyzable: true,
            declarators: vec![declarator(6, 17, Some(true), Some("foo"), Some((12, 17, Some("bar"))))],
        },
    };
    let result = guard.pull_diagnostics(RuleCategories::lint(), u64::MAX, false).unwrap();
    assert!(result.diagnostics.is_empty());
    assert_eq!(result.errors, 0);
    assert_eq!(result.skipped_diagnostics, 0);
}

#[test]
fn failed_lookups_never_match() {
    let cases = vec![
        declarator(0, 5, None, Some("foo"), Some((3, 5, Some("baz")))),
        declarator(0, 5, Some(false), Some("foo"), Some((3, 5, Some("baz")))),
        declarator(0, 5, Some(true), None, Some((3, 5, Some("baz")))),
        declarator(0, 5, Some(true), Some("qux"), Some((3, 5, Some("baz")))),
        declarator(0, 5, Some(true), Some("foo"), None),
        declarator(0, 5, Some(true), Some("foo"), Some((3, 5, None))),
    ];
    for case in cases {
        let guard = FileGuard {
            content: String::new(),
            model: FileModel { analyzable: true, declarators: vec![case] },
        };
        let result = guard.pull_diagnostics(RuleCategories::lint(), u64::MAX, false).unwrap();
        assert!(result.diagnostics.is_empty());
        assert_eq!(result.errors, 0);
    }
}

#[test]
fn category_filter_keeps_concerns_apart() {
    let other = RuleCategories { syntax: true, lint: false, action: true };
    let result = baz_guard().pull_diagnostics(other, u64::MAX, false).unwrap();
    assert!(result.diagnostics.is_empty());
    assert_eq!(result.errors, 0);
    assert_eq!(result.skipped_diagnostics, 0);
    assert!(RuleCategories::lint().contains(RuleCategory::Lint));
    assert!(!RuleCategories::lint().contains(RuleCategory::Syntax));
    assert!(!RuleCategories::lint().contains(RuleCategory::Action));
}

#[test]
fn pull_computes_fix_availability() {
    let result = baz_guard().pull_diagnostics(RuleCategories::lint(), u64::MAX, true).unwrap();
    assert_eq!(result.diagnostics.len(), 1);
    assert!(result.diagnostics[0].fix_available);
}

#[test]
fn unanalyzable_tree_is_a_structural_failure() {
    let guard = FileGuard {
        content: String::new(),
        model: FileModel { analyzable: false, declarators: vec![] },
    };
    assert!(guard.pull_diagnostics(RuleCategories::lint(), u64::MAX, false).is_err());
    assert!(guard.fix_file(FixMode::SafeOnly, false).is_err());
}

#[test]
fn fix_applies_the_safe_fix() {
    let fixed = baz_guard().fix_file(FixMode::SafeOnly, false).unwrap();
    assert_eq!(fixed.code, "const foo = 'bar';");
    assert_eq!(fixed.errors, 0);
    assert_eq!(fixed.skipped_suggested_fixes, 0);
    let after = FileGuard { content: fixed.code.clone(), model: fixed.model };
    let result = after.pull_diagnostics(RuleCategories::lint(), u64::MAX, false).unwrap();
    assert!(result.diagnostics.is_empty());
    assert_eq!(result.errors, 0);
}

#[test]
fn fix_is_idempotent_on_its_own_output() {
    let first = baz_guard().fix_file(FixMode::SafeOnly, false).unwrap();
    let again = FileGuard { content: first.code.clone(), model: first.model }
        .fix_file(FixMode::SafeOnly, false)
        .unwrap();
    assert_eq!(again.code, first.code);
    assert_eq!(again.errors, 0);
    assert_eq!(again.skipped_suggested_fixes, 0);
}

#[test]
fn dry_run_never_mutates() {
    let dry = baz_guard().fix_file(FixMode::SafeOnly, true).unwrap();
    assert_eq!(dry.code, "const foo = 'baz';");
    assert_eq!(dry.errors, 0);
    assert_eq!(dry.skipped_suggested_fixes, 0);
    let still = FileGuard { content: dry.code.clone(), model: dry.model }
        .pull_diagnostics(RuleCategories::lint(), u64::MAX, false)
        .unwrap();
    assert_eq!(still.errors, 1);
}

#[test]
fn ineligible_class_leaves_errors_outstanding() {
    let fixed = baz_guard().fix_file(FixMode::UnsafeOnly, false).unwrap();
    assert_eq!(fixed.code, "const foo = 'baz';");
    assert_eq!(fixed.errors, 1);
    assert_eq!(fixed.skipped_suggested_fixes, 0);
}

#[test]
fn overlapping_fix_is_skipped_not_applied_partially() {
    let guard = FileGuard {
        content: "const foo = 'baz';".to_string(),
        model: FileModel {
            analyzable: true,
            declarators: vec![
                declarator(6, 17, Some(true), Some("foo"), Some((12, 17, Some("baz")))),
                declarator(6, 17, Some(true), Some("foo"), Some((14, 18, Some("zap")))),
            ],
        },
    };
    let fixed = guard.fix_file(FixMode::SafeAndUnsafe, false).unwrap();
    assert_eq!(fixed.code, "const foo = 'bar';");
    assert_eq!(fixed.skipped_suggested_fixes, 1);
    assert_eq!(fixed.errors, 1);
}

#[test]
fn fix_out_of_bounds_range_is_skipped() {
    let guard = FileGuard {
        content: "const foo = ".to_string(),
        model: FileModel {
            analyzable: true,
            declarators: vec![declarator(6, 17, Some(true), Some("foo"), Some((12, 17, Some("baz"))))],
        },
    };
    let fixed = guard.fix_file(FixMode::SafeOnly, false).unwrap();
    assert_eq!(fixed.code, "const foo = ");
    assert_eq!(fixed.skipped_suggested_fixes, 1);
    assert_eq!(fixed.errors, 1);
}

#[test]
fn rule_identity_is_stable() {
    let rule = RegisteredRule::EnforceFooBar;
    assert_eq!(rule.name(), "enforceFooBar");
    assert_eq!(rule.version(), "1.3.0");
    assert!(!rule.recommended());
    assert_eq!(rule.category(), RuleCategory::Lint);
    assert_eq!(rule.severity(), Severity::Error);
}
