//! Structured findings and the result records of the two service operations.

use vstd::prelude::*;
use crate::syntax::TextRange;
use crate::syntax::FileModel;

verus! {

/// How serious a finding is. Only `Error` findings count towards the
/// per-file error tally that drives classification.
#[derive(Clone, Copy, PartialEq, Eq, Structural, Debug)]
pub enum Severity {
    Hint,
    Information,
    Warning,
    Error,
}

/// A structured finding: category code, severity, message, optional note and
/// the source range it was computed for. Immutable once built, and always
/// traceable to the rule that produced it through the category code.
#[derive(Debug)]
pub struct Diagnostic {
    pub category: String,
    pub severity: Severity,
    pub message: String,
    pub note: Option<String>,
    pub range: TextRange,
    /// Whether an automatic fix exists for this finding. Computed only when
    /// a pull asks for it; never applied by the pull itself.
    pub fix_available: bool,
}

/// Ghost view of a `Diagnostic`.
pub ghost struct DiagnosticView {
    pub category: Seq<char>,
    pub severity: Severity,
    pub message: Seq<char>,
    pub note: Option<Seq<char>>,
    pub range: TextRange,
    pub fix_available: bool,
}

impl View for Diagnostic {
    type V = DiagnosticView;

    open spec fn view(&self) -> DiagnosticView {
        DiagnosticView {
            category: self.category@,
            severity: self.severity,
            message: self.message@,
            note: match self.note {
                Some(n) => Some(n@),
                None => None,
            },
            range: self.range,
            fix_available: self.fix_available,
        }
    }
}

/// The views of a sequence of diagnostics, elementwise.
pub open spec fn diag_views(s: Seq<Diagnostic>) -> Seq<DiagnosticView> {
    s.map_values(|d: Diagnostic| d@)
}

/// Pushing a diagnostic pushes its view.
pub proof fn lemma_diag_views_push(s: Seq<Diagnostic>, d: Diagnostic)
    ensures
        diag_views(s.push(d)) =~= diag_views(s).push(d@),
{
}

/// What one diagnostic pull returns. `skipped_diagnostics` counts matches
/// that exceeded the pull's cap and were never materialized into
/// `diagnostics`; they are counted, never silently dropped.
#[derive(Debug)]
pub struct PullDiagnosticsResult {
    pub diagnostics: Vec<Diagnostic>,
    pub errors: u64,
    pub skipped_diagnostics: u64,
}

/// What one fix pass returns. `code` is the full text after the pass;
/// `skipped_suggested_fixes` counts eligible fixes that were skipped because
/// their range overlapped one already consumed, or did not fit the text.
/// `model` is the declarator model reconciled with `code`: an applied
/// declarator's literal is the replacement value, so it no longer matches;
/// recorded source ranges still refer to the revision the model was built
/// from, and a caller that needs post-fix ranges re-derives the model from
/// `code` through the parser collaborator.
#[derive(Debug)]
pub struct FixResult {
    pub code: String,
    pub errors: u64,
    pub skipped_suggested_fixes: u64,
    pub model: FileModel,
}

/// The failure of a pull or fix operation: the tree cannot be analyzed for a
/// requested category. A structural condition, not a transport-level error;
/// rule-internal lookup failures never surface here.
#[derive(Clone, Copy, PartialEq, Eq, Structural, Debug)]
pub enum ServiceError {
    Unanalyzable,
}

} // verus!
