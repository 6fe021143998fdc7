//! The per-file lint orchestrator: an optional fix pass, a diagnostics
//! pass under the shared quota, and a terminal classification.

use vstd::prelude::*;
use vstd::string::StringExecFns;
use crate::syntax::DeclaratorView;
use crate::syntax::FileModel;
use crate::diagnostics::Diagnostic;
use crate::diagnostics::DiagnosticView;
use crate::diagnostics::diag_views;
use crate::rules::RuleCategories;
use crate::rules::match_count;
use crate::service::FixMode;
use crate::service::fix_code;
use crate::service::fix_fold;
use crate::service::lint_diags;
use crate::service::spec_fix_eligible;
use crate::quota::DiagnosticQuota;
use crate::quota::UNLIMITED_QUOTA;
use crate::workspace::WorkspaceFile;
use crate::workspace::WorkspaceFileView;

verus! {

/// How one invocation was asked to run: which fix class to apply, if any,
/// and whether an interactive review surface consumes the findings.
#[derive(Clone, Copy, Debug)]
pub struct Execution {
    pub fix_mode: Option<FixMode>,
    pub interactive: bool,
}

impl Execution {
    /// An invocation that applies fixes non-interactively is a
    /// check-and-apply run; anything else is a pure check.
    pub open spec fn spec_is_check_apply(self) -> bool {
        self.fix_mode is Some && !self.interactive
    }

    /// The fix class this invocation applies, if any.
    pub fn as_fix_file_mode(&self) -> (r: Option<FixMode>)
        ensures
            r == self.fix_mode,
    {
        self.fix_mode
    }

    /// Whether an interactive review surface consumes the findings.
    pub fn interactive(&self) -> (r: bool)
        ensures
            r == self.interactive,
    {
        self.interactive
    }

    /// Whether this is a check-and-apply run.
    pub fn is_check_apply(&self) -> (r: bool)
        ensures
            r == self.spec_is_check_apply(),
    {
        self.fix_mode.is_some() && !self.interactive
    }
}

/// The stable code an error classification carries; external tooling may
/// parse these, so they never change.
#[derive(Clone, Copy, PartialEq, Eq, Structural, Debug)]
pub enum ApplyErrorKind {
    /// A pure check found errors and applied nothing.
    ErrorsFound,
    /// Errors remain after an apply attempt.
    ErrorsRemainAfterFix,
}

/// The code text of an error classification.
pub open spec fn spec_apply_error_code(k: ApplyErrorKind) -> Seq<char> {
    match k {
        ApplyErrorKind::ErrorsFound => "errors found"@,
        ApplyErrorKind::ErrorsRemainAfterFix => "errors remain after fix"@,
    }
}

impl ApplyErrorKind {
    /// The stable code text of this classification.
    pub fn code(&self) -> (r: String)
        ensures
            r@ == spec_apply_error_code(*self),
    {
        match self {
            ApplyErrorKind::ErrorsFound => String::from_str("errors found"),
            ApplyErrorKind::ErrorsRemainAfterFix => String::from_str("errors remain after fix"),
        }
    }
}

/// The terminal classification of one file: exactly one per file per
/// invocation.
#[derive(Clone, Copy, PartialEq, Eq, Structural, Debug)]
pub enum FileStatus {
    Success,
    ApplyError(ApplyErrorKind),
}

/// The diagnostics-report emitted when a pull found or skipped anything:
/// the findings paired with the exact text revision they were computed
/// from, since ranges are only meaningful against that revision.
#[derive(Debug)]
pub struct DiagnosticsReport {
    pub name: String,
    pub content: String,
    pub diagnostics: Vec<Diagnostic>,
    pub skipped_diagnostics: u64,
}

/// Everything one file's pipeline hands back: the review list for an
/// interactive surface, the informational fixes-skipped note, the
/// diagnostics-report, and the terminal classification.
#[derive(Debug)]
pub struct FileReport {
    pub review_diagnostics: Option<Vec<Diagnostic>>,
    pub skipped_fixes_note: Option<u64>,
    pub diagnostics_report: Option<DiagnosticsReport>,
    pub status: FileStatus,
}

/// Ghost view of a `DiagnosticsReport`.
pub ghost struct DiagnosticsReportView {
    pub name: Seq<char>,
    pub content: Seq<char>,
    pub diagnostics: Seq<DiagnosticView>,
    pub skipped_diagnostics: nat,
}

/// Ghost view of a `FileReport`.
pub ghost struct FileReportView {
    pub review: Option<Seq<DiagnosticView>>,
    pub skipped_fixes_note: Option<nat>,
    pub report: Option<DiagnosticsReportView>,
    pub status: FileStatus,
}

impl View for DiagnosticsReport {
    type V = DiagnosticsReportView;

    open spec fn view(&self) -> DiagnosticsReportView {
        DiagnosticsReportView {
            name: self.name@,
            content: self.content@,
            diagnostics: diag_views(self.diagnostics@),
            skipped_diagnostics: self.skipped_diagnostics as nat,
        }
    }
}

impl View for FileReport {
    type V = FileReportView;

    open spec fn view(&self) -> FileReportView {
        FileReportView {
            review: match self.review_diagnostics {
                Some(v) => Some(diag_views(v@)),
                None => None,
            },
            skipped_fixes_note: match self.skipped_fixes_note {
                Some(v) => Some(v as nat),
                None => None,
            },
            report: match self.diagnostics_report {
                Some(p) => Some(p@),
                None => None,
            },
            status: self.status,
        }
    }
}

/// The fatal failure of one file's pipeline, tagged like every outgoing
/// diagnostic with the file's path and the stable category code.
#[derive(Debug)]
pub struct PipelineError {
    pub path: String,
    pub category: String,
}

/// The text after the fix phase: unchanged unless a non-interactive fix
/// pass ran, in which case it is that pass's output.
pub open spec fn content_after_fix(f: WorkspaceFileView, cfg: Execution) -> Seq<char> {
    match cfg.fix_mode {
        Some(mode) => if cfg.interactive {
            f.content
        } else {
            fix_code(f.decls, f.content, spec_fix_eligible(mode))
        },
        None => f.content,
    }
}

/// The model after the fix phase. The orchestrator refreshes the file only
/// when the fix pass changed the text, so an output equal to the input
/// leaves the model exactly as it was.
pub open spec fn decls_after_fix(f: WorkspaceFileView, cfg: Execution) -> Seq<DeclaratorView> {
    match cfg.fix_mode {
        Some(mode) => if cfg.interactive {
            f.decls
        } else if fix_code(f.decls, f.content, spec_fix_eligible(mode)) != f.content {
            fix_fold(f.decls, f.content, spec_fix_eligible(mode)).decls
        } else {
            f.decls
        },
        None => f.decls,
    }
}

/// The errors the fix phase leaves outstanding: the error-severity matches
/// whose fix was not applied. Zero when no non-interactive fix pass ran.
pub open spec fn fix_phase_errors(f: WorkspaceFileView, cfg: Execution) -> nat {
    match cfg.fix_mode {
        Some(mode) => if cfg.interactive {
            0
        } else {
            fix_fold(f.decls, f.content, spec_fix_eligible(mode)).unapplied
        },
        None => 0,
    }
}

/// The informational fixes-skipped note a non-interactive fix pass emits.
pub open spec fn fix_phase_note(f: WorkspaceFileView, cfg: Execution) -> Option<nat> {
    match cfg.fix_mode {
        Some(mode) => if cfg.interactive {
            None
        } else {
            Some(fix_fold(f.decls, f.content, spec_fix_eligible(mode)).skipped)
        },
        None => None,
    }
}

/// The uncapped, fixes-annotated findings handed to an interactive review
/// surface; nothing is persisted by that hand-off.
pub open spec fn review_list(f: WorkspaceFileView, cfg: Execution) -> Option<Seq<DiagnosticView>> {
    if cfg.fix_mode is Some && cfg.interactive {
        Some(lint_diags(f.decls, UNLIMITED_QUOTA as nat, true))
    } else {
        None
    }
}

/// The classification law: no outstanding errors is success; otherwise the
/// code says whether this was a pure check or an apply attempt.
pub open spec fn classify(total_errors: nat, check_apply: bool) -> FileStatus {
    if total_errors == 0 {
        FileStatus::Success
    } else if check_apply {
        FileStatus::ApplyError(ApplyErrorKind::ErrorsRemainAfterFix)
    } else {
        FileStatus::ApplyError(ApplyErrorKind::ErrorsFound)
    }
}

/// Everything the pipeline reports for one analyzable file, as a function
/// of the file, the invocation and the quota snapshot `q`.
pub open spec fn lint_report_spec(f: WorkspaceFileView, cfg: Execution, q: u64) -> FileReportView {
    let decls1 = decls_after_fix(f, cfg);
    let diags = lint_diags(decls1, q as nat, false);
    let total_matches = match_count(decls1);
    let skipped = (total_matches - diags.len()) as nat;
    FileReportView {
        review: review_list(f, cfg),
        skipped_fixes_note: fix_phase_note(f, cfg),
        report: if diags.len() == 0 && skipped == 0 {
            None
        } else {
            Some(DiagnosticsReportView {
                name: f.path,
                content: content_after_fix(f, cfg),
                diagnostics: diags,
                skipped_diagnostics: skipped,
            })
        },
        status: classify(fix_phase_errors(f, cfg) + total_matches, cfg.spec_is_check_apply()),
    }
}

/// The file as the pipeline leaves it: the fix phase's revision, under the
/// unchanged path.
pub open spec fn lint_final_file_spec(f: WorkspaceFileView, cfg: Execution) -> WorkspaceFileView {
    WorkspaceFileView {
        path: f.path,
        content: content_after_fix(f, cfg),
        analyzable: f.analyzable,
        decls: decls_after_fix(f, cfg),
    }
}

/// The per-file pipeline over an already opened file: an optional fix pass
/// (interactive runs only compute and hand the findings out), then a
/// diagnostics pass capped by the quota snapshot, then the classification.
/// The only failure is the structural one, tagged with the file's path and
/// the stable `lint` category code; it leaves the file untouched.
pub fn lint_with_guard(cfg: &Execution, quota: &DiagnosticQuota, file: &mut WorkspaceFile) -> (r: Result<FileReport, PipelineError>)
    ensures
        r is Ok <==> old(file)@.analyzable,
        r matches Ok(res) ==> res@ == lint_report_spec(old(file)@, *cfg, quota.limit),
        r is Ok ==> final(file)@ == lint_final_file_spec(old(file)@, *cfg),
        r matches Err(e) ==> final(file)@ == old(file)@ && e.path@ == old(file)@.path && e.category@ == "lint"@,
{
    let ghost f0 = file@;
    let mut fix_errors: u64 = 0;
    let mut input = file.input();
    let mut review: Option<Vec<Diagnostic>> = None;
    let mut skipped_fixes_note: Option<u64> = None;
    match cfg.as_fix_file_mode() {
        Some(fix_mode) => {
            if cfg.interactive() {
                let pulled = match file.guard().pull_diagnostics(RuleCategories::lint(), UNLIMITED_QUOTA, true) {
                    Ok(p) => p,
                    Err(_) => {
                        return Err(PipelineError {
                            path: file.path.clone(),
                            category: String::from_str("lint"),
                        });
                    },
                };
                review = Some(pulled.diagnostics);
            } else {
                let fixed = match file.guard().fix_file(fix_mode, false) {
                    Ok(x) => x,
                    Err(_) => {
                        return Err(PipelineError {
                            path: file.path.clone(),
                            category: String::from_str("lint"),
                        });
                    },
                };
                skipped_fixes_note = Some(fixed.skipped_suggested_fixes);
                fix_errors = fixed.errors;
                if !(fixed.code == input) {
                    file.update_file(fixed.code, fixed.model);
                    input = file.input();
                }
            }
        },
        None => {},
    }
    let max_diagnostics = quota.snapshot();
    let pulled = match file.guard().pull_diagnostics(RuleCategories::lint(), max_diagnostics, false) {
        Ok(p) => p,
        Err(_) => {
            return Err(PipelineError {
                path: file.path.clone(),
                category: String::from_str("lint"),
            });
        },
    };
    let no_diagnostics = pulled.diagnostics.is_empty() && pulled.skipped_diagnostics == 0;
    let any_errors = fix_errors > 0 || pulled.errors > 0;
    let diagnostics_report = if no_diagnostics {
        None
    } else {
        Some(DiagnosticsReport {
            name: file.path.clone(),
            content: input,
            diagnostics: pulled.diagnostics,
            skipped_diagnostics: pulled.skipped_diagnostics,
        })
    };
    let status = if any_errors {
        if cfg.is_check_apply() {
            FileStatus::ApplyError(ApplyErrorKind::ErrorsRemainAfterFix)
        } else {
            FileStatus::ApplyError(ApplyErrorKind::ErrorsFound)
        }
    } else {
        FileStatus::Success
    };
    Ok(FileReport {
        review_diagnostics: review,
        skipped_fixes_note,
        diagnostics_report,
        status,
    })
}

/// Opens one file from the plain values its collaborators supply — path,
/// text and parsed model — runs the pipeline on it, and hands back the
/// report together with the file as the pipeline left it, for the storage
/// layer to persist.
pub fn lint(cfg: &Execution, quota: &DiagnosticQuota, path: String, content: String, model: FileModel) -> (r: Result<(FileReport, WorkspaceFile), PipelineError>)
    ensures
        ({
            let f0 = WorkspaceFileView {
                path: path@,
                content: content@,
                analyzable: model@.analyzable,
                decls: model@.decls,
            };
            &&& r is Ok <==> model@.analyzable
            &&& r matches Ok(p) ==> p.0@ == lint_report_spec(f0, *cfg, quota.limit) && p.1@ == lint_final_file_spec(f0, *cfg)
            &&& r matches Err(e) ==> e.path@ == path@ && e.category@ == "lint"@
        }),
{
    let mut workspace_file = WorkspaceFile::new(path, content, model);
    match lint_with_guard(cfg, quota, &mut workspace_file) {
        Ok(report) => Ok((report, workspace_file)),
        Err(e) => Err(e),
    }
}

} // verus!
