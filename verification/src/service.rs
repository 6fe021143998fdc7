//! The workspace diagnostic service for one file: pull capped diagnostics,
//! and apply suggested fixes in one deterministic pass.

use vstd::prelude::*;
use vstd::string::StrSliceExecFns;
use vstd::string::StringExecFns;
use crate::syntax::Declarator;
use crate::syntax::DeclaratorView;
use crate::syntax::FileModel;
use crate::syntax::Initializer;
use crate::syntax::TextRange;
use crate::syntax::clone_declarator;
use crate::syntax::clone_model;
use crate::syntax::decl_views;
use crate::syntax::lemma_decl_views_push;
use crate::diagnostics::FixResult;
use crate::diagnostics::Diagnostic;
use crate::diagnostics::DiagnosticView;
use crate::diagnostics::PullDiagnosticsResult;
use crate::diagnostics::ServiceError;
use crate::diagnostics::Severity;
use crate::diagnostics::diag_views;
use crate::diagnostics::lemma_diag_views_push;
use crate::rules::RegisteredRule;
use crate::rules::RuleCategories;
use crate::rules::Signal;
use crate::rules::decl_matches;
use crate::rules::diag_of;
use crate::rules::match_count;
use crate::rules::lemma_match_count_le;
use crate::rules::lemma_match_count_push;
use crate::rules::registry;

verus! {

/// The diagnostics one pull materializes, in occurrence order: a diagnostic
/// for each match of the lint rule, as long as fewer than `cap` have been
/// materialized; later matches are only counted as skipped.
pub open spec fn lint_diags(s: Seq<DeclaratorView>, cap: nat, fix_flag: bool) -> Seq<DiagnosticView>
    decreases s.len(),
{
    if s.len() == 0 {
        Seq::<DiagnosticView>::empty()
    } else {
        let prev = lint_diags(s.drop_last(), cap, fix_flag);
        if decl_matches(s.last()) && prev.len() < cap {
            prev.push(diag_of(RegisteredRule::EnforceFooBar, s.last(), fix_flag))
        } else {
            prev
        }
    }
}

/// No more diagnostics are materialized than matches exist, nor than the cap
/// allows.
pub proof fn lemma_lint_diags_len(s: Seq<DeclaratorView>, cap: nat, fix_flag: bool)
    ensures
        lint_diags(s, cap, fix_flag).len() <= match_count(s),
        lint_diags(s, cap, fix_flag).len() <= cap,
    decreases s.len(),
{
    if s.len() > 0 {
        lemma_lint_diags_len(s.drop_last(), cap, fix_flag);
    }
}

/// One more occurrence extends the materialized diagnostics exactly when it
/// matches and the cap is not yet reached.
pub proof fn lemma_lint_diags_push(s: Seq<DeclaratorView>, d: DeclaratorView, cap: nat, fix_flag: bool)
    ensures
        lint_diags(s.push(d), cap, fix_flag) == if decl_matches(d) && lint_diags(s, cap, fix_flag).len() < cap {
            lint_diags(s, cap, fix_flag).push(diag_of(RegisteredRule::EnforceFooBar, d, fix_flag))
        } else {
            lint_diags(s, cap, fix_flag)
        },
{
    assert(s.push(d).drop_last() =~= s);
    assert(s.push(d).last() == d);
}

/// Runs the category filter and the match step of every registered rule on
/// one occurrence: the signal of the first rule that is selected and
/// matches, with the rule that emitted it.
fn rule_signal_for(node: &Declarator, categories: &RuleCategories) -> (r: Option<(RegisteredRule, Signal)>)
    ensures
        r is Some <==> (categories.lint && decl_matches(node@)),
        match r {
            Some(p) => p.0 == RegisteredRule::EnforceFooBar,
            None => true,
        },
{
    let rules = registry();
    let mut found: Option<(RegisteredRule, Signal)> = None;
    let mut ri: usize = 0;
    while ri < rules.len()
        invariant
            rules@ =~= seq![RegisteredRule::EnforceFooBar],
            ri <= rules.len(),
            found is Some <==> (ri >= 1 && categories.lint && decl_matches(node@)),
            match found {
                Some(p) => p.0 == RegisteredRule::EnforceFooBar,
                None => true,
            },
        decreases rules.len() - ri,
    {
        let rule = rules[ri];
        if found.is_none() && categories.contains(rule.category()) {
            match rule.run(node) {
                Some(signal) => {
                    found = Some((rule, signal));
                },
                None => {},
            }
        }
        ri = ri + 1;
    }
    found
}

/// A read-only session on one file's current revision: the text and the
/// tree model the pull and fix operations work against.
#[derive(Debug)]
pub struct FileGuard {
    pub content: String,
    pub model: FileModel,
}

impl FileGuard {
    /// Runs every rule the category filter selects over the file's
    /// occurrences. A diagnostic is built and recorded for each match while
    /// fewer than `max_count` have been materialized; each further match
    /// only increments `skipped_diagnostics`. `errors` tallies the severity
    /// of every emitted signal, whether or not its diagnostic was truncated
    /// by the cap. `apply_suggested_fixes` records, per materialized
    /// diagnostic, that an automatic fix exists, without writing anything.
    /// Fails with the structural error when the tree cannot be analyzed for
    /// a requested category.
    pub fn pull_diagnostics(&self, categories: RuleCategories, max_count: u64, apply_suggested_fixes: bool) -> (r: Result<PullDiagnosticsResult, ServiceError>)
        ensures
            r is Ok <==> (self.model@.analyzable || !categories.spec_requests_any()),
            r is Err ==> (r matches Err(e) && e == ServiceError::Unanalyzable),
            r matches Ok(res) ==> {
                &&& categories.lint ==> diag_views(res.diagnostics@) == lint_diags(self.model@.decls, max_count as nat, apply_suggested_fixes)
                &&& categories.lint ==> res.errors as nat == match_count(self.model@.decls)
                &&& categories.lint ==> res.skipped_diagnostics as nat == match_count(self.model@.decls) - lint_diags(self.model@.decls, max_count as nat, apply_suggested_fixes).len()
                &&& !categories.lint ==> res.diagnostics@.len() == 0 && res.errors == 0 && res.skipped_diagnostics == 0
            },
    {
        if !self.model.analyzable && categories.requests_any() {
            return Err(ServiceError::Unanalyzable);
        }
        let ghost all = self.model@.decls;
        let ghost cap = max_count as nat;
        let mut diagnostics: Vec<Diagnostic> = Vec::new();
        let mut errors: u64 = 0;
        let mut skipped: u64 = 0;
        let mut i: usize = 0;
        let n = self.model.declarators.len();
        proof {
            assert(all.len() == n);
            assert(all.take(0) =~= Seq::<DeclaratorView>::empty());
            assert(diag_views(diagnostics@) =~= Seq::<DiagnosticView>::empty());
        }
        while i < n
            invariant
                n == self.model.declarators.len(),
                all == self.model@.decls,
                all.len() == n,
                cap == max_count as nat,
                i <= n,
                errors as nat == if categories.lint { match_count(all.take(i as int)) } else { 0 },
                categories.lint ==> diag_views(diagnostics@) == lint_diags(all.take(i as int), cap, apply_suggested_fixes),
                !categories.lint ==> diagnostics@.len() == 0,
                skipped as nat == if categories.lint { match_count(all.take(i as int)) - lint_diags(all.take(i as int), cap, apply_suggested_fixes).len() } else { 0 },
            decreases n - i,
        {
            let ghost prefix = all.take(i as int);
            let ghost dv = all[i as int];
            proof {
                assert(all.take(i + 1 as int) =~= prefix.push(dv));
                assert(dv == self.model.declarators@[i as int]@);
                lemma_match_count_push(prefix, dv);
                lemma_lint_diags_push(prefix, dv, cap, apply_suggested_fixes);
                lemma_lint_diags_len(prefix, cap, apply_suggested_fixes);
                lemma_match_count_le(prefix);
                assert(prefix.len() == i);
            }
            let node = &self.model.declarators[i];
            match rule_signal_for(node, &categories) {
                Some((rule, signal)) => {
                    if rule.severity() == Severity::Error {
                        errors = errors + 1;
                    }
                    if (diagnostics.len() as u64) < max_count {
                        let diag = rule.diagnostic(node, &signal, apply_suggested_fixes);
                        let ghost before = diagnostics@;
                        diagnostics.push(diag);
                        proof {
                            lemma_diag_views_push(before, diag);
                        }
                    } else {
                        skipped = skipped + 1;
                    }
                },
                None => {},
            }
            i = i + 1;
        }
        proof {
            assert(all.take(n as int) =~= all);
        }
        Ok(PullDiagnosticsResult { diagnostics, errors, skipped_diagnostics: skipped })
    }
}

/// The fix class a pass may apply: safe fixes only, both classes, or
/// unsafe fixes only.
#[derive(Clone, Copy, PartialEq, Eq, Structural, Debug)]
pub enum FixMode {
    SafeOnly,
    SafeAndUnsafe,
    UnsafeOnly,
}

/// Whether the registered rule's suggested fix — a safe one — is eligible
/// under `mode`.
pub open spec fn spec_fix_eligible(mode: FixMode) -> bool {
    mode != FixMode::UnsafeOnly
}

/// The replacement text the fix writes over a matched initializer's range.
pub open spec fn fix_replacement() -> Seq<char> {
    "'bar'"@
}

/// A matched declarator after its fix was applied: the literal is now the
/// required value, so the rule no longer matches it; recorded ranges keep
/// referring to the revision the model was built from.
pub open spec fn fixed_decl_view(d: DeclaratorView) -> DeclaratorView {
    DeclaratorView {
        range: d.range,
        is_const: d.is_const,
        id: d.id,
        init: match d.init {
            Some(init) => Some(crate::syntax::InitializerView { range: init.range, literal: Some("bar"@) }),
            None => None,
        },
    }
}

/// The state of the fix pass after some prefix of the occurrences: the text
/// rebuilt so far, the cursor past the last consumed range, the counts, and
/// the reconciled occurrences.
pub ghost struct FixState {
    pub out: Seq<char>,
    pub cursor: int,
    pub applied: nat,
    pub skipped: nat,
    pub unapplied: nat,
    pub decls: Seq<DeclaratorView>,
}

/// One step of the fix pass over the occurrence `d`. An eligible fix is
/// applied when its range lies at or after the cursor and inside the text;
/// one that overlaps an already consumed range, or does not fit the text,
/// is skipped and counted, never applied partially. A match whose fix was
/// not applied — skipped or ineligible — keeps its error outstanding.
pub open spec fn fix_step(st: FixState, d: DeclaratorView, content: Seq<char>, eligible: bool) -> FixState {
    if decl_matches(d) && eligible {
        match d.init {
            Some(init) => {
                if st.cursor <= init.range.start && init.range.start <= init.range.end && init.range.end <= content.len() {
                    FixState {
                        out: st.out + content.subrange(st.cursor, init.range.start as int) + fix_replacement(),
                        cursor: init.range.end as int,
                        applied: st.applied + 1,
                        skipped: st.skipped,
                        unapplied: st.unapplied,
                        decls: st.decls.push(fixed_decl_view(d)),
                    }
                } else {
                    FixState {
                        out: st.out,
                        cursor: st.cursor,
                        applied: st.applied,
                        skipped: st.skipped + 1,
                        unapplied: st.unapplied + 1,
                        decls: st.decls.push(d),
                    }
                }
            },
            None => st,
        }
    } else if decl_matches(d) {
        FixState {
            out: st.out,
            cursor: st.cursor,
            applied: st.applied,
            skipped: st.skipped,
            unapplied: st.unapplied + 1,
            decls: st.decls.push(d),
        }
    } else {
        FixState {
            out: st.out,
            cursor: st.cursor,
            applied: st.applied,
            skipped: st.skipped,
            unapplied: st.unapplied,
            decls: st.decls.push(d),
        }
    }
}

/// The fix pass folded over all occurrences, left to right.
pub open spec fn fix_fold(s: Seq<DeclaratorView>, content: Seq<char>, eligible: bool) -> FixState
    decreases s.len(),
{
    if s.len() == 0 {
        FixState {
            out: Seq::<char>::empty(),
            cursor: 0,
            applied: 0,
            skipped: 0,
            unapplied: 0,
            decls: Seq::<DeclaratorView>::empty(),
        }
    } else {
        fix_step(fix_fold(s.drop_last(), content, eligible), s.last(), content, eligible)
    }
}

/// The full text after the fix pass: what was rebuilt, then the untouched
/// tail after the last consumed range.
pub open spec fn fix_code(s: Seq<DeclaratorView>, content: Seq<char>, eligible: bool) -> Seq<char> {
    let st = fix_fold(s, content, eligible);
    st.out + content.subrange(st.cursor, content.len() as int)
}

/// The pass keeps its cursor inside the text, its counts bounded by the
/// number of occurrences, and one reconciled occurrence per occurrence.
pub proof fn lemma_fix_fold_bounds(s: Seq<DeclaratorView>, content: Seq<char>, eligible: bool)
    ensures
        0 <= fix_fold(s, content, eligible).cursor <= content.len(),
        fix_fold(s, content, eligible).skipped <= s.len(),
        fix_fold(s, content, eligible).unapplied <= s.len(),
        fix_fold(s, content, eligible).decls.len() == s.len(),
    decreases s.len(),
{
    if s.len() > 0 {
        lemma_fix_fold_bounds(s.drop_last(), content, eligible);
    }
}

/// Folding one more occurrence is one more step.
pub proof fn lemma_fix_fold_push(s: Seq<DeclaratorView>, d: DeclaratorView, content: Seq<char>, eligible: bool)
    ensures
        fix_fold(s.push(d), content, eligible) == fix_step(fix_fold(s, content, eligible), d, content, eligible),
{
    assert(s.push(d).drop_last() =~= s);
    assert(s.push(d).last() == d);
}

impl FileGuard {
    /// Applies the eligible suggested fixes in one deterministic
    /// left-to-right pass over the file's occurrences. A fix whose range
    /// overlaps one already consumed, or does not fit the text, is skipped
    /// and counted in `skipped_suggested_fixes` rather than applied
    /// partially. `errors` counts the error-severity matches whose fix was
    /// not applied in this pass. With `dry_run` the same counts are
    /// computed, and the returned text and model are the file's own,
    /// untouched. No fixpoint iteration is performed: this is exactly one
    /// pass.
    pub fn fix_file(&self, mode: FixMode, dry_run: bool) -> (r: Result<FixResult, ServiceError>)
        ensures
            r is Ok <==> self.model@.analyzable,
            r is Err ==> (r matches Err(e) && e == ServiceError::Unanalyzable),
            r matches Ok(res) ==> ({
                let st = fix_fold(self.model@.decls, self.content@, spec_fix_eligible(mode));
                &&& res.errors as nat == st.unapplied
                &&& res.skipped_suggested_fixes as nat == st.skipped
                &&& res.model@.analyzable == self.model@.analyzable
                &&& !dry_run ==> res.code@ == fix_code(self.model@.decls, self.content@, spec_fix_eligible(mode))
                &&& !dry_run ==> res.model@.decls == st.decls
                &&& dry_run ==> res.code@ == self.content@ && res.model@ == self.model@
            }),
    {
        if !self.model.analyzable {
            return Err(ServiceError::Unanalyzable);
        }
        let eligible = match mode {
            FixMode::SafeOnly => true,
            FixMode::SafeAndUnsafe => true,
            FixMode::UnsafeOnly => false,
        };
        let ghost all = self.model@.decls;
        let ghost ctext = self.content@;
        let content_len = self.content.as_str().unicode_len();
        let mut out = String::new();
        let mut cursor: usize = 0;
        let mut skipped: u64 = 0;
        let mut unapplied: u64 = 0;
        let mut new_decls: Vec<Declarator> = Vec::new();
        let mut i: usize = 0;
        let n = self.model.declarators.len();
        let lint_only = RuleCategories::lint();
        proof {
            assert(all.take(0) =~= Seq::<DeclaratorView>::empty());
            assert(decl_views(new_decls@) =~= Seq::<DeclaratorView>::empty());
        }
        while i < n
            invariant
                n == self.model.declarators.len(),
                all == self.model@.decls,
                ctext == self.content@,
                all.len() == n,
                i <= n,
                content_len as nat == ctext.len(),
                eligible == spec_fix_eligible(mode),
                lint_only == (RuleCategories { syntax: false, lint: true, action: false }),
                ({
                    let st = fix_fold(all.take(i as int), ctext, eligible);
                    &&& out@ == st.out
                    &&& cursor as int == st.cursor
                    &&& skipped as nat == st.skipped
                    &&& unapplied as nat == st.unapplied
                    &&& decl_views(new_decls@) == st.decls
                }),
            decreases n - i,
        {
            let ghost prefix = all.take(i as int);
            let ghost dv = all[i as int];
            proof {
                assert(all.take(i + 1 as int) =~= prefix.push(dv));
                lemma_fix_fold_push(prefix, dv, ctext, eligible);
                lemma_fix_fold_bounds(prefix, ctext, eligible);
                assert(prefix.len() == i);
                assert(dv == self.model.declarators@[i as int]@);
            }
            let node = &self.model.declarators[i];
            let matched = rule_signal_for(node, &lint_only).is_some();
            if matched && eligible {
                // A matched declarator always carries an initializer.
                let (rs, re) = match &node.init {
                    Some(init) => (init.range.start, init.range.end),
                    None => {
                        proof {
                            assert(false);
                        }
                        (0usize, 0usize)
                    },
                };
                if cursor <= rs && rs <= re && re <= content_len {
                    let chunk = self.content.as_str().substring_char(cursor, rs);
                    out.append(chunk);
                    out.append("'bar'");
                    cursor = re;
                    let fixed = Declarator {
                        range: node.range,
                        is_const: node.is_const,
                        id: match &node.id {
                            Some(s) => Some(s.clone()),
                            None => None,
                        },
                        init: Some(Initializer {
                            range: TextRange { start: rs, end: re },
                            literal: Some(String::from_str("bar")),
                        }),
                    };
                    proof {
                        assert(fixed@ == fixed_decl_view(dv));
                    }
                    let ghost before = new_decls@;
                    new_decls.push(fixed);
                    proof {
                        lemma_decl_views_push(before, fixed);
                    }
                } else {
                    skipped = skipped + 1;
                    unapplied = unapplied + 1;
                    let c = clone_declarator(node);
                    let ghost before = new_decls@;
                    new_decls.push(c);
                    proof {
                        lemma_decl_views_push(before, c);
                    }
                }
            } else {
                if matched {
                    unapplied = unapplied + 1;
                }
                let c = clone_declarator(node);
                let ghost before = new_decls@;
                new_decls.push(c);
                proof {
                    lemma_decl_views_push(before, c);
                }
            }
            i = i + 1;
        }
        proof {
            assert(all.take(n as int) =~= all);
            lemma_fix_fold_bounds(all, ctext, eligible);
        }
        let (code, model) = if dry_run {
            (self.content.clone(), clone_model(&self.model))
        } else {
            let tail = self.content.as_str().substring_char(cursor, content_len);
            out.append(tail);
            (out, FileModel { analyzable: self.model.analyzable, declarators: new_decls })
        };
        Ok(FixResult { code, errors: unapplied, skipped_suggested_fixes: skipped, model })
    }
}

/// A pass that applied nothing left the text untouched: nothing was
/// rebuilt, the cursor never moved, and the full text comes back.
pub proof fn lemma_no_applied_fix_code_unchanged(s: Seq<DeclaratorView>, content: Seq<char>, eligible: bool)
    requires
        fix_fold(s, content, eligible).applied == 0,
    ensures
        fix_code(s, content, eligible) == content,
        fix_fold(s, content, eligible).out == Seq::<char>::empty(),
        fix_fold(s, content, eligible).cursor == 0,
    decreases s.len(),
{
    if s.len() == 0 {
        assert(fix_code(s, content, eligible) =~= content);
    } else {
        let prev = fix_fold(s.drop_last(), content, eligible);
        let st = fix_step(prev, s.last(), content, eligible);
        assert(prev.applied <= st.applied);
        lemma_no_applied_fix_code_unchanged(s.drop_last(), content, eligible);
        assert(st.out == prev.out && st.cursor == prev.cursor);
    }
}

} // verus!
