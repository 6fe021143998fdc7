//! The library-wide laws, proved from the same specifications the
//! executable contracts use.

use vstd::prelude::*;
use crate::syntax::DeclaratorView;
use crate::rules::decl_matches;
use crate::rules::match_count;
use crate::rules::lemma_match_count_push;
use crate::service::FixMode;
use crate::service::FixState;
use crate::service::fix_code;
use crate::service::fix_fold;
use crate::service::fix_step;
use crate::service::fix_replacement;
use crate::service::fixed_decl_view;
use crate::service::lemma_lint_diags_len;
use crate::service::lemma_no_applied_fix_code_unchanged;
use crate::service::lint_diags;
use crate::service::spec_fix_eligible;
use crate::orchestrator::ApplyErrorKind;
use crate::orchestrator::Execution;
use crate::orchestrator::FileStatus;
use crate::orchestrator::classify;
use crate::orchestrator::content_after_fix;
use crate::orchestrator::decls_after_fix;
use crate::orchestrator::fix_phase_errors;
use crate::orchestrator::lint_report_spec;
use crate::workspace::WorkspaceFileView;
use crate::workspace::updated_file;

verus! {

/// A fix pass over occurrences with no match leaves everything untouched:
/// nothing applied, nothing skipped, no outstanding error, the occurrences
/// as they were.
pub proof fn lemma_fix_fold_no_matches(s: Seq<DeclaratorView>, content: Seq<char>, eligible: bool)
    requires
        match_count(s) == 0,
    ensures
        fix_fold(s, content, eligible) == (FixState {
            out: Seq::<char>::empty(),
            cursor: 0,
            applied: 0,
            skipped: 0,
            unapplied: 0,
            decls: s,
        }),
    decreases s.len(),
{
    if s.len() == 0 {
        assert(fix_fold(s, content, eligible).decls =~= s);
    } else {
        assert(match_count(s.drop_last()) == 0);
        lemma_fix_fold_no_matches(s.drop_last(), content, eligible);
        assert(!decl_matches(s.last()));
        assert(fix_fold(s, content, eligible).decls =~= s.drop_last().push(s.last()));
        assert(s.drop_last().push(s.last()) =~= s);
    }
}

/// A fix pass that left no error outstanding left no match behind: every
/// applied occurrence now carries the required literal, and everything
/// else never matched.
pub proof fn lemma_fix_fold_clean_no_matches(s: Seq<DeclaratorView>, content: Seq<char>, eligible: bool)
    requires
        fix_fold(s, content, eligible).unapplied == 0,
    ensures
        match_count(fix_fold(s, content, eligible).decls) == 0,
    decreases s.len(),
{
    if s.len() > 0 {
        let prev = fix_fold(s.drop_last(), content, eligible);
        let st = fix_step(prev, s.last(), content, eligible);
        assert(prev.unapplied <= st.unapplied);
        lemma_fix_fold_clean_no_matches(s.drop_last(), content, eligible);
        if decl_matches(s.last()) && eligible {
            let fixed = fixed_decl_view(s.last());
            assert(!decl_matches(fixed));
            lemma_match_count_push(prev.decls, fixed);
        } else {
            assert(!decl_matches(s.last()));
            lemma_match_count_push(prev.decls, s.last());
        }
    }
}

/// For any file with no rule match, whatever the invocation: the pull
/// materializes nothing and counts nothing, a fix pass changes nothing,
/// and the file classifies as `Success`.
pub proof fn law_no_matches_success(f: WorkspaceFileView, cfg: Execution, q: u64)
    requires
        match_count(f.decls) == 0,
    ensures
        lint_diags(f.decls, q as nat, false).len() == 0,
        lint_report_spec(f, cfg, q).status == FileStatus::Success,
        lint_report_spec(f, cfg, q).report is None,
        content_after_fix(f, cfg) == f.content,
{
    match cfg.fix_mode {
        Some(mode) => {
            if !cfg.interactive {
                let eligible = spec_fix_eligible(mode);
                lemma_fix_fold_no_matches(f.decls, f.content, eligible);
                lemma_no_applied_fix_code_unchanged(f.decls, f.content, eligible);
            }
        },
        None => {},
    }
    assert(decls_after_fix(f, cfg) == f.decls);
    assert(fix_phase_errors(f, cfg) == 0);
    lemma_lint_diags_len(f.decls, q as nat, false);
}

/// With a cap of zero and any number of matches: nothing is materialized,
/// every match is counted as skipped, and the error tally still reflects
/// every match — truncation affects what is returned, never the tally.
pub proof fn law_zero_cap_counts_all(s: Seq<DeclaratorView>, fix_flag: bool)
    ensures
        lint_diags(s, 0, fix_flag).len() == 0,
        match_count(s) - lint_diags(s, 0, fix_flag).len() == match_count(s),
{
    lemma_lint_diags_len(s, 0, fix_flag);
}

/// Applying a fix pass to its own output applies nothing further and
/// returns that output unchanged, whenever the first pass left no error
/// outstanding — every violation in the input was auto-fixable and fixed
/// under the chosen mode. One pass is a fixpoint; no iteration is needed.
pub proof fn law_fix_idempotent(s: Seq<DeclaratorView>, content: Seq<char>, mode: FixMode)
    requires
        fix_fold(s, content, spec_fix_eligible(mode)).unapplied == 0,
    ensures
        ({
            let eligible = spec_fix_eligible(mode);
            let code1 = fix_code(s, content, eligible);
            let decls1 = fix_fold(s, content, eligible).decls;
            &&& fix_fold(decls1, code1, eligible).applied == 0
            &&& fix_fold(decls1, code1, eligible).unapplied == 0
            &&& fix_fold(decls1, code1, eligible).skipped == 0
            &&& fix_code(decls1, code1, eligible) == code1
        }),
{
    let eligible = spec_fix_eligible(mode);
    let code1 = fix_code(s, content, eligible);
    let decls1 = fix_fold(s, content, eligible).decls;
    lemma_fix_fold_clean_no_matches(s, content, eligible);
    lemma_fix_fold_no_matches(decls1, code1, eligible);
    lemma_no_applied_fix_code_unchanged(decls1, code1, eligible);
}

/// A literal as it stands in the text: the value between its quotes.
pub open spec fn quoted(lit: Seq<char>) -> Seq<char> {
    seq!['\''] + lit + seq!['\'']
}

/// What the parser collaborator guarantees of a matched occurrence: its
/// initializer range holds exactly the recorded literal between quotes,
/// inside the text, and the literal contains no quote of its own.
pub open spec fn literal_consistent(d: DeclaratorView, content: Seq<char>) -> bool {
    match d.init {
        Some(init) => match init.literal {
            Some(lit) => {
                &&& init.range.end == init.range.start + 2 + lit.len()
                &&& init.range.end <= content.len()
                &&& content.subrange(init.range.start as int, init.range.end as int) == quoted(lit)
                &&& forall|k: int| 0 <= k < lit.len() ==> lit[k] != '\''
            },
            None => true,
        },
        None => true,
    }
}

/// Whether a model agrees with the text it was parsed from, as far as the
/// fix pass reads it.
pub open spec fn model_reflects_content(s: Seq<DeclaratorView>, content: Seq<char>) -> bool {
    forall|i: int| 0 <= i < s.len() && decl_matches(#[trigger] s[i]) ==> literal_consistent(s[i], content)
}

/// Once a fix has been applied, the rebuilt text differs from the original
/// at some fixed position, and later steps never touch it again.
proof fn lemma_applied_fix_leaves_mismatch(s: Seq<DeclaratorView>, content: Seq<char>, eligible: bool)
    requires
        model_reflects_content(s, content),
        fix_fold(s, content, eligible).applied > 0,
    ensures
        exists|j: int| 0 <= j < fix_fold(s, content, eligible).out.len() && j < content.len()
            && fix_fold(s, content, eligible).out[j] != content[j],
    decreases s.len(),
{
    let st = fix_fold(s, content, eligible);
    let prev = fix_fold(s.drop_last(), content, eligible);
    assert(s.len() > 0);
    assert(forall|i: int| 0 <= i < s.len() - 1 ==> #[trigger] s.drop_last()[i] == s[i]);
    assert(model_reflects_content(s.drop_last(), content));
    if prev.applied > 0 {
        lemma_applied_fix_leaves_mismatch(s.drop_last(), content, eligible);
        let j = choose|j: int| 0 <= j < prev.out.len() && j < content.len() && prev.out[j] != content[j];
        assert(st.out[j] == prev.out[j]);
        assert(0 <= j < st.out.len() && j < content.len() && st.out[j] != content[j]);
    } else {
        lemma_no_applied_fix_code_unchanged(s.drop_last(), content, eligible);
        let d = s.last();
        assert(s[s.len() - 1] == d);
        assert(decl_matches(d));
        assert(literal_consistent(d, content));
        match d.init {
            Some(init) => {
                match init.literal {
                    Some(lit) => {
                        let s1 = init.range.start as int;
                        let e1 = init.range.end as int;
                        assert(prev.cursor <= s1 && s1 <= e1 && e1 <= content.len());
                        assert(st.out == content.subrange(0, s1) + fix_replacement());
                        reveal_strlit("'bar'");
                        reveal_strlit("bar");
                        assert(fix_replacement().len() == 5);
                        assert(content.subrange(s1, e1) == quoted(lit));
                        if lit.len() == 3 {
                            assert(lit != "bar"@);
                            assert(lit.len() == "bar"@.len());
                            assert(exists|i: int| 0 <= i < 3 && lit[i] != "bar"@[i]) by {
                                if forall|i: int| 0 <= i < 3 ==> #[trigger] lit[i] == "bar"@[i] {
                                    assert(lit =~= "bar"@);
                                }
                            }
                            let i = choose|i: int| 0 <= i < 3 && lit[i] != "bar"@[i];
                            let j = s1 + 1 + i;
                            assert(st.out[j] == fix_replacement()[1 + i]);
                            assert(fix_replacement()[1 + i] == "bar"@[i]);
                            assert(content[j] == quoted(lit)[1 + i]);
                            assert(quoted(lit)[1 + i] == lit[i]);
                            assert(0 <= j < st.out.len() && j < content.len() && st.out[j] != content[j]);
                        } else if lit.len() < 3 {
                            let j = e1 - 1;
                            assert(content[j] == quoted(lit)[j - s1]);
                            assert(quoted(lit)[j - s1] == '\'');
                            assert(st.out[j] == fix_replacement()[j - s1]);
                            assert(1 <= j - s1 < 4);
                            assert(fix_replacement()[j - s1] != '\'');
                            assert(0 <= j < st.out.len() && j < content.len() && st.out[j] != content[j]);
                        } else {
                            let j = s1 + 4;
                            assert(j < e1);
                            assert(st.out[j] == fix_replacement()[4]);
                            assert(fix_replacement()[4] == '\'');
                            assert(content[j] == quoted(lit)[4]);
                            assert(quoted(lit)[4] == lit[3]);
                            assert(lit[3] != '\'');
                            assert(0 <= j < st.out.len() && j < content.len() && st.out[j] != content[j]);
                        }
                    },
                    None => {
                        assert(false);
                    },
                }
            },
            None => {
                assert(false);
            },
        }
    }
}

/// The converse of the untouched-text lemma, under the parser guarantee:
/// a pass that applied at least one fix returns a text that differs from
/// its input. Together they give: the code equals the input exactly when
/// no eligible fix was applied.
pub proof fn law_applied_fix_changes_code(s: Seq<DeclaratorView>, content: Seq<char>, eligible: bool)
    requires
        model_reflects_content(s, content),
        fix_fold(s, content, eligible).applied > 0,
    ensures
        fix_code(s, content, eligible) != content,
{
    lemma_applied_fix_leaves_mismatch(s, content, eligible);
    let st = fix_fold(s, content, eligible);
    let j = choose|j: int| 0 <= j < st.out.len() && j < content.len() && st.out[j] != content[j];
    assert(fix_code(s, content, eligible)[j] == st.out[j]);
    if fix_code(s, content, eligible) == content {
        assert(content[j] == st.out[j]);
        assert(false);
    }
}

/// Updating a file to a text and reading it back returns exactly that
/// text, whatever model came with it.
pub proof fn law_update_then_input(f: WorkspaceFileView, text: Seq<char>, analyzable: bool, decls: Seq<DeclaratorView>)
    ensures
        updated_file(f, text, analyzable, decls).content == text,
        updated_file(f, text, analyzable, decls).path == f.path,
{
}

/// The classification law: no error means `Success`; errors in a pure
/// check classify as "errors found"; errors in a check-and-apply run
/// classify as "errors remain after fix".
pub proof fn law_classification(total_errors: nat, check_apply: bool)
    ensures
        total_errors == 0 ==> classify(total_errors, check_apply) == FileStatus::Success,
        total_errors > 0 && !check_apply ==> classify(total_errors, check_apply) == FileStatus::ApplyError(ApplyErrorKind::ErrorsFound),
        total_errors > 0 && check_apply ==> classify(total_errors, check_apply) == FileStatus::ApplyError(ApplyErrorKind::ErrorsRemainAfterFix),
{
}

} // verus!
