//! The rule contract and the registry of checks.
//!
//! Every check declares a stable identity (name, category, recommended flag,
//! introduced-version), a query shape, a match step that turns one occurrence
//! into zero-or-one signals through a chain of fallible lookups, and a
//! lazily-invoked diagnostic builder that runs only for signals that survive
//! quota filtering. Rules are read-only and deterministic: identical input
//! always yields identical matches.

use vstd::prelude::*;
use vstd::string::StringExecFns;
use crate::syntax::Declarator;
use crate::syntax::DeclaratorView;
use crate::diagnostics::Diagnostic;
use crate::diagnostics::DiagnosticView;
use crate::diagnostics::Severity;

verus! {

/// The concern a rule serves; a pull names the concerns it wants run.
#[derive(Clone, Copy, PartialEq, Eq, Structural, Debug)]
pub enum RuleCategory {
    Syntax,
    Lint,
    Action,
}

/// The set of concerns one pull requests. The filter intersects this with
/// each rule's declared category, so one traversal serves several concerns
/// without a rule leaking across them.
#[derive(Clone, Copy, PartialEq, Eq, Structural, Debug)]
pub struct RuleCategories {
    pub syntax: bool,
    pub lint: bool,
    pub action: bool,
}

impl RuleCategories {
    /// The selector that runs the lint rules alone.
    pub fn lint() -> (r: RuleCategories)
        ensures
            r == (RuleCategories { syntax: false, lint: true, action: false }),
    {
        RuleCategories { syntax: false, lint: true, action: false }
    }

    /// Whether a rule of category `c` is selected.
    pub open spec fn spec_contains(self, c: RuleCategory) -> bool {
        match c {
            RuleCategory::Syntax => self.syntax,
            RuleCategory::Lint => self.lint,
            RuleCategory::Action => self.action,
        }
    }

    /// Whether a rule of category `c` is selected.
    pub fn contains(&self, c: RuleCategory) -> (r: bool)
        ensures
            r == self.spec_contains(c),
    {
        match c {
            RuleCategory::Syntax => self.syntax,
            RuleCategory::Lint => self.lint,
            RuleCategory::Action => self.action,
        }
    }

    /// Whether any concern at all is requested.
    pub open spec fn spec_requests_any(self) -> bool {
        self.syntax || self.lint || self.action
    }

    /// Whether any concern at all is requested.
    pub fn requests_any(&self) -> (r: bool)
        ensures
            r == self.spec_requests_any(),
    {
        self.syntax || self.lint || self.action
    }
}

/// An opaque match state emitted by a rule for one occurrence: created
/// during a single pull, discarded after diagnostic construction.
pub struct Signal {}

/// The registry of checks, keyed by stable identity. Each variant is one
/// independently-authored rule behind the shared execution protocol.
#[derive(Clone, Copy, PartialEq, Eq, Structural, Debug)]
pub enum RegisteredRule {
    /// Requires a `const`-declared `foo` to be initialized to the literal
    /// `'bar'`.
    EnforceFooBar,
}

/// The match predicate of `EnforceFooBar` over one occurrence: the ancestor
/// lookup found a `const` declaration, the identifier lookup found `foo`,
/// and the initializer is a literal whose static value is not `bar`. A
/// failed lookup anywhere in the chain means no violation.
pub open spec fn decl_matches(d: DeclaratorView) -> bool {
    match (d.is_const, d.id, d.init) {
        (Some(is_const), Some(id), Some(init)) => {
            is_const && id == "foo"@ && match init.literal {
                Some(lit) => lit != "bar"@,
                None => false,
            }
        },
        _ => false,
    }
}

/// Whether `rule` emits a signal for the occurrence `d`.
pub open spec fn rule_matches(rule: RegisteredRule, d: DeclaratorView) -> bool {
    match rule {
        RegisteredRule::EnforceFooBar => decl_matches(d),
    }
}

/// The severity every diagnostic of `rule` carries.
pub open spec fn rule_severity(rule: RegisteredRule) -> Severity {
    match rule {
        RegisteredRule::EnforceFooBar => Severity::Error,
    }
}

/// The diagnostic `rule` builds for a matched occurrence `d`;
/// `fix_available` is what the pull recorded about an automatic fix.
pub open spec fn diag_of(rule: RegisteredRule, d: DeclaratorView, fix_available: bool) -> DiagnosticView {
    DiagnosticView {
        category: "lint/nursery/enforceFooBar"@,
        severity: rule_severity(rule),
        message: "Variable is read here."@,
        note: Some("This note will give you more information."@),
        range: d.range,
        fix_available: fix_available,
    }
}

/// The match step of `EnforceFooBar`: an ordered chain of fallible lookups,
/// each failure yielding "no violation" for this occurrence — never an
/// error, never a crash.
fn enforce_foo_bar_run(node: &Declarator) -> (r: Option<Signal>)
    ensures
        r is Some <==> decl_matches(node@),
{
    let is_const = match &node.is_const {
        Some(b) => *b,
        None => {
            return None;
        },
    };
    if !is_const {
        return None;
    }
    let id = match &node.id {
        Some(s) => s,
        None => {
            return None;
        },
    };
    let foo = String::from_str("foo");
    if !(*id == foo) {
        return None;
    }
    let init = match &node.init {
        Some(i) => i,
        None => {
            return None;
        },
    };
    let literal = match &init.literal {
        Some(l) => l,
        None => {
            return None;
        },
    };
    let bar = String::from_str("bar");
    if *literal == bar {
        return None;
    }
    Some(Signal {})
}

impl RegisteredRule {
    /// The rule's stable name, used for registration and suppression.
    pub fn name(&self) -> (r: String)
        ensures
            r@ == "enforceFooBar"@,
    {
        String::from_str("enforceFooBar")
    }

    /// The release that introduced the rule.
    pub fn version(&self) -> (r: String)
        ensures
            r@ == "1.3.0"@,
    {
        String::from_str("1.3.0")
    }

    /// Whether the rule is part of the recommended set.
    pub fn recommended(&self) -> (r: bool)
        ensures
            r == false,
    {
        false
    }

    /// The one concern this rule serves.
    pub fn category(&self) -> (r: RuleCategory)
        ensures
            r == RuleCategory::Lint,
    {
        RuleCategory::Lint
    }

    /// The severity of every diagnostic this rule builds, readable without
    /// building the diagnostic, so the error tally never depends on the cap.
    pub fn severity(&self) -> (r: Severity)
        ensures
            r == rule_severity(*self),
    {
        Severity::Error
    }

    /// The match step: zero-or-one signals for one occurrence.
    pub fn run(&self, node: &Declarator) -> (r: Option<Signal>)
        ensures
            r is Some <==> rule_matches(*self, node@),
    {
        match self {
            RegisteredRule::EnforceFooBar => enforce_foo_bar_run(node),
        }
    }

    /// The diagnostic builder, invoked only for signals that survived the
    /// pull's cap; expensive message construction is never wasted on
    /// truncated matches.
    pub fn diagnostic(&self, node: &Declarator, _signal: &Signal, fix_available: bool) -> (r: Diagnostic)
        ensures
            r@ == diag_of(*self, node@, fix_available),
    {
        Diagnostic {
            category: String::from_str("lint/nursery/enforceFooBar"),
            severity: self.severity(),
            message: String::from_str("Variable is read here."),
            note: Some(String::from_str("This note will give you more information.")),
            range: node.range,
            fix_available: fix_available,
        }
    }
}

/// Every registered rule, in registration order.
pub fn registry() -> (r: Vec<RegisteredRule>)
    ensures
        r@ =~= seq![RegisteredRule::EnforceFooBar],
{
    let mut v: Vec<RegisteredRule> = Vec::new();
    v.push(RegisteredRule::EnforceFooBar);
    v
}

/// How many occurrences of `s` the lint rule matches.
pub open spec fn match_count(s: Seq<DeclaratorView>) -> nat
    decreases s.len(),
{
    if s.len() == 0 {
        0
    } else {
        match_count(s.drop_last()) + if decl_matches(s.last()) { 1nat } else { 0nat }
    }
}

/// The match count never exceeds the number of occurrences.
pub proof fn lemma_match_count_le(s: Seq<DeclaratorView>)
    ensures
        match_count(s) <= s.len(),
    decreases s.len(),
{
    if s.len() > 0 {
        lemma_match_count_le(s.drop_last());
    }
}

/// Extending the occurrences by one extends the match count by the one
/// occurrence's contribution.
pub proof fn lemma_match_count_push(s: Seq<DeclaratorView>, d: DeclaratorView)
    ensures
        match_count(s.push(d)) == match_count(s) + if decl_matches(d) { 1nat } else { 0nat },
{
    assert(s.push(d).drop_last() =~= s);
    assert(s.push(d).last() == d);
}

} // verus!
