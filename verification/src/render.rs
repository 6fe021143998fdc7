//! Rendering a diagnostic as plain text, for a terminal or a log.

use vstd::prelude::*;
use vstd::string::StrSliceExecFns;
use vstd::string::StringExecFns;
use crate::diagnostics::Diagnostic;
use crate::diagnostics::DiagnosticView;
use crate::diagnostics::Severity;

verus! {

/// The single decimal digit `d` as text.
pub open spec fn dec_digit(d: nat) -> Seq<char> {
    if d == 0 {
        "0"@
    } else if d == 1 {
        "1"@
    } else if d == 2 {
        "2"@
    } else if d == 3 {
        "3"@
    } else if d == 4 {
        "4"@
    } else if d == 5 {
        "5"@
    } else if d == 6 {
        "6"@
    } else if d == 7 {
        "7"@
    } else if d == 8 {
        "8"@
    } else {
        "9"@
    }
}

/// `n` in decimal, most significant digit first, no leading zeros.
pub open spec fn dec_str(n: nat) -> Seq<char>
    decreases n,
{
    if n < 10 {
        dec_digit(n)
    } else {
        dec_str(n / 10) + dec_digit(n % 10)
    }
}

/// The single decimal digit `d` as text.
fn digit_str(d: usize) -> (r: &'static str)
    requires
        d < 10,
    ensures
        r@ == dec_digit(d as nat),
{
    if d == 0 {
        "0"
    } else if d == 1 {
        "1"
    } else if d == 2 {
        "2"
    } else if d == 3 {
        "3"
    } else if d == 4 {
        "4"
    } else if d == 5 {
        "5"
    } else if d == 6 {
        "6"
    } else if d == 7 {
        "7"
    } else if d == 8 {
        "8"
    } else {
        "9"
    }
}

/// Formats `n` in decimal.
pub fn dec_string(n: usize) -> (r: String)
    ensures
        r@ == dec_str(n as nat),
    decreases n,
{
    if n < 10 {
        String::from_str(digit_str(n))
    } else {
        proof {
            assert(n / 10 < n) by (nonlinear_arith)
                requires
                    n >= 10,
            ;
        }
        let mut s = dec_string(n / 10);
        s.append(digit_str(n % 10));
        s
    }
}

/// The word a severity prints as.
pub open spec fn severity_text(s: Severity) -> Seq<char> {
    match s {
        Severity::Hint => "hint"@,
        Severity::Information => "information"@,
        Severity::Warning => "warning"@,
        Severity::Error => "error"@,
    }
}

/// The word a severity prints as.
pub fn severity_str(s: &Severity) -> (r: &'static str)
    ensures
        r@ == severity_text(*s),
{
    match s {
        Severity::Hint => "hint",
        Severity::Information => "information",
        Severity::Warning => "warning",
        Severity::Error => "error",
    }
}

/// The full rendering of one diagnostic against the file `name` and the
/// text `source` it was computed from: position, severity, category code,
/// message, then the note and the matched excerpt when they exist. The
/// excerpt appears only when the range fits `source`.
pub open spec fn render_diagnostic(name: Seq<char>, source: Seq<char>, d: DiagnosticView) -> Seq<char> {
    name + ":"@ + dec_str(d.range.start as nat) + ".."@ + dec_str(d.range.end as nat) + " "@
        + severity_text(d.severity) + "["@ + d.category + "]: "@ + d.message + (match d.note {
        Some(n) => "\n  note: "@ + n,
        None => Seq::<char>::empty(),
    }) + if d.range.start <= d.range.end && d.range.end <= source.len() {
        "\n  --> "@ + source.subrange(d.range.start as int, d.range.end as int)
    } else {
        Seq::<char>::empty()
    }
}

/// Renders one diagnostic as plain text, against the path it came from and
/// the exact text revision its range was computed for.
pub fn diagnostic_to_string(name: &str, source: &str, diag: &Diagnostic) -> (r: String)
    ensures
        r@ == render_diagnostic(name@, source@, diag@),
{
    let mut text = String::from_str(name);
    text.append(":");
    let start_text = dec_string(diag.range.start);
    text.append(start_text.as_str());
    text.append("..");
    let end_text = dec_string(diag.range.end);
    text.append(end_text.as_str());
    text.append(" ");
    text.append(severity_str(&diag.severity));
    text.append("[");
    text.append(diag.category.as_str());
    text.append("]: ");
    text.append(diag.message.as_str());
    match &diag.note {
        Some(n) => {
            text.append("\n  note: ");
            text.append(n.as_str());
        },
        None => {},
    }
    let source_len = source.unicode_len();
    if diag.range.start <= diag.range.end && diag.range.end <= source_len {
        text.append("\n  --> ");
        let excerpt = source.substring_char(diag.range.start, diag.range.end);
        text.append(excerpt);
    }
    text
}

} // verus!
