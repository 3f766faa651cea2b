//! Whitespace and invisible characters in an expression.
use vstd::prelude::*;

use crate::diagnostics::{diag, diag_views, push_diagnostic, DiagView, PluginDiagnostic, Severity};
use crate::syntax::Expr;
use crate::text::{chars_of, is_whitespace, is_ws};

verus! {

pub const WHITESPACE_DETECTED: &'static str = "Whitespace detected.";
pub const INVISIBLE_CHARACTER_DETECTED: &'static str = "Invisible character detected.";

/// Zero-width space, soft hyphen, zero-width non-joiner and joiner, pop
/// directional formatting, and the byte order mark.
pub open spec fn is_invisible(c: char) -> bool {
    c == '\u{200B}' || c == '\u{00AD}' || c == '\u{200C}' || c == '\u{200D}' || c == '\u{202C}'
        || c == '\u{FEFF}'
}

/// What `check_invisible_characters` reports: a warning where the expression's
/// text holds whitespace, then an error where it holds an invisible character.
pub open spec fn invisible_characters(expr: Expr) -> Seq<DiagView> {
    let t = expr.spec_node().text@;
    let id = expr.spec_node().ptr.id;
    (if exists|i: int| 0 <= i < t.len() && is_ws(t[i]) {
        seq![diag(id, WHITESPACE_DETECTED@, Severity::Warning)]
    } else {
        seq![]
    }) + (if exists|i: int| 0 <= i < t.len() && is_invisible(t[i]) {
        seq![diag(id, INVISIBLE_CHARACTER_DETECTED@, Severity::Error)]
    } else {
        seq![]
    })
}

/// Reports whitespace and invisible characters in the text of `expr`.
pub fn check_invisible_characters(expr: &Expr, diagnostics: &mut Vec<PluginDiagnostic>)
    ensures
        diag_views(final(diagnostics)@) == diag_views(old(diagnostics)@) + invisible_characters(*expr),
{
    let node = expr.node();
    let text = chars_of(node.text.as_str());
    let mut any_ws = false;
    let mut any_invisible = false;
    let mut i: usize = 0;
    while i < text.len()
        invariant
            i <= text@.len(),
            any_ws == exists|k: int| 0 <= k < i && is_ws(text@[k]),
            any_invisible == exists|k: int| 0 <= k < i && is_invisible(text@[k]),
        decreases text@.len() - i,
    {
        let c = text[i];
        if is_whitespace(c) {
            any_ws = true;
        }
        if c == '\u{200B}' || c == '\u{00AD}' || c == '\u{200C}' || c == '\u{200D}' || c == '\u{202C}'
            || c == '\u{FEFF}' {
            any_invisible = true;
        }
        i = i + 1;
    }
    if any_ws {
        push_diagnostic(diagnostics, node.ptr.id, WHITESPACE_DETECTED, Severity::Warning);
    }
    if any_invisible {
        push_diagnostic(diagnostics, node.ptr.id, INVISIBLE_CHARACTER_DETECTED, Severity::Error);
    }
    assert(diag_views(diagnostics@) =~= diag_views(old(diagnostics)@) + invisible_characters(*expr));
}

} // verus!
