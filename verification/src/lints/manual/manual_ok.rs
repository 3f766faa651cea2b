//! Hand-written `ok` on a `Result`.
use vstd::prelude::*;

use crate::diagnostics::{diag_views, PluginDiagnostic};
use crate::lints::manual::{
    manual_if_diags,
    manual_match_diags,
    report_manual,
    report_manual_if,
    ManualLint,
};
use crate::semantic::{Arenas, Expr, ExprIf, ExprMatch};

verus! {

pub const MANUAL_OK: &'static str = "Manual match for `ok` detected. Consider using `ok()` instead";

pub const LINT_NAME: &'static str = "manual_ok";

/// Reports a `match` that writes out `ok`, unless `manual_ok` is allowed on an
/// ancestor.
pub fn check_manual_ok(expr_match: &ExprMatch, arenas: &Arenas, diagnostics: &mut Vec<PluginDiagnostic>)
    requires
        arenas.wf(),
        arenas.fits(Expr::Match(*expr_match)),
    ensures
        diag_views(final(diagnostics)@) == diag_views(old(diagnostics)@) + manual_match_diags(*arenas, *expr_match, ManualLint::ManualOk, LINT_NAME@, MANUAL_OK@),
{
    report_manual(expr_match, arenas, ManualLint::ManualOk, LINT_NAME, MANUAL_OK, diagnostics);
}

/// Reports an `if let` that writes out `ok`, unless `manual_ok` is allowed on an
/// ancestor.
pub fn check_manual_if_ok(expr_if: &ExprIf, arenas: &Arenas, diagnostics: &mut Vec<PluginDiagnostic>)
    requires
        arenas.wf(),
        arenas.fits(Expr::If(*expr_if)),
    ensures
        diag_views(final(diagnostics)@) == diag_views(old(diagnostics)@) + manual_if_diags(*arenas, *expr_if, ManualLint::ManualOk, LINT_NAME@, MANUAL_OK@),
{
    report_manual_if(expr_if, arenas, ManualLint::ManualOk, LINT_NAME, MANUAL_OK, diagnostics);
}

} // verus!
