//! Hand-written `ok_or` on an `Option`.
use vstd::prelude::*;

use crate::diagnostics::{diag_views, PluginDiagnostic};
use crate::lints::manual::{
    manual_if_diags,
    manual_match_diags,
    report_manual,
    report_manual_if,
    ManualLint,
};
use crate::semantic::{Arenas, Expr, ExprIf, ExprMatch};

verus! {

pub const MANUAL_OK_OR: &'static str = "Manual match for Option<T> detected. Consider using ok_or instead";

pub const LINT_NAME: &'static str = "manual_ok_or";

/// Reports a `match` that writes out `ok_or`, unless `manual_ok_or` is allowed
/// on an ancestor.
pub fn check_manual_ok_or(arenas: &Arenas, expr_match: &ExprMatch, diagnostics: &mut Vec<PluginDiagnostic>)
    requires
        arenas.wf(),
        arenas.fits(Expr::Match(*expr_match)),
    ensures
        diag_views(final(diagnostics)@) == diag_views(old(diagnostics)@) + manual_match_diags(*arenas, *expr_match, ManualLint::ManualOkOr, LINT_NAME@, MANUAL_OK_OR@),
{
    report_manual(expr_match, arenas, ManualLint::ManualOkOr, LINT_NAME, MANUAL_OK_OR, diagnostics);
}

/// Reports an `if let` that writes out `ok_or`, unless `manual_ok_or` is
/// allowed on an ancestor.
pub fn check_manual_if_ok_or(arenas: &Arenas, expr_if: &ExprIf, diagnostics: &mut Vec<PluginDiagnostic>)
    requires
        arenas.wf(),
        arenas.fits(Expr::If(*expr_if)),
    ensures
        diag_views(final(diagnostics)@) == diag_views(old(diagnostics)@) + manual_if_diags(*arenas, *expr_if, ManualLint::ManualOkOr, LINT_NAME@, MANUAL_OK_OR@),
{
    report_manual_if(expr_if, arenas, ManualLint::ManualOkOr, LINT_NAME, MANUAL_OK_OR, diagnostics);
}

} // verus!
