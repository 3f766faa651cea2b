//! Hand-written `is_none` on an `Option`.
use vstd::prelude::*;

use crate::diagnostics::{diag_views, PluginDiagnostic};
use crate::lints::manual::{
    manual_if_diags,
    manual_match_diags,
    report_manual,
    report_manual_if,
    ManualLint,
};
use crate::semantic::{Arenas, Expr, ExprIf, ExprMatch};

verus! {

pub const MANUAL_IS_NONE: &'static str =
    "Manual match for `is_none` detected. Consider using `is_none()` instead";

pub const LINT_NAME: &'static str = "manual_is_none";

/// Reports a `match` that writes out `is_none`, unless `manual_is_none` is
/// allowed on an ancestor.
pub fn check_manual_is_none(expr_match: &ExprMatch, arenas: &Arenas, diagnostics: &mut Vec<PluginDiagnostic>)
    requires
        arenas.wf(),
        arenas.fits(Expr::Match(*expr_match)),
    ensures
        diag_views(final(diagnostics)@) == diag_views(old(diagnostics)@) + manual_match_diags(*arenas, *expr_match, ManualLint::ManualIsNone, LINT_NAME@, MANUAL_IS_NONE@),
{
    report_manual(expr_match, arenas, ManualLint::ManualIsNone, LINT_NAME, MANUAL_IS_NONE, diagnostics);
}

/// Reports an `if let` that writes out `is_none`, unless `manual_is_none` is
/// allowed on an ancestor.
pub fn check_manual_if_is_none(expr_if: &ExprIf, arenas: &Arenas, diagnostics: &mut Vec<PluginDiagnostic>)
    requires
        arenas.wf(),
        arenas.fits(Expr::If(*expr_if)),
    ensures
        diag_views(final(diagnostics)@) == diag_views(old(diagnostics)@) + manual_if_diags(*arenas, *expr_if, ManualLint::ManualIsNone, LINT_NAME@, MANUAL_IS_NONE@),
{
    report_manual_if(expr_if, arenas, ManualLint::ManualIsNone, LINT_NAME, MANUAL_IS_NONE, diagnostics);
}

} // verus!
