//! Hand-written `expect_err` on a `Result`.
use vstd::prelude::*;

use crate::diagnostics::{diag_views, PluginDiagnostic};
use crate::lints::manual::{
    manual_if_diags,
    manual_match_diags,
    report_manual,
    report_manual_if,
    ManualLint,
};
use crate::semantic::{Arenas, Expr, ExprIf, ExprMatch};

verus! {

pub const MANUAL_EXPECT_ERR: &'static str =
    "Manual match for `expect_err` detected. Consider using `expect_err()` instead";

pub const LINT_NAME: &'static str = "manual_expect_err";

/// Reports a `match` that writes out `expect_err`, unless `manual_expect_err` is
/// allowed on an ancestor.
pub fn check_manual_expect_err(expr_match: &ExprMatch, arenas: &Arenas, diagnostics: &mut Vec<PluginDiagnostic>)
    requires
        arenas.wf(),
        arenas.fits(Expr::Match(*expr_match)),
    ensures
        diag_views(final(diagnostics)@) == diag_views(old(diagnostics)@) + manual_match_diags(*arenas, *expr_match, ManualLint::ManualExpectErr, LINT_NAME@, MANUAL_EXPECT_ERR@),
{
    report_manual(expr_match, arenas, ManualLint::ManualExpectErr, LINT_NAME, MANUAL_EXPECT_ERR, diagnostics);
}

/// Reports an `if let` that writes out `expect_err`, unless `manual_expect_err`
/// is allowed on an ancestor.
pub fn check_manual_if_expect_err(expr_if: &ExprIf, arenas: &Arenas, diagnostics: &mut Vec<PluginDiagnostic>)
    requires
        arenas.wf(),
        arenas.fits(Expr::If(*expr_if)),
    ensures
        diag_views(final(diagnostics)@) == diag_views(old(diagnostics)@) + manual_if_diags(*arenas, *expr_if, ManualLint::ManualExpectErr, LINT_NAME@, MANUAL_EXPECT_ERR@),
{
    report_manual_if(expr_if, arenas, ManualLint::ManualExpectErr, LINT_NAME, MANUAL_EXPECT_ERR, diagnostics);
}

} // verus!
