//! Hand-written `expect` on an `Option` or a `Result`.
use vstd::prelude::*;

use crate::diagnostics::{diag_views, PluginDiagnostic};
use crate::lints::manual::{
    manual_if_diags,
    manual_match_diags,
    report_manual,
    report_manual_if,
    ManualLint,
};
use crate::semantic::{Arenas, Expr, ExprIf, ExprMatch};

verus! {

pub const MANUAL_EXPECT: &'static str =
    "Manual match for expect detected. Consider using `expect()` instead";

pub const LINT_NAME: &'static str = "manual_expect";

/// Reports a `match` that writes out `expect` on an `Option`, then on a `Result`,
/// unless `manual_expect` is allowed on an ancestor.
pub fn check_manual_expect(arenas: &Arenas, expr_match: &ExprMatch, diagnostics: &mut Vec<PluginDiagnostic>)
    requires
        arenas.wf(),
        arenas.fits(Expr::Match(*expr_match)),
    ensures
        diag_views(final(diagnostics)@) == diag_views(old(diagnostics)@) + manual_match_diags(*arenas, *expr_match, ManualLint::ManualOptExpect, LINT_NAME@, MANUAL_EXPECT@) + manual_match_diags(*arenas, *expr_match, ManualLint::ManualResExpect, LINT_NAME@, MANUAL_EXPECT@),
{
    report_manual(expr_match, arenas, ManualLint::ManualOptExpect, LINT_NAME, MANUAL_EXPECT, diagnostics);
    report_manual(expr_match, arenas, ManualLint::ManualResExpect, LINT_NAME, MANUAL_EXPECT, diagnostics);
}

/// Reports an `if let` that writes out `expect` on an `Option`, then on a
/// `Result`, unless `manual_expect` is allowed on an ancestor.
pub fn check_manual_if_expect(arenas: &Arenas, expr_if: &ExprIf, diagnostics: &mut Vec<PluginDiagnostic>)
    requires
        arenas.wf(),
        arenas.fits(Expr::If(*expr_if)),
    ensures
        diag_views(final(diagnostics)@) == diag_views(old(diagnostics)@) + manual_if_diags(*arenas, *expr_if, ManualLint::ManualOptExpect, LINT_NAME@, MANUAL_EXPECT@) + manual_if_diags(*arenas, *expr_if, ManualLint::ManualResExpect, LINT_NAME@, MANUAL_EXPECT@),
{
    report_manual_if(expr_if, arenas, ManualLint::ManualOptExpect, LINT_NAME, MANUAL_EXPECT, diagnostics);
    report_manual_if(expr_if, arenas, ManualLint::ManualResExpect, LINT_NAME, MANUAL_EXPECT, diagnostics);
}

} // verus!
