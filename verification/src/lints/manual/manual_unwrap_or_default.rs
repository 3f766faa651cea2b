//! Hand-written `unwrap_or_default` on an `Option`.
use vstd::prelude::*;

use crate::diagnostics::{diag_views, PluginDiagnostic};
use crate::lints::manual::{
    manual_if_diags,
    manual_match_diags,
    report_manual,
    report_manual_if,
    ManualLint,
};
use crate::semantic::{Arenas, Expr, ExprIf, ExprMatch};

verus! {

pub const MANUAL_UNWRAP_OR_DEFAULT: &'static str =
    "This can be done in one call with `.unwrap_or_default()`";

pub const LINT_NAME: &'static str = "manual_unwrap_or_default";

/// Reports a `match` that writes out `unwrap_or_default`, unless
/// `manual_unwrap_or_default` is allowed on an ancestor.
pub fn check_manual_unwrap_or_default(arenas: &Arenas, expr_match: &ExprMatch, diagnostics: &mut Vec<PluginDiagnostic>)
    requires
        arenas.wf(),
        arenas.fits(Expr::Match(*expr_match)),
    ensures
        diag_views(final(diagnostics)@) == diag_views(old(diagnostics)@) + manual_match_diags(*arenas, *expr_match, ManualLint::ManualUnwrapOrDefault, LINT_NAME@, MANUAL_UNWRAP_OR_DEFAULT@),
{
    report_manual(expr_match, arenas, ManualLint::ManualUnwrapOrDefault, LINT_NAME, MANUAL_UNWRAP_OR_DEFAULT, diagnostics);
}

/// Reports an `if let` that writes out `unwrap_or_default`, unless
/// `manual_unwrap_or_default` is allowed on an ancestor.
pub fn check_manual_if_unwrap_or_default(arenas: &Arenas, expr_if: &ExprIf, diagnostics: &mut Vec<PluginDiagnostic>)
    requires
        arenas.wf(),
        arenas.fits(Expr::If(*expr_if)),
    ensures
        diag_views(final(diagnostics)@) == diag_views(old(diagnostics)@) + manual_if_diags(*arenas, *expr_if, ManualLint::ManualUnwrapOrDefault, LINT_NAME@, MANUAL_UNWRAP_OR_DEFAULT@),
{
    report_manual_if(expr_if, arenas, ManualLint::ManualUnwrapOrDefault, LINT_NAME, MANUAL_UNWRAP_OR_DEFAULT, diagnostics);
}

} // verus!
