//! Hand-written `is_some` on an `Option`.
use vstd::prelude::*;

use crate::diagnostics::{diag_views, PluginDiagnostic};
use crate::lints::manual::{
    manual_match_diags,
    report_manual,
    ManualLint,
};
use crate::semantic::{Arenas, Expr, ExprMatch};

verus! {

pub const MANUAL_IS_SOME: &'static str =
    "Manual match for `is_some` detected. Consider using `is_some()` instead";

pub const LINT_NAME: &'static str = "manual_is_some";

/// Reports a `match` that writes out `is_some`, unless `manual_is_some` is
/// allowed on an ancestor.
pub fn check_manual_is_some(expr_match: &ExprMatch, arenas: &Arenas, diagnostics: &mut Vec<PluginDiagnostic>)
    requires
        arenas.wf(),
        arenas.fits(Expr::Match(*expr_match)),
    ensures
        diag_views(final(diagnostics)@) == diag_views(old(diagnostics)@) + manual_match_diags(*arenas, *expr_match, ManualLint::ManualIsSome, LINT_NAME@, MANUAL_IS_SOME@),
{
    report_manual(expr_match, arenas, ManualLint::ManualIsSome, LINT_NAME, MANUAL_IS_SOME, diagnostics);
}

} // verus!
