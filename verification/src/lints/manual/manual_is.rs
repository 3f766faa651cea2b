//! Hand-written `is_some`, `is_none`, `is_ok` and `is_err`.
use vstd::prelude::*;

use crate::diagnostics::{diag_views, PluginDiagnostic};
use crate::lints::manual::{
    manual_if_diags,
    manual_match_diags,
    report_manual,
    report_manual_if,
    ManualLint,
};
use crate::semantic::{Arenas, Expr, ExprIf, ExprMatch};

verus! {

pub const MANUAL_IS_SOME: &'static str =
    "Manual match for `is_some` detected. Consider using `is_some()` instead";

pub const MANUAL_IS_NONE: &'static str =
    "Manual match for `is_none` detected. Consider using `is_none()` instead";

pub const MANUAL_IS_OK: &'static str =
    "Manual match for `is_ok` detected. Consider using `is_ok()` instead";

pub const MANUAL_IS_ERR: &'static str =
    "Manual match for `is_err` detected. Consider using `is_err()` instead";

pub const SOME_LINT_NAME: &'static str = "manual_is_some";

pub const NONE_LINT_NAME: &'static str = "manual_is_none";

pub const OK_LINT_NAME: &'static str = "manual_is_ok";

pub const ERR_LINT_NAME: &'static str = "manual_is_err";

/// Reports a `match` that writes out `is_some`, `is_none`, `is_ok` or `is_err`,
/// each unless its lint is allowed on an ancestor.
pub fn check_manual_is(arenas: &Arenas, expr_match: &ExprMatch, diagnostics: &mut Vec<PluginDiagnostic>)
    requires
        arenas.wf(),
        arenas.fits(Expr::Match(*expr_match)),
    ensures
        diag_views(final(diagnostics)@) == diag_views(old(diagnostics)@) + manual_match_diags(
            *arenas,
            *expr_match,
            ManualLint::ManualIsSome,
            SOME_LINT_NAME@,
            MANUAL_IS_SOME@,
        ) + manual_match_diags(
            *arenas,
            *expr_match,
            ManualLint::ManualIsNone,
            NONE_LINT_NAME@,
            MANUAL_IS_NONE@,
        ) + manual_match_diags(
            *arenas,
            *expr_match,
            ManualLint::ManualIsOk,
            OK_LINT_NAME@,
            MANUAL_IS_OK@,
        ) + manual_match_diags(
            *arenas,
            *expr_match,
            ManualLint::ManualIsErr,
            ERR_LINT_NAME@,
            MANUAL_IS_ERR@,
        ),
{
    report_manual(expr_match, arenas, ManualLint::ManualIsSome, SOME_LINT_NAME, MANUAL_IS_SOME, diagnostics);
    report_manual(expr_match, arenas, ManualLint::ManualIsNone, NONE_LINT_NAME, MANUAL_IS_NONE, diagnostics);
    report_manual(expr_match, arenas, ManualLint::ManualIsOk, OK_LINT_NAME, MANUAL_IS_OK, diagnostics);
    report_manual(expr_match, arenas, ManualLint::ManualIsErr, ERR_LINT_NAME, MANUAL_IS_ERR, diagnostics);
}

/// Reports an `if let` that writes out `is_some`, `is_none`, `is_ok` or
/// `is_err`, each unless its lint is allowed on an ancestor.
pub fn check_manual_if_is(arenas: &Arenas, expr_if: &ExprIf, diagnostics: &mut Vec<PluginDiagnostic>)
    requires
        arenas.wf(),
        arenas.fits(Expr::If(*expr_if)),
    ensures
        diag_views(final(diagnostics)@) == diag_views(old(diagnostics)@) + manual_if_diags(
            *arenas,
            *expr_if,
            ManualLint::ManualIsSome,
            SOME_LINT_NAME@,
            MANUAL_IS_SOME@,
        ) + manual_if_diags(
            *arenas,
            *expr_if,
            ManualLint::ManualIsNone,
            NONE_LINT_NAME@,
            MANUAL_IS_NONE@,
        ) + manual_if_diags(*arenas, *expr_if, ManualLint::ManualIsOk, OK_LINT_NAME@, MANUAL_IS_OK@)
            + manual_if_diags(
            *arenas,
            *expr_if,
            ManualLint::ManualIsErr,
            ERR_LINT_NAME@,
            MANUAL_IS_ERR@,
        ),
{
    report_manual_if(expr_if, arenas, ManualLint::ManualIsSome, SOME_LINT_NAME, MANUAL_IS_SOME, diagnostics);
    report_manual_if(expr_if, arenas, ManualLint::ManualIsNone, NONE_LINT_NAME, MANUAL_IS_NONE, diagnostics);
    report_manual_if(expr_if, arenas, ManualLint::ManualIsOk, OK_LINT_NAME, MANUAL_IS_OK, diagnostics);
    report_manual_if(expr_if, arenas, ManualLint::ManualIsErr, ERR_LINT_NAME, MANUAL_IS_ERR, diagnostics);
}

} // verus!
