//! A `match` on an `Option` or a `Result` that `unwrap_or` says in one call.
use vstd::prelude::*;

use crate::diagnostics::{diag, diag_views, push_diagnostic, PluginDiagnostic, Severity};
use crate::lints::manual::manual::enum_pattern_is;
use crate::syntax::{ExprMatch, Pattern};
use crate::text::str_eq;

verus! {

pub const MANUAL_UNWRAP_OR: &'static str =
    "Manual match for Option<T> or Result<T, E> detected. Consider using unwrap_or instead.";

/// The arms' patterns are `Option::Some(..)` then `Option::None`.
pub open spec fn option_some_none(first: Pattern, second: Pattern) -> bool {
    enum_pattern_is(first, "Option::Some"@) && enum_pattern_is(second, "Option::None"@)
}

/// The arms' patterns are `Result::Ok(..)` then `Result::Err(..)`.
pub open spec fn result_ok_err(first: Pattern, second: Pattern) -> bool {
    enum_pattern_is(first, "Result::Ok"@) && enum_pattern_is(second, "Result::Err"@)
}

fn enum_path_is(p: &Pattern, path: &str) -> (r: bool)
    ensures
        r == enum_pattern_is(*p, path@),
{
    match p {
        Pattern::Enum(e) => str_eq(e.path.text_without_trivia.as_str(), path),
        _ => false,
    }
}

fn is_option_some_none(first_pattern: &Pattern, second_pattern: &Pattern) -> (r: bool)
    ensures
        r == option_some_none(*first_pattern, *second_pattern),
{
    let found_some = enum_path_is(first_pattern, "Option::Some");
    let found_none = enum_path_is(second_pattern, "Option::None");
    found_some && found_none
}

fn is_result_ok_err(first_pattern: &Pattern, second_pattern: &Pattern) -> (r: bool)
    ensures
        r == result_ok_err(*first_pattern, *second_pattern),
{
    let found_ok = enum_path_is(first_pattern, "Result::Ok");
    let found_err = enum_path_is(second_pattern, "Result::Err");
    found_ok && found_err
}

/// Reports a two-arm `match` on `Option::Some`/`Option::None` or on
/// `Result::Ok`/`Result::Err`.
pub fn check_manual_unwrap_or(expr_match: &ExprMatch, diagnostics: &mut Vec<PluginDiagnostic>)
    requires
        expr_match.arms@.len() == 2 ==> expr_match.arms@[0].patterns@.len() > 0
            && expr_match.arms@[1].patterns@.len() > 0,
    ensures
        diag_views(final(diagnostics)@) == if expr_match.arms@.len() == 2 && (option_some_none(
            expr_match.arms@[0].patterns@[0],
            expr_match.arms@[1].patterns@[0],
        ) || result_ok_err(expr_match.arms@[0].patterns@[0], expr_match.arms@[1].patterns@[0])) {
            diag_views(old(diagnostics)@).push(
                diag(expr_match.node.ptr.id, MANUAL_UNWRAP_OR@, Severity::Warning),
            )
        } else {
            diag_views(old(diagnostics)@)
        },
{
    if expr_match.arms.len() != 2 {
        return ;
    }
    let first_pattern = &expr_match.arms[0].patterns[0];
    let second_pattern = &expr_match.arms[1].patterns[0];
    let found_option_some_none = is_option_some_none(first_pattern, second_pattern);
    let found_result_ok_err = is_result_ok_err(first_pattern, second_pattern);
    if found_option_some_none || found_result_ok_err {
        push_diagnostic(diagnostics, expr_match.node.ptr.id, MANUAL_UNWRAP_OR, Severity::Warning);
    }
}

} // verus!
