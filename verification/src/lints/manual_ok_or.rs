//! A `match` on an `Option` that maps `Some(v)` to `Result::Ok(v)` and `None` to
//! `Result::Err(..)`, which `ok_or` says in one call; recognised from the syntax.
use vstd::prelude::*;

use crate::diagnostics::{diag, diag_views, push_diagnostic, PluginDiagnostic, Severity};
use crate::syntax::{Expr, ExprMatch, MatchArm, Pattern, PatternEnum};
use crate::text::{chars_of, ends_with, ends_with_exec, seq_eq, starts_with, starts_with_exec, str_eq};

verus! {

pub const MANUAL_OK_OR: &'static str =
    "Manual match for Option<T> detected. Consider using ok_or instead";

pub const OPTION_TYPE: &'static str = "core::option::Option::<";

pub const SOME_VARIANT: &'static str = "Some";

pub const NONE_VARIANT: &'static str = "None";

/// The path names the variant `variant` of `Option`: `Option::variant`,
/// `core::option::Option::variant`, or either with generic arguments
/// (`Option::<T>::variant`).
pub open spec fn option_variant_path(path: Seq<char>, variant: Seq<char>) -> bool {
    ||| path == "Option::"@ + variant
    ||| path == "core::option::Option::"@ + variant
    ||| ((starts_with(path, "Option::<"@) || starts_with(path, OPTION_TYPE@)) && ends_with(
        path,
        ">::"@ + variant,
    ))
}

/// The pattern's path, without trivia, names the `Option` variant
/// `variant_name`, and the arm calls `Result::Ok` for `Some`, `Result::Err` for
/// `None`.
pub open spec fn enum_pattern_ok(p: PatternEnum, arm_expression: Expr, variant_name: Seq<char>) -> bool {
    &&& option_variant_path(p.path.text_without_trivia@, variant_name)
    &&& match arm_expression {
        Expr::FunctionCall(f) => (variant_name == SOME_VARIANT@ && f.path.node.text_without_trivia@
            == "Result::Ok"@) || (variant_name == NONE_VARIANT@ && f.path.node.text_without_trivia@
            == "Result::Err"@),
        _ => false,
    }
}

fn concat(a: &str, b: &str) -> (r: Vec<char>)
    ensures
        r@ == a@ + b@,
{
    let mut r = chars_of(a);
    crate::text::append(&mut r, &chars_of(b));
    r
}

fn is_option_variant_path(path: &Vec<char>, variant: &str) -> (r: bool)
    ensures
        r == option_variant_path(path@, variant@),
{
    seq_eq(path, &concat("Option::", variant)) || seq_eq(
        path,
        &concat("core::option::Option::", variant),
    ) || ((starts_with_exec(path, &chars_of("Option::<")) || starts_with_exec(
        path,
        &chars_of(OPTION_TYPE),
    )) && ends_with_exec(path, &concat(">::", variant)))
}

/// The arm's first pattern is an enum pattern that passes `enum_pattern_ok`.
pub open spec fn arm_ok(arm: MatchArm, variant_name: Seq<char>) -> bool {
    arm.patterns@.len() > 0 && match arm.patterns@[0] {
        Pattern::Enum(p) => enum_pattern_ok(p, arm.expression, variant_name),
        _ => false,
    }
}

fn check_syntax_enum_pattern(enum_pattern: &PatternEnum, arm_expression: &Expr, variant_name: &str) -> (r:
    bool)
    ensures
        r == enum_pattern_ok(*enum_pattern, *arm_expression, variant_name@),
{
    let path = chars_of(enum_pattern.path.text_without_trivia.as_str());
    if is_option_variant_path(&path, variant_name) {
        if let Expr::FunctionCall(func_call) = arm_expression {
            let func_name = func_call.path.node.text_without_trivia.as_str();
            if (str_eq(variant_name, SOME_VARIANT) && str_eq(func_name, "Result::Ok")) || (str_eq(
                variant_name,
                NONE_VARIANT,
            ) && str_eq(func_name, "Result::Err")) {
                return true;
            }
        }
    }
    false
}

fn check_arm(arm: &MatchArm, variant_name: &str) -> (r: bool)
    ensures
        r == arm_ok(*arm, variant_name@),
{
    if arm.patterns.len() == 0 {
        return false;
    }
    match &arm.patterns[0] {
        Pattern::Enum(enum_pattern) => check_syntax_enum_pattern(enum_pattern, &arm.expression, variant_name),
        _ => false,
    }
}

/// Reports a two-arm `match` that maps `Option::Some(v)` to `Result::Ok(v)` and
/// `Option::None` to `Result::Err(..)`.
pub fn check_manual_ok_or(expr_match: &ExprMatch, diagnostics: &mut Vec<PluginDiagnostic>)
    ensures
        diag_views(final(diagnostics)@) == if expr_match.arms@.len() == 2 && arm_ok(
            expr_match.arms@[0],
            SOME_VARIANT@,
        ) && arm_ok(expr_match.arms@[1], NONE_VARIANT@) {
            diag_views(old(diagnostics)@).push(diag(expr_match.node.ptr.id, MANUAL_OK_OR@, Severity::Warning))
        } else {
            diag_views(old(diagnostics)@)
        },
{
    if expr_match.arms.len() != 2 {
        return ;
    }
    let found_some_ok = check_arm(&expr_match.arms[0], SOME_VARIANT);
    let found_none_err = check_arm(&expr_match.arms[1], NONE_VARIANT);
    if found_some_ok && found_none_err {
        push_diagnostic(diagnostics, expr_match.node.ptr.id, MANUAL_OK_OR, Severity::Warning);
    }
}

} // verus!
