//! Hand-written `ok_or` and `is_none` recognised from the syntax alone.
use vstd::prelude::*;

use crate::syntax::{Expr, ExprMatch, Pattern};
use crate::text::str_eq;

verus! {

/// The method that a `match` is checked to write out by hand.
#[derive(Clone, Copy, Debug)]
pub enum ManualLint {
    ManualOkOr,
    ManualIsNone,
}

/// The `Option::Some` arm's expression: `Result::Ok(..)` for `ok_or`, `false`
/// for `is_none`.
pub open spec fn some_expression_ok(e: Expr, lint: ManualLint) -> bool {
    match lint {
        ManualLint::ManualOkOr => match e {
            Expr::FunctionCall(f) => f.path.node.text@ == "Result::Ok"@,
            _ => false,
        },
        ManualLint::ManualIsNone => e.spec_node().text_without_trivia@ == "false"@,
    }
}

/// The `Option::None` arm's expression: `Result::Err(..)` for `ok_or`, `true`
/// for `is_none`.
pub open spec fn none_expression_ok(e: Expr, lint: ManualLint) -> bool {
    match lint {
        ManualLint::ManualOkOr => match e {
            Expr::FunctionCall(f) => f.path.node.text@ == "Result::Err"@,
            _ => false,
        },
        ManualLint::ManualIsNone => e.spec_node().text_without_trivia@ == "true"@,
    }
}

/// The pattern is an enum pattern whose path is written `path`.
pub open spec fn enum_pattern_is(p: Pattern, path: Seq<char>) -> bool {
    match p {
        Pattern::Enum(e) => e.path.text_without_trivia@ == path,
        _ => false,
    }
}

/// The `match` has an `Option::Some` arm and an `Option::None` arm that write
/// out the method of `lint`.
pub open spec fn manual_match_syntax(m: ExprMatch, lint: ManualLint) -> bool {
    &&& m.arms@.len() == 2
    &&& enum_pattern_is(m.arms@[0].patterns@[0], "Option::Some"@)
    &&& some_expression_ok(m.arms@[0].expression, lint)
    &&& enum_pattern_is(m.arms@[1].patterns@[0], "Option::None"@)
    &&& none_expression_ok(m.arms@[1].expression, lint)
}

fn check_syntax_some_expression(arm_expression: &Expr, manual_lint: ManualLint) -> (r: bool)
    ensures
        r == some_expression_ok(*arm_expression, manual_lint),
{
    match manual_lint {
        ManualLint::ManualOkOr => match arm_expression {
            Expr::FunctionCall(func_call) => str_eq(func_call.path.node.text.as_str(), "Result::Ok"),
            _ => false,
        },
        ManualLint::ManualIsNone => str_eq(
            arm_expression.node().text_without_trivia.as_str(),
            "false",
        ),
    }
}

fn check_syntax_none_expression(arm_expression: &Expr, manual_lint: ManualLint) -> (r: bool)
    ensures
        r == none_expression_ok(*arm_expression, manual_lint),
{
    match manual_lint {
        ManualLint::ManualOkOr => match arm_expression {
            Expr::FunctionCall(func_call) => str_eq(func_call.path.node.text.as_str(), "Result::Err"),
            _ => false,
        },
        ManualLint::ManualIsNone => str_eq(arm_expression.node().text_without_trivia.as_str(), "true"),
    }
}

fn is_enum_pattern(p: &Pattern, path: &str) -> (r: bool)
    ensures
        r == enum_pattern_is(*p, path@),
{
    match p {
        Pattern::Enum(e) => str_eq(e.path.text_without_trivia.as_str(), path),
        _ => false,
    }
}

/// Whether a two-arm `match` is written `Option::Some(..) => .., Option::None =>
/// ..` with the arms of the method of `manual_lint`.
pub fn check_manual(expr_match: &ExprMatch, manual_lint: ManualLint) -> (r: bool)
    requires
        expr_match.arms@.len() == 2 ==> expr_match.arms@[0].patterns@.len() > 0
            && expr_match.arms@[1].patterns@.len() > 0,
    ensures
        r == manual_match_syntax(*expr_match, manual_lint),
{
    if expr_match.arms.len() != 2 {
        return false;
    }
    let first_arm = &expr_match.arms[0];
    let second_arm = &expr_match.arms[1];
    let found_some = is_enum_pattern(&first_arm.patterns[0], "Option::Some")
        && check_syntax_some_expression(&first_arm.expression, manual_lint);
    let found_none = is_enum_pattern(&second_arm.patterns[0], "Option::None")
        && check_syntax_none_expression(&second_arm.expression, manual_lint);
    found_some && found_none
}

} // verus!
