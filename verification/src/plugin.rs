//! The kinds of the lints' diagnostics, told apart by their messages.
use vstd::prelude::*;

use crate::lints::bitwise_for_parity_check::BITWISE_FOR_PARITY;
use crate::lints::bool_comparison::BOOL_COMPARISON;
use crate::lints::breaks::BREAK_UNIT;
use crate::lints::double_comparison::{
    CONTRADICTORY_COMPARISON,
    IMPOSSIBLE_COMPARISON,
    REDUNDANT_COMPARISON,
    SIMPLIFIABLE_COMPARISON,
};
use crate::lints::double_parens::DOUBLE_PARENS;
use crate::lints::duplicate_underscore_args::DUPLICATE_UNDERSCORE_ARGS;
use crate::lints::ifs::collapsible_if::COLLAPSIBLE_IF;
use crate::lints::ifs::collapsible_if_else::COLLAPSIBLE_IF_ELSE;
use crate::lints::ifs::equatable_if_let::EQUATABLE_IF_LET;
use crate::lints::ifs::ifs_same_cond::DUPLICATE_IF_CONDITION;
use crate::lints::int_op_one::{INT_GE_MIN_ONE, INT_GE_PLUS_ONE, INT_LE_MIN_ONE, INT_LE_PLUS_ONE};
use crate::lints::loops::loop_for_while::LOOP_FOR_WHILE;
use crate::lints::loops::LOOP_MATCH_POP_FRONT;
use crate::lints::manual::manual_expect::MANUAL_EXPECT;
use crate::lints::manual::manual_expect_err::MANUAL_EXPECT_ERR;
use crate::lints::manual::manual_is::{MANUAL_IS_ERR, MANUAL_IS_NONE, MANUAL_IS_OK, MANUAL_IS_SOME};
use crate::lints::manual::manual_ok::MANUAL_OK;
use crate::lints::manual::manual_ok_or::MANUAL_OK_OR;
use crate::lints::manual::manual_unwrap_or_default::MANUAL_UNWRAP_OR_DEFAULT;
use crate::lints::panic::PANIC_IN_CODE;
use crate::lints::single_match::{DESTRUCT_MATCH, MATCH_FOR_EQUALITY};
use crate::text::str_eq;

verus! {

/// The kind of a lint diagnostic.
#[derive(Clone, Copy, Debug, PartialEq, Eq, Structural)]
pub enum CairoLintKind {
    DestructMatch,
    MatchForEquality,
    DoubleComparison,
    DoubleParens,
    EquatableIfLet,
    BreakUnit,
    BoolComparison,
    CollapsibleIfElse,
    CollapsibleIf,
    DuplicateUnderscoreArgs,
    LoopMatchPopFront,
    ManualUnwrapOrDefault,
    BitwiseForParityCheck,
    LoopForWhile,
    Panic,
    ManualOkOr,
    ManualOk,
    ManualErr,
    ManualIsSome,
    ManualIsNone,
    ManualIsOk,
    ManualIsErr,
    ManualExpect,
    DuplicateIfCondition,
    ManualExpectErr,
    IntGePlusOne,
    IntGeMinOne,
    IntLePlusOne,
    IntLeMinOne,
    ImpossibleComparison,
    Unknown,
}

/// The kind of the diagnostic with this message.
pub open spec fn kind_of_message(m: Seq<char>) -> CairoLintKind {
    if m == DESTRUCT_MATCH@ {
        CairoLintKind::DestructMatch
    } else if m == MATCH_FOR_EQUALITY@ {
        CairoLintKind::MatchForEquality
    } else if m == SIMPLIFIABLE_COMPARISON@ || m == REDUNDANT_COMPARISON@ || m
        == CONTRADICTORY_COMPARISON@ {
        CairoLintKind::DoubleComparison
    } else if m == DOUBLE_PARENS@ {
        CairoLintKind::DoubleParens
    } else if m == EQUATABLE_IF_LET@ {
        CairoLintKind::EquatableIfLet
    } else if m == BREAK_UNIT@ {
        CairoLintKind::BreakUnit
    } else if m == BOOL_COMPARISON@ {
        CairoLintKind::BoolComparison
    } else if m == COLLAPSIBLE_IF_ELSE@ {
        CairoLintKind::CollapsibleIfElse
    } else if m == COLLAPSIBLE_IF@ {
        CairoLintKind::CollapsibleIf
    } else if m == DUPLICATE_UNDERSCORE_ARGS@ {
        CairoLintKind::DuplicateUnderscoreArgs
    } else if m == LOOP_MATCH_POP_FRONT@ {
        CairoLintKind::LoopMatchPopFront
    } else if m == MANUAL_UNWRAP_OR_DEFAULT@ {
        CairoLintKind::ManualUnwrapOrDefault
    } else if m == BITWISE_FOR_PARITY@ {
        CairoLintKind::BitwiseForParityCheck
    } else if m == LOOP_FOR_WHILE@ {
        CairoLintKind::LoopForWhile
    } else if m == PANIC_IN_CODE@ {
        CairoLintKind::Panic
    } else if m == MANUAL_OK_OR@ {
        CairoLintKind::ManualOkOr
    } else if m == MANUAL_OK@ {
        CairoLintKind::ManualOk
    } else if m == MANUAL_IS_SOME@ {
        CairoLintKind::ManualIsSome
    } else if m == MANUAL_IS_NONE@ {
        CairoLintKind::ManualIsNone
    } else if m == MANUAL_IS_OK@ {
        CairoLintKind::ManualIsOk
    } else if m == MANUAL_IS_ERR@ {
        CairoLintKind::ManualIsErr
    } else if m == MANUAL_EXPECT@ {
        CairoLintKind::ManualExpect
    } else if m == DUPLICATE_IF_CONDITION@ {
        CairoLintKind::DuplicateIfCondition
    } else if m == MANUAL_EXPECT_ERR@ {
        CairoLintKind::ManualExpectErr
    } else if m == INT_GE_PLUS_ONE@ {
        CairoLintKind::IntGePlusOne
    } else if m == INT_GE_MIN_ONE@ {
        CairoLintKind::IntGeMinOne
    } else if m == INT_LE_PLUS_ONE@ {
        CairoLintKind::IntLePlusOne
    } else if m == INT_LE_MIN_ONE@ {
        CairoLintKind::IntLeMinOne
    } else if m == IMPOSSIBLE_COMPARISON@ {
        CairoLintKind::ImpossibleComparison
    } else {
        CairoLintKind::Unknown
    }
}

/// The kind of the diagnostic with this message; `Unknown` for a message of
/// no lint.
pub fn diagnostic_kind_from_message(message: &str) -> (r: CairoLintKind)
    ensures
        r == kind_of_message(message@),
{
    if str_eq(message, DESTRUCT_MATCH) {
        CairoLintKind::DestructMatch
    } else if str_eq(message, MATCH_FOR_EQUALITY) {
        CairoLintKind::MatchForEquality
    } else if str_eq(message, SIMPLIFIABLE_COMPARISON) || str_eq(message, REDUNDANT_COMPARISON)
        || str_eq(message, CONTRADICTORY_COMPARISON) {
        CairoLintKind::DoubleComparison
    } else if str_eq(message, DOUBLE_PARENS) {
        CairoLintKind::DoubleParens
    } else if str_eq(message, EQUATABLE_IF_LET) {
        CairoLintKind::EquatableIfLet
    } else if str_eq(message, BREAK_UNIT) {
        CairoLintKind::BreakUnit
    } else if str_eq(message, BOOL_COMPARISON) {
        CairoLintKind::BoolComparison
    } else if str_eq(message, COLLAPSIBLE_IF_ELSE) {
        CairoLintKind::CollapsibleIfElse
    } else if str_eq(message, COLLAPSIBLE_IF) {
        CairoLintKind::CollapsibleIf
    } else if str_eq(message, DUPLICATE_UNDERSCORE_ARGS) {
        CairoLintKind::DuplicateUnderscoreArgs
    } else if str_eq(message, LOOP_MATCH_POP_FRONT) {
        CairoLintKind::LoopMatchPopFront
    } else if str_eq(message, MANUAL_UNWRAP_OR_DEFAULT) {
        CairoLintKind::ManualUnwrapOrDefault
    } else if str_eq(message, BITWISE_FOR_PARITY) {
        CairoLintKind::BitwiseForParityCheck
    } else if str_eq(message, LOOP_FOR_WHILE) {
        CairoLintKind::LoopForWhile
    } else if str_eq(message, PANIC_IN_CODE) {
        CairoLintKind::Panic
    } else if str_eq(message, MANUAL_OK_OR) {
        CairoLintKind::ManualOkOr
    } else if str_eq(message, MANUAL_OK) {
        CairoLintKind::ManualOk
    } else if str_eq(message, MANUAL_IS_SOME) {
        CairoLintKind::ManualIsSome
    } else if str_eq(message, MANUAL_IS_NONE) {
        CairoLintKind::ManualIsNone
    } else if str_eq(message, MANUAL_IS_OK) {
        CairoLintKind::ManualIsOk
    } else if str_eq(message, MANUAL_IS_ERR) {
        CairoLintKind::ManualIsErr
    } else if str_eq(message, MANUAL_EXPECT) {
        CairoLintKind::ManualExpect
    } else if str_eq(message, DUPLICATE_IF_CONDITION) {
        CairoLintKind::DuplicateIfCondition
    } else if str_eq(message, MANUAL_EXPECT_ERR) {
        CairoLintKind::ManualExpectErr
    } else if str_eq(message, INT_GE_PLUS_ONE) {
        CairoLintKind::IntGePlusOne
    } else if str_eq(message, INT_GE_MIN_ONE) {
        CairoLintKind::IntGeMinOne
    } else if str_eq(message, INT_LE_PLUS_ONE) {
        CairoLintKind::IntLePlusOne
    } else if str_eq(message, INT_LE_MIN_ONE) {
        CairoLintKind::IntLeMinOne
    } else if str_eq(message, IMPOSSIBLE_COMPARISON) {
        CairoLintKind::ImpossibleComparison
    } else {
        CairoLintKind::Unknown
    }
}

/// Each lint's message gives back the kind of that lint: the messages of
/// different lints are told apart.
pub proof fn lemma_messages_give_their_kinds()
    ensures
        kind_of_message(DESTRUCT_MATCH@) == CairoLintKind::DestructMatch,
        kind_of_message(MATCH_FOR_EQUALITY@) == CairoLintKind::MatchForEquality,
        kind_of_message(SIMPLIFIABLE_COMPARISON@) == CairoLintKind::DoubleComparison,
        kind_of_message(REDUNDANT_COMPARISON@) == CairoLintKind::DoubleComparison,
        kind_of_message(CONTRADICTORY_COMPARISON@) == CairoLintKind::DoubleComparison,
        kind_of_message(DOUBLE_PARENS@) == CairoLintKind::DoubleParens,
        kind_of_message(EQUATABLE_IF_LET@) == CairoLintKind::EquatableIfLet,
        kind_of_message(BREAK_UNIT@) == CairoLintKind::BreakUnit,
        kind_of_message(BOOL_COMPARISON@) == CairoLintKind::BoolComparison,
        kind_of_message(COLLAPSIBLE_IF_ELSE@) == CairoLintKind::CollapsibleIfElse,
        kind_of_message(COLLAPSIBLE_IF@) == CairoLintKind::CollapsibleIf,
        kind_of_message(DUPLICATE_UNDERSCORE_ARGS@) == CairoLintKind::DuplicateUnderscoreArgs,
        kind_of_message(LOOP_MATCH_POP_FRONT@) == CairoLintKind::LoopMatchPopFront,
        kind_of_message(MANUAL_UNWRAP_OR_DEFAULT@) == CairoLintKind::ManualUnwrapOrDefault,
        kind_of_message(BITWISE_FOR_PARITY@) == CairoLintKind::BitwiseForParityCheck,
        kind_of_message(LOOP_FOR_WHILE@) == CairoLintKind::LoopForWhile,
        kind_of_message(PANIC_IN_CODE@) == CairoLintKind::Panic,
        kind_of_message(MANUAL_OK_OR@) == CairoLintKind::ManualOkOr,
        kind_of_message(MANUAL_OK@) == CairoLintKind::ManualOk,
        kind_of_message(MANUAL_IS_SOME@) == CairoLintKind::ManualIsSome,
        kind_of_message(MANUAL_IS_NONE@) == CairoLintKind::ManualIsNone,
        kind_of_message(MANUAL_IS_OK@) == CairoLintKind::ManualIsOk,
        kind_of_message(MANUAL_IS_ERR@) == CairoLintKind::ManualIsErr,
        kind_of_message(MANUAL_EXPECT@) == CairoLintKind::ManualExpect,
        kind_of_message(DUPLICATE_IF_CONDITION@) == CairoLintKind::DuplicateIfCondition,
        kind_of_message(MANUAL_EXPECT_ERR@) == CairoLintKind::ManualExpectErr,
        kind_of_message(INT_GE_PLUS_ONE@) == CairoLintKind::IntGePlusOne,
        kind_of_message(INT_GE_MIN_ONE@) == CairoLintKind::IntGeMinOne,
        kind_of_message(INT_LE_PLUS_ONE@) == CairoLintKind::IntLePlusOne,
        kind_of_message(INT_LE_MIN_ONE@) == CairoLintKind::IntLeMinOne,
        kind_of_message(IMPOSSIBLE_COMPARISON@) == CairoLintKind::ImpossibleComparison,
{
    reveal_strlit("you seem to be trying to use `match` for destructuring a single pattern. Consider using `if let`");
    reveal_strlit("you seem to be trying to use `match` for an equality check. Consider using `if`");
    reveal_strlit("This double comparison can be simplified.");
    reveal_strlit("Redundant double comparison found. Consider simplifying to a single comparison.");
    reveal_strlit("This double comparison is contradictory and always false.");
    reveal_strlit("unnecessary double parentheses found. Consider removing them.");
    reveal_strlit("`if let` pattern used for equatable value. Consider using a simple comparison `==` instead");
    reveal_strlit("unnecessary double parentheses found after break. Consider removing them.");
    reveal_strlit("Unnecessary comparison with a boolean value. Use the variable directly.");
    reveal_strlit("Consider using else if instead of else { if ... }");
    reveal_strlit("Each `if`-statement adds one level of nesting, which makes code look more complex than it really is.");
    reveal_strlit("duplicate arguments, having another argument having almost the same name makes code comprehension and documentation more difficult");
    reveal_strlit("you seem to be trying to use `loop` for iterating over a span. Consider using `for in`");
    reveal_strlit("This can be done in one call with `.unwrap_or_default()`");
    reveal_strlit("You seem to be trying to use `&` for parity check. Consider using `DivRem::div_rem()` instead.");
    reveal_strlit("you seem to be trying to use `loop`. Consider replacing this `loop` with a `while` loop for clarity and conciseness");
    reveal_strlit("Leaving `panic` in the code is discouraged.");
    reveal_strlit("Manual match for Option<T> detected. Consider using ok_or instead");
    reveal_strlit("Manual match for `ok` detected. Consider using `ok()` instead");
    reveal_strlit("Manual match for `is_some` detected. Consider using `is_some()` instead");
    reveal_strlit("Manual match for `is_none` detected. Consider using `is_none()` instead");
    reveal_strlit("Manual match for `is_ok` detected. Consider using `is_ok()` instead");
    reveal_strlit("Manual match for `is_err` detected. Consider using `is_err()` instead");
    reveal_strlit("Manual match for expect detected. Consider using `expect()` instead");
    reveal_strlit("Consecutive `if` with the same condition found.");
    reveal_strlit("Manual match for `expect_err` detected. Consider using `expect_err()` instead");
    reveal_strlit("Unnecessary add operation in integer >= comparison. Use simplified comparison.");
    reveal_strlit("Unnecessary sub operation in integer >= comparison. Use simplified comparison.");
    reveal_strlit("Unnecessary add operation in integer <= comparison. Use simplified comparison.");
    reveal_strlit("Unnecessary sub operation in integer <= comparison. Use simplified comparison.");
    reveal_strlit("Impossible condition, always false");
    assert(DESTRUCT_MATCH@.len() == 96);
    assert(MATCH_FOR_EQUALITY@.len() == 79);
    assert(SIMPLIFIABLE_COMPARISON@.len() == 41);
    assert(REDUNDANT_COMPARISON@.len() == 79);
    assert(CONTRADICTORY_COMPARISON@.len() == 57);
    assert(DOUBLE_PARENS@.len() == 61);
    assert(EQUATABLE_IF_LET@.len() == 90);
    assert(BREAK_UNIT@.len() == 73);
    assert(BOOL_COMPARISON@.len() == 71);
    assert(COLLAPSIBLE_IF_ELSE@.len() == 49);
    assert(COLLAPSIBLE_IF@.len() == 100);
    assert(DUPLICATE_UNDERSCORE_ARGS@.len() == 130);
    assert(LOOP_MATCH_POP_FRONT@.len() == 86);
    assert(MANUAL_UNWRAP_OR_DEFAULT@.len() == 56);
    assert(BITWISE_FOR_PARITY@.len() == 94);
    assert(LOOP_FOR_WHILE@.len() == 115);
    assert(PANIC_IN_CODE@.len() == 43);
    assert(MANUAL_OK_OR@.len() == 65);
    assert(MANUAL_OK@.len() == 61);
    assert(MANUAL_IS_SOME@.len() == 71);
    assert(MANUAL_IS_NONE@.len() == 71);
    assert(MANUAL_IS_OK@.len() == 67);
    assert(MANUAL_IS_ERR@.len() == 69);
    assert(MANUAL_EXPECT@.len() == 67);
    assert(DUPLICATE_IF_CONDITION@.len() == 47);
    assert(MANUAL_EXPECT_ERR@.len() == 77);
    assert(INT_GE_PLUS_ONE@.len() == 78);
    assert(INT_GE_MIN_ONE@.len() == 78);
    assert(INT_LE_PLUS_ONE@.len() == 78);
    assert(INT_LE_MIN_ONE@.len() == 78);
    assert(IMPOSSIBLE_COMPARISON@.len() == 34);
    assert(REDUNDANT_COMPARISON@[0] != MATCH_FOR_EQUALITY@[0]);
    assert(MANUAL_OK@[0] != DOUBLE_PARENS@[0]);
    assert(MANUAL_IS_SOME@[0] != BOOL_COMPARISON@[0]);
    assert(MANUAL_IS_NONE@[0] != BOOL_COMPARISON@[0]);
    assert(MANUAL_IS_NONE@[21] != MANUAL_IS_SOME@[21]);
    assert(MANUAL_EXPECT@[17] != MANUAL_IS_OK@[17]);
    assert(INT_GE_MIN_ONE@[12] != INT_GE_PLUS_ONE@[12]);
    assert(INT_LE_PLUS_ONE@[37] != INT_GE_PLUS_ONE@[37]);
    assert(INT_LE_PLUS_ONE@[12] != INT_GE_MIN_ONE@[12]);
    assert(INT_LE_MIN_ONE@[12] != INT_GE_PLUS_ONE@[12]);
    assert(INT_LE_MIN_ONE@[37] != INT_GE_MIN_ONE@[37]);
    assert(INT_LE_MIN_ONE@[12] != INT_LE_PLUS_ONE@[12]);
}

} // verus!
