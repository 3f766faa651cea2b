use cairo_lint_core::lints::bitwise_for_parity_check::BITWISE_FOR_PARITY;
use cairo_lint_core::lints::bool_comparison::BOOL_COMPARISON;
use cairo_lint_core::lints::breaks::BREAK_UNIT;
use cairo_lint_core::lints::double_comparison::{
    CONTRADICTORY_COMPARISON, IMPOSSIBLE_COMPARISON, REDUNDANT_COMPARISON, SIMPLIFIABLE_COMPARISON,
};
use cairo_lint_core::lints::double_parens::DOUBLE_PARENS;
use cairo_lint_core::lints::duplicate_underscore_args::DUPLICATE_UNDERSCORE_ARGS;
use cairo_lint_core::lints::ifs::collapsible_if::COLLAPSIBLE_IF;
use cairo_lint_core::lints::ifs::collapsible_if_else::COLLAPSIBLE_IF_ELSE;
use cairo_lint_core::lints::ifs::equatable_if_let::EQUATABLE_IF_LET;
use cairo_lint_core::lints::ifs::ifs_same_cond::DUPLICATE_IF_CONDITION;
use cairo_lint_core::lints::int_op_one::{INT_GE_MIN_ONE, INT_GE_PLUS_ONE, INT_LE_MIN_ONE, INT_LE_PLUS_ONE};
use cairo_lint_core::lints::loops::loop_for_while::LOOP_FOR_WHILE;
use cairo_lint_core::lints::loops::LOOP_MATCH_POP_FRONT;
use cairo_lint_core::lints::manual::manual_expect::MANUAL_EXPECT;
use cairo_lint_core::lints::manual::manual_expect_err::MANUAL_EXPECT_ERR;
use cairo_lint_core::lints::manual::manual_is::{MANUAL_IS_ERR, MANUAL_IS_NONE, MANUAL_IS_OK, MANUAL_IS_SOME};
use cairo_lint_core::lints::manual::manual_ok::MANUAL_OK;
use cairo_lint_core::lints::manual::manual_ok_or::MANUAL_OK_OR;
use cairo_lint_core::lints::manual::manual_unwrap_or_default::MANUAL_UNWRAP_OR_DEFAULT;
use cairo_lint_core::lints::panic::PANIC_IN_CODE;
use cairo_lint_core::lints::single_match::{DESTRUCT_MATCH, MATCH_FOR_EQUALITY};
use cairo_lint_core::plugin::{diagnostic_kind_from_message, CairoLintKind};

#[test]
fn each_lint_message_gives_its_kind() {
    let cases = [
        (DESTRUCT_MATCH, CairoLintKind::DestructMatch),
        (MATCH_FOR_EQUALITY, CairoLintKind::MatchForEquality),
        (SIMPLIFIABLE_COMPARISON, CairoLintKind::DoubleComparison),
        (REDUNDANT_COMPARISON, CairoLintKind::DoubleComparison),
        (CONTRADICTORY_COMPARISON, CairoLintKind::DoubleComparison),
        (DOUBLE_PARENS, CairoLintKind::DoubleParens),
        (EQUATABLE_IF_LET, CairoLintKind::EquatableIfLet),
        (BREAK_UNIT, CairoLintKind::BreakUnit),
        (BOOL_COMPARISON, CairoLintKind::BoolComparison),
        (COLLAPSIBLE_IF_ELSE, CairoLintKind::CollapsibleIfElse),
        (COLLAPSIBLE_IF, CairoLintKind::CollapsibleIf),
        (DUPLICATE_UNDERSCORE_ARGS, CairoLintKind::DuplicateUnderscoreArgs),
        (LOOP_MATCH_POP_FRONT, CairoLintKind::LoopMatchPopFront),
        (MANUAL_UNWRAP_OR_DEFAULT, CairoLintKind::ManualUnwrapOrDefault),
        (BITWISE_FOR_PARITY, CairoLintKind::BitwiseForParityCheck),
        (LOOP_FOR_WHILE, CairoLintKind::LoopForWhile),
        (PANIC_IN_CODE, CairoLintKind::Panic),
        (MANUAL_OK_OR, CairoLintKind::ManualOkOr),
        (MANUAL_OK, CairoLintKind::ManualOk),
        (MANUAL_IS_SOME, CairoLintKind::ManualIsSome),
        (MANUAL_IS_NONE, CairoLintKind::ManualIsNone),
        (MANUAL_IS_OK, CairoLintKind::ManualIsOk),
        (MANUAL_IS_ERR, CairoLintKind::ManualIsErr),
        (MANUAL_EXPECT, CairoLintKind::ManualExpect),
        (DUPLICATE_IF_CONDITION, CairoLintKind::DuplicateIfCondition),
        (MANUAL_EXPECT_ERR, CairoLintKind::ManualExpectErr),
        (INT_GE_PLUS_ONE, CairoLintKind::IntGePlusOne),
        (INT_GE_MIN_ONE, CairoLintKind::IntGeMinOne),
        (INT_LE_PLUS_ONE, CairoLintKind::IntLePlusOne),
        (INT_LE_MIN_ONE, CairoLintKind::IntLeMinOne),
        (IMPOSSIBLE_COMPARISON, CairoLintKind::ImpossibleComparison),
    ];
    for (message, kind) in cases {
        assert_eq!(diagnostic_kind_from_message(message), kind, "{message}");
    }
}

#[test]
fn other_messages_are_unknown() {
    assert_eq!(diagnostic_kind_from_message(""), CairoLintKind::Unknown);
    assert_eq!(diagnostic_kind_from_message("Unused import."), CairoLintKind::Unknown);
}
