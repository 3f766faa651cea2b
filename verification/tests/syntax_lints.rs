use cairo_lint_core::diagnostics::{PluginDiagnostic, Severity};
use cairo_lint_core::erasing_op::{EraseOp, ERASE_OP_MESSAGE};
use cairo_lint_core::fix::Fixer;
use cairo_lint_core::lints::assertions_on_constants::{
    check_assert, evaluate_expression, ASSERT_MSG, ASSERT_MSG_FALSE,
};
use cairo_lint_core::lints::bool_comparison::{
    check_bool_comparison, generate_fixed_text_for_comparison, BOOL_COMPARISON,
};
use cairo_lint_core::lints::double_parens::{check_double_parens, DOUBLE_PARENS};
use cairo_lint_core::lints::duplicate_underscore_args::{
    check_duplicate_underscore_args, DUPLICATE_UNDERSCORE_ARGS,
};
use cairo_lint_core::lints::eq_op::{
    get_diagnostic_message, DIV_EQ_OP, EQ_BITWISE_OP, EQ_COMP_OP, EQ_DIFF_OP, EQ_LOGICAL_OP,
    NEQ_COMP_OP,
};
use cairo_lint_core::lints::erasing_op::{check_erasing_operation, ERASING_OPERATION};
use cairo_lint_core::lints::int_plus_one::{check_int_plus_one, INT_PLUS_ONE};
use cairo_lint_core::lints::invisible_characters::{
    check_invisible_characters, INVISIBLE_CHARACTER_DETECTED, WHITESPACE_DETECTED,
};
use cairo_lint_core::semantic::Parameter;
use cairo_lint_core::lints::manual_ok_or::{check_manual_ok_or, MANUAL_OK_OR};
use cairo_lint_core::syntax::{
    Arg, BinaryOperator, Expr, ExprBinary, ExprFunctionCall, ExprInlineMacro, ExprListParenthesized,
    ExprMatch, ExprParenthesized, ExprPath, MatchArm, NodeRef, Pattern, PatternEnum, SyntaxNode,
};

fn node_at(id: u64, text: &str) -> SyntaxNode {
    SyntaxNode {
        ptr: NodeRef { id, start: 0, end: text.len() },
        text: text.to_string(),
        leading_trivia: String::new(),
        text_without_trivia: text.trim().to_string(),
        allowed: vec![],
    }
}

fn lit(text: &str) -> Expr {
    Expr::Literal(node_at(10, text))
}

fn other(text: &str) -> Expr {
    Expr::Other(node_at(11, text))
}

fn binary(id: u64, text: &str, lhs: Expr, op: BinaryOperator, rhs: Expr) -> ExprBinary {
    ExprBinary { node: node_at(id, text), lhs: Box::new(lhs), op, rhs: Box::new(rhs) }
}

fn messages(d: &[PluginDiagnostic]) -> Vec<(u64, String, Severity)> {
    d.iter().map(|x| (x.stable_ptr, x.message.clone(), x.severity)).collect()
}

fn assert_macro(args: &[&str]) -> ExprInlineMacro {
    ExprInlineMacro {
        node: node_at(3, "assert!(..)"),
        path: node_at(4, "assert"),
        arguments: Some(
            args.iter().map(|a| Arg { node: node_at(5, a), arg_clause: node_at(6, a) }).collect(),
        ),
    }
}

#[test]
fn evaluate_expression_reads_boolean_literals() {
    assert_eq!(evaluate_expression("true"), Some(true));
    assert_eq!(evaluate_expression("false"), Some(false));
    assert_eq!(evaluate_expression("True"), None);
    assert_eq!(evaluate_expression("1 == 1"), None);
}

#[test]
fn check_assert_reports_constant_assertions() {
    let mut d = Vec::new();
    check_assert(&assert_macro(&["true"]), &mut d);
    check_assert(&assert_macro(&["false"]), &mut d);
    check_assert(&assert_macro(&["x"]), &mut d);
    check_assert(&assert_macro(&["true", "'msg'"]), &mut d);
    assert_eq!(
        messages(&d),
        vec![
            (3, ASSERT_MSG.to_string(), Severity::Warning),
            (3, ASSERT_MSG_FALSE.to_string(), Severity::Error),
        ]
    );
}

#[test]
fn get_diagnostic_message_by_operation() {
    assert_eq!(get_diagnostic_message("core::traits::PartialEq::eq"), Some(EQ_COMP_OP));
    assert_eq!(get_diagnostic_message("core::traits::PartialOrd::ge"), Some(EQ_COMP_OP));
    assert_eq!(get_diagnostic_message("core::traits::PartialOrd::lt"), Some(NEQ_COMP_OP));
    assert_eq!(get_diagnostic_message("core::traits::BitOr::bitor"), Some(EQ_LOGICAL_OP));
    assert_eq!(get_diagnostic_message("core::traits::BitXor::bitxor"), Some(EQ_BITWISE_OP));
    assert_eq!(get_diagnostic_message("core::traits::Sub::sub"), Some(EQ_DIFF_OP));
    assert_eq!(get_diagnostic_message("core::traits::Div::div"), Some(DIV_EQ_OP));
    assert_eq!(get_diagnostic_message("core::traits::Add::add"), None);
}

#[test]
fn erase_op_flags_multiplication_by_zero() {
    let check = EraseOp::new();
    let d = check.check_expr(&binary(7, "x * 0", other("x"), BinaryOperator::Mul, lit("0")));
    let d = d.expect("x * 0 is always zero");
    assert_eq!(d.stable_ptr, 7);
    assert_eq!(d.message, ERASE_OP_MESSAGE);
    assert_eq!(d.severity, Severity::Warning);
    assert!(check.check_expr(&binary(7, "0 / x", lit("0"), BinaryOperator::Div, other("x"))).is_some());
    assert!(check.check_expr(&binary(7, "x + 0", other("x"), BinaryOperator::Plus, lit("0"))).is_none());
    assert!(check.check_expr(&binary(7, "x * 1", other("x"), BinaryOperator::Mul, lit("1"))).is_none());
}

#[test]
fn check_erasing_operation_includes_bitwise_and() {
    let mut d = Vec::new();
    check_erasing_operation(&binary(8, "x & 0", other("x"), BinaryOperator::And, lit("0")), &mut d);
    check_erasing_operation(&binary(9, "x - 0", other("x"), BinaryOperator::Minus, lit("0")), &mut d);
    assert_eq!(messages(&d), vec![(8, ERASING_OPERATION.to_string(), Severity::Warning)]);
}

#[test]
fn check_bool_comparison_flags_literals_in_equalities() {
    let mut d = Vec::new();
    let t = Expr::True(node_at(12, "true"));
    check_bool_comparison(&binary(1, "x == true", other("x"), BinaryOperator::EqEq, t), &mut d);
    let f = Expr::False(node_at(12, "false"));
    check_bool_comparison(&binary(2, "x < false", other("x"), BinaryOperator::LT, f), &mut d);
    assert_eq!(messages(&d), vec![(1, BOOL_COMPARISON.to_string(), Severity::Warning)]);
}

#[test]
fn generate_fixed_text_for_comparison_by_literal() {
    let eq = binary(1, "a == b", other("a"), BinaryOperator::EqEq, other("b"));
    let ne = binary(1, "a != b", other("a"), BinaryOperator::Neq, other("b"));
    assert_eq!(generate_fixed_text_for_comparison("x ", " false", &eq), "!x ");
    assert_eq!(generate_fixed_text_for_comparison("x", "true", &eq), "x ");
    assert_eq!(generate_fixed_text_for_comparison("true", "x", &ne), "!x ");
    assert_eq!(generate_fixed_text_for_comparison("x", "y", &ne), "a != b");
}

#[test]
fn generate_fixed_text_keeps_the_meaning_of_not_equal() {
    let eq = binary(1, "a == b", other("a"), BinaryOperator::EqEq, other("b"));
    let ne = binary(1, "a != b", other("a"), BinaryOperator::Neq, other("b"));
    // `x != false` is `x`; `x != true` is `!x`; `false == x` is `!x`.
    assert_eq!(generate_fixed_text_for_comparison("x", "false", &ne), "x ");
    assert_eq!(generate_fixed_text_for_comparison("false", "x", &ne), "x ");
    assert_eq!(generate_fixed_text_for_comparison("x", "true", &ne), "!x ");
    assert_eq!(generate_fixed_text_for_comparison("false", "x", &eq), "!x ");
    assert_eq!(generate_fixed_text_for_comparison("true", "x", &eq), "x ");
}

fn ok_or_arm(pattern_path: &str, call_path: &str) -> MatchArm {
    MatchArm {
        node: node_at(20, "arm"),
        patterns: vec![Pattern::Enum(PatternEnum {
            node: node_at(21, pattern_path),
            path: SyntaxNode { leading_trivia: "\n    ".to_string(), ..node_at(22, pattern_path) },
            inner: None,
        })],
        expression: Expr::FunctionCall(ExprFunctionCall {
            node: node_at(23, call_path),
            path: ExprPath {
                node: SyntaxNode { leading_trivia: " ".to_string(), ..node_at(24, call_path) },
                segments: call_path.split("::").map(|s| s.to_string()).collect(),
            },
            arguments: vec![],
        }),
    }
}

fn ok_or_match(some_path: &str, none_path: &str, ok: &str, err: &str) -> ExprMatch {
    ExprMatch {
        node: node_at(25, "match x { .. }"),
        expr: Box::new(other("x")),
        arms: vec![ok_or_arm(some_path, ok), ok_or_arm(none_path, err)],
    }
}

#[test]
fn manual_ok_or_reports_option_paths_as_written() {
    let mut d = Vec::new();
    check_manual_ok_or(&ok_or_match("Option::Some", "Option::None", "Result::Ok", "Result::Err"), &mut d);
    check_manual_ok_or(
        &ok_or_match(
            "core::option::Option::<u32>::Some",
            "core::option::Option::<u32>::None",
            "Result::Ok",
            "Result::Err",
        ),
        &mut d,
    );
    assert_eq!(
        messages(&d),
        vec![
            (25, MANUAL_OK_OR.to_string(), Severity::Warning),
            (25, MANUAL_OK_OR.to_string(), Severity::Warning),
        ]
    );
}

#[test]
fn manual_ok_or_ignores_other_matches() {
    let mut d = Vec::new();
    check_manual_ok_or(&ok_or_match("Foo::Some", "Foo::None", "Result::Ok", "Result::Err"), &mut d);
    check_manual_ok_or(&ok_or_match("Option::Some", "Option::None", "Result::Err", "Result::Ok"), &mut d);
    assert!(d.is_empty());
}

#[test]
fn fix_bool_comparison_uses_operand_texts() {
    let e = binary(
        4,
        "flag == false",
        Expr::Path(cairo_lint_core::syntax::ExprPath {
            node: node_at(13, "flag "),
            segments: vec!["flag".to_string()],
        }),
        BinaryOperator::EqEq,
        Expr::False(node_at(14, " false")),
    );
    let (n, text) = Fixer.fix_bool_comparison(&e).unwrap();
    assert_eq!(n.id, 4);
    assert_eq!(text, "!flag ");
}

#[test]
fn check_double_parens_flags_nested_parentheses() {
    let inner = Expr::Parenthesized(ExprParenthesized {
        node: node_at(20, "(x)"),
        expr: Box::new(other("x")),
    });
    let outer = Expr::Parenthesized(ExprParenthesized { node: node_at(21, "((x))"), expr: Box::new(inner) });
    let unit = Expr::Parenthesized(ExprParenthesized {
        node: node_at(22, "(())"),
        expr: Box::new(Expr::Tuple(ExprListParenthesized { node: node_at(23, "()"), expressions: vec![] })),
    });
    let single = Expr::Parenthesized(ExprParenthesized { node: node_at(24, "(x)"), expr: Box::new(other("x")) });
    let mut d = Vec::new();
    check_double_parens(&outer, &mut d);
    check_double_parens(&unit, &mut d);
    check_double_parens(&single, &mut d);
    assert_eq!(
        messages(&d),
        vec![
            (21, DOUBLE_PARENS.to_string(), Severity::Warning),
            (22, DOUBLE_PARENS.to_string(), Severity::Warning),
        ]
    );
    let (n, text) = Fixer.fix_double_parens(&outer).unwrap();
    assert_eq!(n.id, 21);
    assert_eq!(text, "x");
}

#[test]
fn check_double_parens_respects_allow() {
    let mut n = node_at(25, "((x))");
    n.allowed = vec!["double_parens".to_string()];
    let inner = Expr::Parenthesized(ExprParenthesized { node: node_at(26, "(x)"), expr: Box::new(other("x")) });
    let outer = Expr::Parenthesized(ExprParenthesized { node: n, expr: Box::new(inner) });
    let mut d = Vec::new();
    check_double_parens(&outer, &mut d);
    assert!(d.is_empty());
}

#[test]
fn check_duplicate_underscore_args_flags_later_parameters() {
    let params = vec![
        Parameter { name: "a".to_string(), stable_ptr: 1 },
        Parameter { name: "_a".to_string(), stable_ptr: 2 },
        Parameter { name: "b".to_string(), stable_ptr: 3 },
        Parameter { name: "_b".to_string(), stable_ptr: 4 },
        Parameter { name: "c".to_string(), stable_ptr: 5 },
    ];
    let mut d = Vec::new();
    check_duplicate_underscore_args(params, &mut d);
    assert_eq!(
        messages(&d),
        vec![
            (2, DUPLICATE_UNDERSCORE_ARGS.to_string(), Severity::Warning),
            (4, DUPLICATE_UNDERSCORE_ARGS.to_string(), Severity::Warning),
        ]
    );
}

#[test]
fn check_invisible_characters_reports_both_kinds() {
    let mut d = Vec::new();
    check_invisible_characters(&Expr::Other(node_at(30, "a\u{200B} b")), &mut d);
    check_invisible_characters(&Expr::Other(node_at(31, "ab")), &mut d);
    check_invisible_characters(&Expr::Other(node_at(32, "a\u{FEFF}b")), &mut d);
    assert_eq!(
        messages(&d),
        vec![
            (30, WHITESPACE_DETECTED.to_string(), Severity::Warning),
            (30, INVISIBLE_CHARACTER_DETECTED.to_string(), Severity::Error),
            (32, INVISIBLE_CHARACTER_DETECTED.to_string(), Severity::Error),
        ]
    );
}

#[test]
fn check_int_plus_one_flags_ge_plus_one() {
    let plus_one = Expr::Binary(binary(40, "y + 1", other("y"), BinaryOperator::Plus, lit("1")));
    let mut d = Vec::new();
    check_int_plus_one(&binary(41, "x >= y + 1", other("x"), BinaryOperator::GE, plus_one), &mut d);
    let minus_one = Expr::Binary(binary(42, "x - 1", other("x"), BinaryOperator::Minus, lit("1")));
    check_int_plus_one(&binary(43, "x - 1 <= y", minus_one, BinaryOperator::LE, other("y")), &mut d);
    let plus_two = Expr::Binary(binary(44, "y + 2", other("y"), BinaryOperator::Plus, lit("2")));
    check_int_plus_one(&binary(45, "x >= y + 2", other("x"), BinaryOperator::GE, plus_two), &mut d);
    assert_eq!(
        messages(&d),
        vec![
            (41, INT_PLUS_ONE.to_string(), Severity::Warning),
            (43, INT_PLUS_ONE.to_string(), Severity::Warning),
        ]
    );
}
