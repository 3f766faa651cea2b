use cairo_lint_core::diagnostics::{PluginDiagnostic, Severity};
use cairo_lint_core::int_value::IntValue;
use cairo_lint_core::lints::double_comparison::{
    check_double_comparison, CONTRADICTORY_COMPARISON, IMPOSSIBLE_COMPARISON, REDUNDANT_COMPARISON,
    SIMPLIFIABLE_COMPARISON,
};
use cairo_lint_core::lints::eq_op::{check_eq_op, EQ_COMP_OP};
use cairo_lint_core::lints::impossible_comparison::check_impossible_comparision;
use cairo_lint_core::lints::int_op_one::{check_int_plus_one, INT_GE_PLUS_ONE};
use cairo_lint_core::lints::manual::manual_is::{check_manual_is, MANUAL_IS_SOME};
use cairo_lint_core::lints::manual::{check_manual, ManualLint};
use cairo_lint_core::semantic::{
    Arenas, CallOrigin, Expr, ExprEnumVariantCtor, ExprFunctionCall, ExprFunctionCallArg,
    ExprLogicalOperator, ExprMatch, FunctionBody, FunctionId, LogicalOperator, MatchArm, Pattern,
    PatternEnumVariant, VarId,
};
use cairo_lint_core::syntax::{Expr as AstExpr, NodeRef, SyntaxNode};

fn node_at(id: u64, text: &str) -> SyntaxNode {
    SyntaxNode {
        ptr: NodeRef { id, start: 0, end: text.len() },
        text: text.to_string(),
        leading_trivia: String::new(),
        text_without_trivia: text.trim().to_string(),
        allowed: vec![],
    }
}

fn var(name: &str, id: u64) -> Expr {
    Expr::Var(node_at(100 + id, name), VarId::Local(id))
}

fn literal(v: u32) -> Expr {
    Expr::Literal(node_at(200, &v.to_string()), IntValue::from_u32(v))
}

fn call(trait_fn: &str, a: usize, b: usize) -> Expr {
    Expr::FunctionCall(ExprFunctionCall {
        node: node_at(300, "a op b"),
        function: FunctionId {
            full_name: trait_fn.to_string(),
            name: "\"op\"".to_string(),
            body: FunctionBody::Impl(trait_fn.to_string()),
        },
        args: vec![ExprFunctionCallArg::Value(a), ExprFunctionCallArg::Value(b)],
        origin: CallOrigin { from_macro: false, origin_node: None },
    })
}

fn logical(lhs: usize, op: LogicalOperator, rhs: usize) -> ExprLogicalOperator {
    ExprLogicalOperator { node: node_at(400, "a && b"), lhs, op, rhs }
}

fn arenas(exprs: Vec<Expr>) -> Arenas {
    Arenas { exprs, patterns: vec![], statements: vec![] }
}

fn messages(d: &[PluginDiagnostic]) -> Vec<(u64, String, Severity)> {
    d.iter().map(|x| (x.stable_ptr, x.message.clone(), x.severity)).collect()
}

const GT: &str = "core::traits::PartialOrd::gt";
const LT: &str = "core::traits::PartialOrd::lt";
const GE: &str = "core::traits::PartialOrd::ge";
const LE: &str = "core::traits::PartialOrd::le";
const EQ: &str = "core::traits::PartialEq::eq";

#[test]
fn double_comparison_simplifiable() {
    let a = arenas(vec![var("x", 1), var("y", 2), call(GT, 0, 1), call(EQ, 0, 1)]);
    let mut d = Vec::new();
    check_double_comparison(&logical(2, LogicalOperator::OrOr, 3), &a, &mut d);
    assert_eq!(messages(&d), vec![(400, SIMPLIFIABLE_COMPARISON.to_string(), Severity::Warning)]);
}

#[test]
fn double_comparison_redundant_and_contradictory() {
    let a = arenas(vec![var("x", 1), var("y", 2), call(LE, 0, 1), call(GE, 0, 1), call(LT, 0, 1), call(EQ, 0, 1)]);
    let mut d = Vec::new();
    check_double_comparison(&logical(2, LogicalOperator::OrOr, 3), &a, &mut d);
    check_double_comparison(&logical(4, LogicalOperator::AndAnd, 5), &a, &mut d);
    check_double_comparison(&logical(4, LogicalOperator::OrOr, 2), &a, &mut d);
    assert_eq!(
        messages(&d),
        vec![
            (400, REDUNDANT_COMPARISON.to_string(), Severity::Warning),
            (400, CONTRADICTORY_COMPARISON.to_string(), Severity::Error),
        ]
    );
}

#[test]
fn double_comparison_reads_swapped_operands_in_order() {
    // 2: x < y, 3: y > x, 4: x <= y, 5: y <= x
    let a = arenas(vec![var("x", 1), var("y", 2), call(LT, 0, 1), call(GT, 1, 0), call(LE, 0, 1), call(LE, 1, 0)]);
    let mut d = Vec::new();
    // `x < y && y > x` says `x < y` twice: nothing contradictory.
    check_double_comparison(&logical(2, LogicalOperator::AndAnd, 3), &a, &mut d);
    assert!(d.is_empty());
    // `x <= y && y <= x` is `x == y`.
    check_double_comparison(&logical(4, LogicalOperator::AndAnd, 5), &a, &mut d);
    // `x <= y || y <= x` always holds.
    check_double_comparison(&logical(4, LogicalOperator::OrOr, 5), &a, &mut d);
    assert_eq!(
        messages(&d),
        vec![
            (400, SIMPLIFIABLE_COMPARISON.to_string(), Severity::Warning),
            (400, REDUNDANT_COMPARISON.to_string(), Severity::Warning),
        ]
    );
}

#[test]
fn double_comparison_greater_and_greater_or_equal_is_not_contradictory() {
    // x = 1, y = 0 meets `x > y && x >= y`.
    let a = arenas(vec![var("x", 1), var("y", 2), call(GT, 0, 1), call(GE, 0, 1)]);
    let mut d = Vec::new();
    check_double_comparison(&logical(2, LogicalOperator::AndAnd, 3), &a, &mut d);
    assert!(d.is_empty());
}

#[test]
fn double_comparison_of_different_operands_is_silent() {
    let a = arenas(vec![var("x", 1), var("y", 2), var("z", 3), call(GT, 0, 1), call(EQ, 0, 2)]);
    let mut d = Vec::new();
    check_double_comparison(&logical(3, LogicalOperator::OrOr, 4), &a, &mut d);
    assert!(d.is_empty());
}

#[test]
fn impossible_comparison_with_literal_bounds() {
    // x > 5 && x < 3
    let a = arenas(vec![var("x", 1), literal(5), literal(3), call(GT, 0, 1), call(LT, 0, 2)]);
    let e = logical(3, LogicalOperator::AndAnd, 4);
    let mut d = Vec::new();
    check_impossible_comparision(&e, &a, &mut d);
    assert_eq!(messages(&d), vec![(400, IMPOSSIBLE_COMPARISON.to_string(), Severity::Error)]);
    let mut d = Vec::new();
    check_double_comparison(&e, &a, &mut d);
    assert_eq!(messages(&d), vec![(400, IMPOSSIBLE_COMPARISON.to_string(), Severity::Error)]);
}

#[test]
fn possible_comparison_is_silent() {
    // x > 3 && x < 5
    let a = arenas(vec![var("x", 1), literal(3), literal(5), call(GT, 0, 1), call(LT, 0, 2)]);
    let mut d = Vec::new();
    check_impossible_comparision(&logical(3, LogicalOperator::AndAnd, 4), &a, &mut d);
    assert!(d.is_empty());
    // x >= 4 && x <= 4 leaves x == 4.
    let a = arenas(vec![var("x", 1), literal(4), literal(4), call(GE, 0, 1), call(LE, 0, 2)]);
    check_impossible_comparision(&logical(3, LogicalOperator::AndAnd, 4), &a, &mut d);
    assert!(d.is_empty());
}

#[test]
fn impossible_comparison_reads_a_literal_on_the_left_turned_around() {
    // `5 > x && x < 3` holds for x = 0.
    let a = arenas(vec![var("x", 1), literal(5), literal(3), call(GT, 1, 0), call(LT, 0, 2)]);
    let e = logical(3, LogicalOperator::AndAnd, 4);
    let mut d = Vec::new();
    check_impossible_comparision(&e, &a, &mut d);
    check_double_comparison(&e, &a, &mut d);
    assert!(d.is_empty());
    // `5 < x && x < 3` is `x > 5 && x < 3`: no x meets it.
    let a = arenas(vec![var("x", 1), literal(5), literal(3), call(LT, 1, 0), call(LT, 0, 2)]);
    check_impossible_comparision(&e, &a, &mut d);
    assert_eq!(messages(&d), vec![(400, IMPOSSIBLE_COMPARISON.to_string(), Severity::Error)]);
}

const INT_GE: &str = "core::integer::U32PartialOrd::ge";
const INT_ADD: &str = "core::integer::U32Add::add";
const INT_SUB: &str = "core::integer::U32Sub::sub";
const INT_MUL: &str = "core::integer::U32Mul::mul";

fn int_call(op: &str, a: usize, b: usize) -> ExprFunctionCall {
    match call(op, a, b) {
        Expr::FunctionCall(c) => c,
        _ => unreachable!(),
    }
}

#[test]
fn int_plus_one_needs_an_addition_of_one() {
    // 3: y + 1, 4: x >= y + 1
    let a = arenas(vec![var("x", 1), var("y", 2), literal(1), call(INT_ADD, 1, 2), call(INT_GE, 0, 3)]);
    let mut d = Vec::new();
    check_int_plus_one(&int_call(INT_GE, 0, 3), &a, &mut d);
    assert_eq!(messages(&d), vec![(300, INT_GE_PLUS_ONE.to_string(), Severity::Warning)]);
    // `x >= y - 1`, `x >= y * 1` and `x >= y + 2` are not reported.
    for (op, lit) in [(INT_SUB, 1), (INT_MUL, 1), (INT_ADD, 2)] {
        let a = arenas(vec![var("x", 1), var("y", 2), literal(lit), call(op, 1, 2), call(INT_GE, 0, 3)]);
        let mut d = Vec::new();
        check_int_plus_one(&int_call(INT_GE, 0, 3), &a, &mut d);
        assert!(d.is_empty());
    }
}

#[test]
fn eq_op_flags_identical_operands() {
    let a = arenas(vec![var("x", 1), var("x", 1), var("y", 2)]);
    let same = match call(EQ, 0, 1) {
        Expr::FunctionCall(c) => c,
        _ => unreachable!(),
    };
    let different = match call(EQ, 0, 2) {
        Expr::FunctionCall(c) => c,
        _ => unreachable!(),
    };
    let mut d = Vec::new();
    check_eq_op(&same, &a, &mut d);
    check_eq_op(&different, &a, &mut d);
    assert_eq!(messages(&d), vec![(300, EQ_COMP_OP.to_string(), Severity::Warning)]);
}

fn variant_pattern(path: &str, name: &str) -> Pattern {
    Pattern::EnumVariant(PatternEnumVariant {
        node: node_at(500, name),
        variant_path: path.to_string(),
        variant_name: name.to_string(),
        ty: "core::option::Option::<u32>".to_string(),
        enum_variants: 2,
        inner_pattern: None,
    })
}

fn bool_ctor(path: &str, text: &str) -> Expr {
    Expr::EnumVariantCtor(ExprEnumVariantCtor {
        node: node_at(600, text),
        variant_path: path.to_string(),
        value_expr: 1,
    })
}

fn is_some_match() -> (Arenas, ExprMatch) {
    let a = Arenas {
        exprs: vec![
            var("opt", 1),
            Expr::Tuple(node_at(700, "()"), vec![]),
            bool_ctor("core::bool::True", "true"),
            bool_ctor("core::bool::False", "false"),
        ],
        patterns: vec![
            variant_pattern("core::option::Option::Some", "Some"),
            variant_pattern("core::option::Option::None", "None"),
        ],
        statements: vec![],
    };
    let m = ExprMatch {
        node: node_at(800, "match opt { .. }"),
        matched_expr: 0,
        arms: vec![
            MatchArm { patterns: vec![0], expression: 2, expression_syntax: AstExpr::True(node_at(601, "true")) },
            MatchArm { patterns: vec![1], expression: 3, expression_syntax: AstExpr::False(node_at(602, "false")) },
        ],
        ty_is_unit: false,
    };
    (a, m)
}

#[test]
fn manual_is_some_is_reported() {
    let (a, m) = is_some_match();
    assert!(check_manual(&m, &a, ManualLint::ManualIsSome, "manual_is_some"));
    assert!(!check_manual(&m, &a, ManualLint::ManualIsNone, "manual_is_none"));
    let mut d = Vec::new();
    check_manual_is(&a, &m, &mut d);
    assert_eq!(messages(&d), vec![(800, MANUAL_IS_SOME.to_string(), Severity::Warning)]);
}

#[test]
fn manual_is_some_respects_allow() {
    let (a, mut m) = is_some_match();
    m.node.allowed = vec!["manual_is_some".to_string()];
    let mut d = Vec::new();
    check_manual_is(&a, &m, &mut d);
    assert!(d.is_empty());
}

use cairo_lint_core::lints::bitwise_for_parity_check::{check_bitwise_for_parity, BITWISE_FOR_PARITY};
use cairo_lint_core::lints::panic::{check_panic_usage, PANIC_IN_CODE};
use cairo_lint_core::lints::single_match::{check_single_match, DESTRUCT_MATCH, MATCH_FOR_EQUALITY};
use cairo_lint_core::syntax::ExprListParenthesized;

const AND: &str = "core::traits::BitAnd::bitand";

#[test]
fn bitwise_and_one_is_a_parity_check() {
    let a = arenas(vec![var("x", 1), literal(1), literal(2), call(AND, 0, 1), call(AND, 0, 2)]);
    let mut d = Vec::new();
    for i in [3, 4] {
        if let Expr::FunctionCall(c) = &a.exprs[i] {
            check_bitwise_for_parity(c, &a, &mut d);
        }
    }
    assert_eq!(messages(&d), vec![(300, BITWISE_FOR_PARITY.to_string(), Severity::Warning)]);
}

fn panic_call(from_macro: bool, origin: Option<SyntaxNode>) -> ExprFunctionCall {
    ExprFunctionCall {
        node: node_at(900, "panic(data)"),
        function: FunctionId {
            full_name: "core::panics::panic".to_string(),
            name: "\"panic\"".to_string(),
            body: FunctionBody::NoBody,
        },
        args: vec![],
        origin: CallOrigin { from_macro, origin_node: origin },
    }
}

#[test]
fn panic_is_reported_where_it_is_written() {
    let mut d = Vec::new();
    check_panic_usage(&panic_call(false, None), &mut d);
    check_panic_usage(&panic_call(true, Some(node_at(901, "panic!(\"x\")"))), &mut d);
    let mut allowed = node_at(902, "panic!(\"y\")");
    allowed.allowed = vec!["panic".to_string()];
    check_panic_usage(&panic_call(true, Some(allowed)), &mut d);
    check_panic_usage(&panic_call(true, None), &mut d);
    assert_eq!(
        messages(&d),
        vec![
            (900, PANIC_IN_CODE.to_string(), Severity::Warning),
            (901, PANIC_IN_CODE.to_string(), Severity::Warning),
        ]
    );
}

fn unit_syntax() -> AstExpr {
    AstExpr::Tuple(ExprListParenthesized { node: node_at(950, "()"), expressions: vec![] })
}

fn single_match(first: Pattern, second: Pattern, second_syntax: AstExpr, unit: bool) -> (Arenas, ExprMatch) {
    let a = Arenas {
        exprs: vec![var("opt", 1), Expr::Other(node_at(951, "f(x)")), Expr::Tuple(node_at(952, "()"), vec![])],
        patterns: vec![variant_pattern("core::option::Option::Some", "Some"), first, second],
        statements: vec![],
    };
    let m = ExprMatch {
        node: node_at(960, "match opt { .. }"),
        matched_expr: 0,
        arms: vec![
            MatchArm { patterns: vec![1], expression: 1, expression_syntax: AstExpr::Other(node_at(953, "f(x)")) },
            MatchArm { patterns: vec![2], expression: 2, expression_syntax: second_syntax },
        ],
        ty_is_unit: unit,
    };
    (a, m)
}

fn some_binding() -> Pattern {
    Pattern::EnumVariant(PatternEnumVariant {
        node: node_at(970, "Option::Some(x)"),
        variant_path: "core::option::Option::Some".to_string(),
        variant_name: "Some".to_string(),
        ty: "core::option::Option::<u32>".to_string(),
        enum_variants: 2,
        inner_pattern: Some(0),
    })
}

#[test]
fn single_match_destructuring_and_equality() {
    let mut d = Vec::new();
    let (a, m) = single_match(some_binding(), Pattern::Otherwise(node_at(971, "_")), unit_syntax(), true);
    check_single_match(&m, &mut d, &a);
    let (a, m) = single_match(Pattern::Literal(node_at(972, "1")), Pattern::Otherwise(node_at(971, "_")), unit_syntax(), true);
    check_single_match(&m, &mut d, &a);
    assert_eq!(
        messages(&d),
        vec![
            (960, DESTRUCT_MATCH.to_string(), Severity::Warning),
            (960, MATCH_FOR_EQUALITY.to_string(), Severity::Warning),
        ]
    );
}

#[test]
fn single_match_needs_a_unit_match_with_an_empty_second_arm() {
    let mut d = Vec::new();
    let (a, m) = single_match(some_binding(), Pattern::Otherwise(node_at(971, "_")), unit_syntax(), false);
    check_single_match(&m, &mut d, &a);
    let (a, m) = single_match(some_binding(), Pattern::Otherwise(node_at(971, "_")), AstExpr::Other(node_at(973, "g()")), true);
    check_single_match(&m, &mut d, &a);
    assert!(d.is_empty());
}

use cairo_lint_core::lints::manual_unwrap_or_default::parse_and_extract;
use cairo_lint_core::semantic::{Condition, ExprBlock, ExprIf};

#[test]
fn parse_and_extract_takes_the_tails_of_an_if_let() {
    // if let Option::Some(x) = opt { x } else { Default::default() }
    let a = Arenas {
        exprs: vec![
            var("opt", 1),
            var("x", 2),
            Expr::Block(ExprBlock { node: node_at(1000, "{ x }"), statements: vec![], tail: Some(1) }),
            Expr::Other(node_at(1001, "Default::default()")),
            Expr::Block(ExprBlock { node: node_at(1002, "{ Default::default() }"), statements: vec![], tail: Some(3) }),
        ],
        patterns: vec![variant_pattern("core::option::Option::Some", "Some")],
        statements: vec![],
    };
    let e = Expr::If(ExprIf {
        node: node_at(1003, "if let .."),
        condition: Condition::Let(0, vec![0]),
        if_block: 2,
        else_block: Some(4),
    });
    assert_eq!(parse_and_extract(&e, &a), Some((1, Some(3))));
    let m = Expr::Match(is_some_match().1);
    assert_eq!(parse_and_extract(&m, &is_some_match().0), Some((2, Some(3))));
    assert_eq!(parse_and_extract(&var("y", 3), &a), None);
}
