use cairo_lint_core::fix::Fixer;
use cairo_lint_core::syntax::{
    BinaryOperator, Condition, ConditionKind, Expr, ExprBinary, ExprBlock, ExprIf, ExprLoop, ExprMatch,
    MatchArm, NodeRef, OptionElseClause, Pattern, PatternEnum, Statement, StatementKind, SyntaxNode,
};

fn node(id: u64, text: &str) -> SyntaxNode {
    SyntaxNode {
        ptr: NodeRef { id, start: 0, end: text.len() },
        text: text.to_string(),
        leading_trivia: String::new(),
        text_without_trivia: text.trim().to_string(),
        allowed: vec![],
    }
}

fn other(text: &str) -> Expr {
    Expr::Other(node(90, text))
}

fn binary(id: u64, text: &str, lhs: Expr, op: BinaryOperator, rhs: Expr) -> Expr {
    Expr::Binary(ExprBinary { node: node(id, text), lhs: Box::new(lhs), op, rhs: Box::new(rhs) })
}

fn block(text: &str, statements: Vec<Statement>) -> ExprBlock {
    ExprBlock { node: node(80, text), statements, rbrace_leading_trivia: String::new() }
}

#[test]
fn fix_double_comparison_merges_the_comparisons() {
    let e = binary(
        1,
        "x > y || x == y",
        binary(2, "x > y ", other("x"), BinaryOperator::GT, other("y")),
        BinaryOperator::OrOr,
        binary(3, " x == y", other("x"), BinaryOperator::EqEq, other("y")),
    );
    let (n, text) = Fixer.fix_double_comparison(&e).unwrap();
    assert_eq!(n.id, 1);
    assert_eq!(text, "x >= y ");
    let le_ge = binary(
        4,
        "a <= b && a >= b",
        binary(5, "a <= b ", other("a"), BinaryOperator::LE, other("b")),
        BinaryOperator::AndAnd,
        binary(6, " a >= b", other("a"), BinaryOperator::GE, other("b")),
    );
    assert_eq!(Fixer.fix_double_comparison(&le_ge).unwrap().1, "a == b ");
    assert!(Fixer.fix_double_comparison(&other("x")).is_none());
}

#[test]
fn fix_double_comparison_reads_swapped_operands_in_order() {
    // `x <= y && y >= x` is `x <= y` twice: no single operator to merge into.
    let same = binary(
        1,
        "x <= y && y >= x",
        binary(2, "x <= y ", other("x"), BinaryOperator::LE, other("y")),
        BinaryOperator::AndAnd,
        binary(3, " y >= x", other("y"), BinaryOperator::GE, other("x")),
    );
    assert!(Fixer.fix_double_comparison(&same).is_none());
    // `x <= y && y <= x` is `x == y`.
    let eq = binary(
        4,
        "x <= y && y <= x",
        binary(5, "x <= y ", other("x"), BinaryOperator::LE, other("y")),
        BinaryOperator::AndAnd,
        binary(6, " y <= x", other("y"), BinaryOperator::LE, other("x")),
    );
    assert_eq!(Fixer.fix_double_comparison(&eq).unwrap().1, "x == y ");
    // Comparisons of different operands are left alone.
    let different = binary(
        7,
        "x <= y && z >= x",
        binary(8, "x <= y ", other("x"), BinaryOperator::LE, other("y")),
        BinaryOperator::AndAnd,
        binary(9, " z >= x", other("z"), BinaryOperator::GE, other("x")),
    );
    assert!(Fixer.fix_double_comparison(&different).is_none());
}

#[test]
fn fix_break_unit_drops_the_unit() {
    let (n, text) = Fixer.fix_break_unit(&node(7, "        break ();")).unwrap();
    assert_eq!(n.id, 7);
    assert_eq!(text, "        break;");
}

#[test]
fn fix_destruct_match_writes_an_if_let() {
    let m = ExprMatch {
        node: node(10, "match x {\n    Option::Some(a) => do_smth(a),\n    _ => (),\n}"),
        expr: Box::new(other("x")),
        arms: vec![
            MatchArm {
                node: node(11, "Option::Some(a) => do_smth(a)"),
                patterns: vec![Pattern::Enum(PatternEnum {
                    node: node(12, "Option::Some(a)"),
                    path: node(13, "Option::Some"),
                    inner: Some(node(14, "a")),
                })],
                expression: other("do_smth(a)"),
            },
            MatchArm {
                node: node(15, "_ => ()"),
                patterns: vec![Pattern::Underscore(node(16, "_"))],
                expression: other("()"),
            },
        ],
    };
    let (n, text) = Fixer.fix_destruct_match(&m).unwrap();
    assert_eq!(n.id, 10);
    assert_eq!(text, "if let Option::Some(a) = x {\n    do_smth(a)\n}");
}

fn if_let(else_clause: OptionElseClause) -> ExprIf {
    ExprIf {
        node: node(20, "if let Option::None = a { f(); }"),
        if_kw: node(21, "if "),
        condition: Condition {
            node: node(22, "let Option::None = a"),
            kind: ConditionKind::Let(other("a"), node(23, "Option::None")),
        },
        if_block: block("{ f(); }", vec![]),
        else_clause,
    }
}

#[test]
fn fix_equatable_if_let_compares_with_the_pattern() {
    let (n, text) = Fixer.fix_equatable_if_let(&if_let(OptionElseClause::Empty)).unwrap();
    assert_eq!(n.id, 20);
    assert_eq!(text, "if a == Option::None { f(); }");
}

#[test]
fn fix_manual_is_some_calls_the_method() {
    let e = Expr::If(Box::new(if_let(OptionElseClause::Empty)));
    assert_eq!(Fixer.fix_manual_is_some(&e).unwrap().1, "a.is_some()");
    assert_eq!(Fixer.fix_manual_is_none(&e).unwrap().1, "a.is_none()");
    assert_eq!(Fixer.fix_manual_ok(&e).unwrap().1, "a.ok()");
}

#[test]
fn fix_int_ge_plus_one_drops_the_addition() {
    let e = match binary(
        30,
        "x >= y + 1",
        other("x "),
        BinaryOperator::GE,
        binary(31, " y + 1", other(" y "), BinaryOperator::Plus, other(" 1")),
    ) {
        Expr::Binary(b) => b,
        _ => unreachable!(),
    };
    let (n, text) = Fixer.fix_int_ge_plus_one(&e).unwrap();
    assert_eq!(n.id, 30);
    assert_eq!(text, "x > y ");
}

#[test]
fn fix_collapsible_if_joins_the_conditions() {
    let inner = ExprIf {
        node: node(40, "if b { g(); }"),
        if_kw: node(41, "if "),
        condition: Condition { node: node(42, "b"), kind: ConditionKind::Expr(other("b")) },
        if_block: block("{ g(); }", vec![]),
        else_clause: OptionElseClause::Empty,
    };
    let outer = ExprIf {
        node: node(43, "if a { if b { g(); } }"),
        if_kw: node(44, "if "),
        condition: Condition { node: node(45, "a"), kind: ConditionKind::Expr(other("a")) },
        if_block: block(
            "{ if b { g(); } }",
            vec![Statement { node: node(46, "if b { g(); }"), kind: StatementKind::Expr(Expr::If(Box::new(inner))) }],
        ),
        else_clause: OptionElseClause::Empty,
    };
    let (n, text) = Fixer.fix_collapsible_if(&outer).unwrap();
    assert_eq!(n.id, 43);
    assert_eq!(text, "if (a) && (b) { g(); }");
}

#[test]
fn fix_loop_break_writes_a_while() {
    let cond_if = ExprIf {
        node: node(50, "if i >= n { break; }"),
        if_kw: node(51, "if "),
        condition: Condition { node: node(52, "i >= n"), kind: ConditionKind::Expr(other("i >= n")) },
        if_block: block("{ break; }", vec![Statement { node: node(53, "break;"), kind: StatementKind::Break }]),
        else_clause: OptionElseClause::Empty,
    };
    let l = ExprLoop {
        node: node(54, "loop { if i >= n { break; } i += 1; }"),
        body: block(
            "{ if i >= n { break; } i += 1; }",
            vec![
                Statement { node: node(55, "if i >= n { break; }"), kind: StatementKind::Expr(Expr::If(Box::new(cond_if))) },
                Statement { node: node(56, "i += 1;"), kind: StatementKind::Other },
            ],
        ),
    };
    let (n, text) = Fixer.fix_loop_break(&l).unwrap();
    assert_eq!(n.id, 54);
    assert_eq!(text, "while i < n {\n    i += 1;\n}\n");
}

#[test]
fn fix_loop_match_pop_front_writes_a_for_loop() {
    // loop { match some_span.pop_front() { Option::Some(val) => do_smth(val), Option::None => { break; } } }
    let receiver = binary(60, "some_span.pop_front()", other("some_span"), BinaryOperator::Dot, other("pop_front()"));
    let m = ExprMatch {
        node: node(61, "match some_span.pop_front() { .. }"),
        expr: Box::new(receiver),
        arms: vec![
            MatchArm {
                node: node(62, "Option::Some(val) => do_smth(val)"),
                patterns: vec![Pattern::Enum(PatternEnum {
                    node: node(63, "Option::Some(val)"),
                    path: node(64, "Option::Some"),
                    inner: Some(node(65, "val")),
                })],
                expression: other("do_smth(val)"),
            },
            MatchArm {
                node: node(66, "Option::None => { break; }"),
                patterns: vec![Pattern::Enum(PatternEnum {
                    node: node(67, "Option::None"),
                    path: node(68, "Option::None"),
                    inner: None,
                })],
                expression: Expr::Block(block("{ break; }", vec![])),
            },
        ],
    };
    let l = ExprLoop {
        node: node(69, "loop { .. }"),
        body: block(
            "{ .. }",
            vec![Statement { node: node(70, "match .."), kind: StatementKind::Expr(Expr::Match(Box::new(m))) }],
        ),
    };
    let (n, text) = Fixer.fix_loop_match_pop_front(&l).unwrap();
    assert_eq!(n.id, 69);
    assert_eq!(text, "for val in some_span {\n    do_smth(val)\n};\n");
}

#[test]
fn fix_collapsible_if_keeps_an_if_that_does_not_collapse() {
    let inner = ExprIf {
        node: node(80, "if b { x(); } else { y(); }"),
        if_kw: node(81, "if "),
        condition: Condition { node: node(82, "b"), kind: ConditionKind::Expr(other("b")) },
        if_block: block("{ x(); }", vec![]),
        else_clause: cairo_lint_core::syntax::OptionElseClause::ElseClause(cairo_lint_core::syntax::ElseClause {
            node: node(83, "else { y(); }"),
            else_block_or_if: cairo_lint_core::syntax::BlockOrIf::Block(block("{ y(); }", vec![])),
        }),
    };
    let text = "if a { if b { x(); } else { y(); } }";
    let outer = ExprIf {
        node: node(84, text),
        if_kw: node(85, "if "),
        condition: Condition { node: node(86, "a"), kind: ConditionKind::Expr(other("a")) },
        if_block: block(
            "{ if b { x(); } else { y(); } }",
            vec![Statement { node: node(87, "if b { .. }"), kind: StatementKind::Expr(Expr::If(Box::new(inner))) }],
        ),
        else_clause: OptionElseClause::Empty,
    };
    let (n, fixed) = Fixer.fix_collapsible_if(&outer).unwrap();
    assert_eq!(n.id, 84);
    assert_eq!(fixed, text);
}
