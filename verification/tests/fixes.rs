use cairo_lint_core::fix::apply::{apply_fixes, select_fixable, sort_fixes_desc, Fix, TextSpan};
use cairo_lint_core::fix::dispatch::{fix_input_fits, fix_semantic_diagnostic, FixNode, SemanticDiagnosticKind};
use cairo_lint_core::plugin::CairoLintKind;
use cairo_lint_core::syntax::{BinaryOperator, Expr, ExprBinary};
use cairo_lint_core::fix::helper::{invert_condition, invert_simple_condition};
use cairo_lint_core::fix::indent_snippet;
use cairo_lint_core::syntax::{NodeRef, SyntaxNode};

fn fix(start: usize, end: usize, suggestion: &str) -> Fix {
    Fix { span: TextSpan { start, end }, suggestion: suggestion.to_string() }
}

fn starts(fixes: &[Fix]) -> Vec<usize> {
    fixes.iter().map(|f| f.span.start).collect()
}

fn node(text: &str) -> SyntaxNode {
    SyntaxNode {
        ptr: NodeRef { id: 1, start: 0, end: text.len() },
        text: text.to_string(),
        leading_trivia: String::new(),
        text_without_trivia: text.trim().to_string(),
        allowed: vec![],
    }
}

#[test]
fn indent_snippet_indents_nested_blocks() {
    let out = indent_snippet("fn f() {\nlet x = 1;\nif x {\nx\n}\n}", 0);
    assert_eq!(out, "fn f() {\n    let x = 1;\n    if x {\n        x\n    }\n}");
}

#[test]
fn indent_snippet_starts_at_initial_level() {
    let out = indent_snippet("  a {\n   b\n  }", 1);
    assert_eq!(out, "    a {\n        b\n    }");
}

#[test]
fn indent_snippet_leaves_empty_lines_bare() {
    assert_eq!(indent_snippet("x\n\ny", 2), "        x\n\n        y");
    assert_eq!(indent_snippet("", 3), "");
}

#[test]
fn indent_snippet_never_goes_below_zero() {
    assert_eq!(indent_snippet("}\n}\nx", 0), "}\n}\nx");
}

#[test]
fn invert_simple_condition_swaps_each_operator() {
    assert_eq!(invert_simple_condition("a >= b"), "a < b");
    assert_eq!(invert_simple_condition("a <= b"), "a > b");
    assert_eq!(invert_simple_condition("a > b"), "a <= b");
    assert_eq!(invert_simple_condition("a < b"), "a >= b");
    assert_eq!(invert_simple_condition("a == b"), "a != b");
    assert_eq!(invert_simple_condition("a != b"), "a == b");
}

#[test]
fn invert_simple_condition_negates_other_conditions() {
    assert_eq!(invert_simple_condition("done"), "!(done)");
}

#[test]
fn invert_simple_condition_twice_gives_the_comparison_back() {
    for c in ["x >= 10", "x <= y", "i > 0", "i < n", "a == b", "a != b"] {
        assert_eq!(invert_simple_condition(&invert_simple_condition(c)), c);
    }
}

#[test]
fn invert_condition_applies_de_morgan() {
    assert_eq!(invert_condition("a >= b && c == d"), "a < b || c != d");
    assert_eq!(invert_condition("x || y < 3"), "!(x) && y >= 3");
    assert_eq!(invert_condition("n > 0"), "n <= 0");
}

#[test]
fn invert_condition_negates_mixed_conditions() {
    // `a && b || c` is `(a && b) || c`; its negation is `(!a || !b) && !c`.
    assert_eq!(invert_condition("a && b || c"), "(!(a) || !(b)) && !(c)");
    assert_eq!(invert_condition("x > 1 || y < 2 && z == 3"), "x <= 1 && (y >= 2 || z != 3)");
    assert_eq!(
        invert_condition("a && b || c && d || e"),
        "(!(a) || !(b)) && (!(c) || !(d)) && !(e)"
    );
}

#[test]
fn invert_condition_twice_gives_a_conjunction_of_comparisons_back() {
    for c in ["a >= b && c == d", "i < n && j != 0 && k <= 3"] {
        assert_eq!(invert_condition(&invert_condition(c)), c);
    }
}

#[test]
fn invert_condition_twice_gives_a_disjunction_of_comparisons_back() {
    for c in ["a >= b || c == d", "i < n || j != 0 || k <= 3"] {
        assert_eq!(invert_condition(&invert_condition(c)), c);
    }
}

#[test]
fn invert_condition_of_a_list_inverts_each_part() {
    assert_eq!(invert_condition("p && q && r"), "!(p) || !(q) || !(r)");
    assert_eq!(invert_condition("p || q || r"), "!(p) && !(q) && !(r)");
}

#[test]
fn indent_snippet_twice_changes_nothing() {
    for (s, n) in [("fn f() {\nlet x = 1;\n   if x {\nx\n}\n}", 0), ("  a {\n   b\n  }\n\n}", 2), ("", 1)] {
        let once = indent_snippet(s, n);
        assert_eq!(indent_snippet(&once, n), once);
    }
}

#[test]
fn sort_fixes_desc_orders_by_decreasing_start() {
    let sorted = sort_fixes_desc(vec![fix(0, 1, "a"), fix(5, 6, "b"), fix(3, 4, "c")]);
    assert_eq!(starts(&sorted), vec![5, 3, 0]);
    assert_eq!(sorted[0].suggestion, "b");
}

#[test]
fn sort_fixes_desc_is_stable() {
    let sorted = sort_fixes_desc(vec![fix(2, 3, "first"), fix(7, 8, "x"), fix(2, 2, "second")]);
    assert_eq!(starts(&sorted), vec![7, 2, 2]);
    assert_eq!(sorted[1].suggestion, "first");
    assert_eq!(sorted[2].suggestion, "second");
}

#[test]
fn select_fixable_keeps_a_single_fix() {
    assert_eq!(starts(&select_fixable(&vec![fix(4, 9, "x")])), vec![4]);
    assert!(select_fixable(&vec![]).is_empty());
}

#[test]
fn select_fixable_drops_overlapping_fixes() {
    // 5..6 clears 3..4, 3..4 clears 0..1, and the last has nothing after it.
    let kept = select_fixable(&vec![fix(5, 6, "a"), fix(3, 4, "b"), fix(0, 1, "c")]);
    assert_eq!(starts(&kept), vec![5, 3, 0]);
    // 4..8 overlaps 2..5, so it is dropped.
    let kept = select_fixable(&vec![fix(4, 8, "a"), fix(2, 5, "b"), fix(0, 1, "c")]);
    assert_eq!(starts(&kept), vec![2, 0]);
}

#[test]
fn select_fixable_keeps_both_of_two_disjoint_fixes() {
    let kept = select_fixable(&vec![fix(10, 15, "a"), fix(0, 5, "b")]);
    assert_eq!(starts(&kept), vec![10, 0]);
    let content = b"hello big world".to_vec();
    let out = apply_fixes(&content, &kept);
    assert_eq!(String::from_utf8(out).unwrap(), "b big a");
}

#[test]
fn apply_fixes_replaces_from_the_end() {
    let content = b"hello world".to_vec();
    let out = apply_fixes(&content, &vec![fix(6, 11, "there"), fix(0, 5, "HELLO")]);
    assert_eq!(String::from_utf8(out).unwrap(), "HELLO there");
}

#[test]
fn apply_fixes_in_place_of_original_spans() {
    // Disjoint fixes sorted by decreasing start each replace their own span of
    // the original text, even where a replacement changes the length.
    let content = b"let a = b;".to_vec();
    let out = apply_fixes(&content, &vec![fix(8, 9, "ccc"), fix(4, 5, "")]);
    assert_eq!(String::from_utf8(out).unwrap(), "let  = ccc;");
    let out = apply_fixes(&content, &vec![]);
    assert_eq!(out, content);
}

#[test]
fn apply_fixes_writes_utf8() {
    let content = "x = 1".as_bytes().to_vec();
    let out = apply_fixes(&content, &vec![fix(4, 5, "é")]);
    assert_eq!(String::from_utf8(out).unwrap(), "x = é");
}

#[test]
fn fix_semantic_diagnostic_has_none_for_other_kinds() {
    let n = FixNode::Other(node("break ();"));
    assert!(fix_semantic_diagnostic(&SemanticDiagnosticKind::UnusedImport, &n).is_none());
    assert!(fix_semantic_diagnostic(&SemanticDiagnosticKind::Other, &n).is_none());
}

#[test]
fn fix_input_fits_checks_the_node_shape() {
    assert!(fix_input_fits(CairoLintKind::BreakUnit, &FixNode::Other(node("break ();"))));
    assert!(!fix_input_fits(CairoLintKind::DoubleParens, &FixNode::Other(node("((x))"))));
    let binary = Expr::Binary(ExprBinary {
        node: node("x == true"),
        lhs: Box::new(Expr::Other(node("x"))),
        op: BinaryOperator::EqEq,
        rhs: Box::new(Expr::True(node("true"))),
    });
    assert!(fix_input_fits(CairoLintKind::BoolComparison, &FixNode::Expr(binary)));
    assert!(!fix_input_fits(CairoLintKind::BoolComparison, &FixNode::Expr(Expr::Other(node("x")))));
    assert!(!fix_input_fits(CairoLintKind::IntGePlusOne, &FixNode::Expr(Expr::Other(node("x")))));
}
