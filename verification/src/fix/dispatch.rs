//! Which rewrite fixes which diagnostic: by the kind of its message, on the
//! node that it points at.
use vstd::prelude::*;

use crate::diagnostics::PluginDiagnostic;
use crate::fix::manual_fixes::{
    collapsible_if_fix,
    comparison_text,
    equatable_if_let_fix,
    err_call_input,
    inspected,
    is_if_let,
    is_match_or_if_let,
    left_of,
    loop_break_fix,
    manual_fix_text,
    method_with_err_text,
};
use crate::fix::rewrites::{
    collapsible_if_else_fix,
    destruct_match_fix,
    destruct_match_input,
    double_comparison_fix,
    double_parens_fix,
    loop_match_pop_front_fix,
    loop_match_pop_front_input,
};
use crate::fix::manual_fixes::{if_let_with_err_else, match_with_err_arm};
use crate::fix::rewrites::pop_front_match;
use crate::fix::{fix_view, Fixer};
use crate::lints::bool_comparison::fixed_text_for_comparison;
use crate::plugin::{diagnostic_kind_from_message, kind_of_message, CairoLintKind};
use crate::syntax::{
    BlockOrIf,
    ConditionKind,
    Expr,
    ExprIf,
    ExprLoop,
    ExprMatch,
    NodeRef,
    OptionElseClause,
    Pattern,
    StatementKind,
    SyntaxNode,
};
use crate::text::{leading_ws, replace};

verus! {

/// The node that a diagnostic points at: an expression, or another node.
#[derive(Debug)]
pub enum FixNode {
    Expr(Expr),
    Other(SyntaxNode),
}

impl FixNode {
    /// The syntax node.
    pub open spec fn spec_node(&self) -> SyntaxNode {
        match self {
            FixNode::Expr(e) => e.spec_node(),
            FixNode::Other(n) => *n,
        }
    }

    /// The syntax node.
    pub fn node(&self) -> (r: &SyntaxNode)
        ensures
            *r == self.spec_node(),
    {
        match self {
            FixNode::Expr(e) => e.node(),
            FixNode::Other(n) => n,
        }
    }
}

/// The kinds of semantic diagnostics that fixes tell apart.
#[derive(Debug)]
pub enum SemanticDiagnosticKind {
    PluginDiagnostic(PluginDiagnostic),
    UnusedImport,
    UnsupportedAllowAttrArguments,
    Other,
}

/// The node has the shape that the fix of `kind` reads.
pub open spec fn fix_input_ok(kind: CairoLintKind, node: FixNode) -> bool {
    match node {
        FixNode::Expr(e) => match kind {
            CairoLintKind::DestructMatch => match e {
                Expr::Match(m) => destruct_match_input(*m),
                _ => false,
            },
            CairoLintKind::EquatableIfLet => match e {
                Expr::If(i) => is_if_let(*i),
                _ => false,
            },
            CairoLintKind::CollapsibleIf | CairoLintKind::CollapsibleIfElse => e is If,
            CairoLintKind::BoolComparison => e is Binary,
            CairoLintKind::LoopMatchPopFront => match e {
                Expr::Loop(l) => loop_match_pop_front_input(l),
                _ => false,
            },
            CairoLintKind::LoopForWhile => e is Loop,
            CairoLintKind::ManualUnwrapOrDefault | CairoLintKind::ManualOk | CairoLintKind::ManualErr
            | CairoLintKind::ManualIsSome | CairoLintKind::ManualIsNone | CairoLintKind::ManualIsOk
            | CairoLintKind::ManualIsErr => is_match_or_if_let(e),
            CairoLintKind::ManualOkOr | CairoLintKind::ManualExpect => err_call_input(e, 1),
            CairoLintKind::ManualExpectErr => err_call_input(e, 0),
            CairoLintKind::IntGePlusOne | CairoLintKind::IntLeMinOne => match e {
                Expr::Binary(b) => *b.rhs is Binary,
                _ => false,
            },
            CairoLintKind::IntGeMinOne | CairoLintKind::IntLePlusOne => match e {
                Expr::Binary(b) => *b.lhs is Binary,
                _ => false,
            },
            _ => true,
        },
        FixNode::Other(_) => match kind {
            CairoLintKind::BreakUnit => true,
            CairoLintKind::DoubleParens | CairoLintKind::DestructMatch
            | CairoLintKind::DoubleComparison | CairoLintKind::EquatableIfLet
            | CairoLintKind::CollapsibleIf | CairoLintKind::BoolComparison
            | CairoLintKind::CollapsibleIfElse | CairoLintKind::LoopMatchPopFront
            | CairoLintKind::ManualUnwrapOrDefault | CairoLintKind::LoopForWhile
            | CairoLintKind::ManualOkOr | CairoLintKind::ManualOk | CairoLintKind::ManualErr
            | CairoLintKind::ManualIsSome | CairoLintKind::ManualExpect
            | CairoLintKind::ManualExpectErr | CairoLintKind::ManualIsNone
            | CairoLintKind::ManualIsOk | CairoLintKind::ManualIsErr | CairoLintKind::IntGePlusOne
            | CairoLintKind::IntGeMinOne | CairoLintKind::IntLePlusOne
            | CairoLintKind::IntLeMinOne => false,
            _ => true,
        },
    }
}

/// The fix of a diagnostic of `kind` on `node`: the rewrite of that kind, or
/// none for the kinds without one.
pub open spec fn plugin_fix(kind: CairoLintKind, node: FixNode) -> Option<(NodeRef, Seq<char>)> {
    let n = node.spec_node();
    match node {
        FixNode::Expr(e) => match kind {
            CairoLintKind::DoubleParens => double_parens_fix(e),
            CairoLintKind::DestructMatch => match e {
                Expr::Match(m) => destruct_match_fix(*m),
                _ => None,
            },
            CairoLintKind::DoubleComparison => double_comparison_fix(e),
            CairoLintKind::EquatableIfLet => match e {
                Expr::If(i) => Some(equatable_if_let_fix(*i)),
                _ => None,
            },
            CairoLintKind::BreakUnit => Some((n.ptr, replace(n.text@, "break ();"@, "break;"@))),
            CairoLintKind::CollapsibleIf => match e {
                Expr::If(i) => collapsible_if_fix(*i),
                _ => None,
            },
            CairoLintKind::BoolComparison => match e {
                Expr::Binary(b) => Some(
                    (
                        b.node.ptr,
                        fixed_text_for_comparison(
                            b.lhs.spec_node().text@,
                            b.rhs.spec_node().text@,
                            b,
                        ),
                    ),
                ),
                _ => None,
            },
            CairoLintKind::CollapsibleIfElse => match e {
                Expr::If(i) => collapsible_if_else_fix(*i),
                _ => None,
            },
            CairoLintKind::LoopMatchPopFront => match e {
                Expr::Loop(l) => loop_match_pop_front_fix(l),
                _ => None,
            },
            CairoLintKind::ManualUnwrapOrDefault => Some(
                (
                    n.ptr,
                    leading_ws(n.text@) + inspected(e).spec_node().text_without_trivia@
                        + ".unwrap_or_default()"@,
                ),
            ),
            CairoLintKind::LoopForWhile => match e {
                Expr::Loop(l) => Some(loop_break_fix(l)),
                _ => None,
            },
            CairoLintKind::ManualOkOr => Some((n.ptr, method_with_err_text(e, 1, "ok_or"@))),
            CairoLintKind::ManualOk => Some((n.ptr, manual_fix_text("ok"@, e))),
            CairoLintKind::ManualErr => Some((n.ptr, manual_fix_text("err"@, e))),
            CairoLintKind::ManualIsSome => Some((n.ptr, manual_fix_text("is_some"@, e))),
            CairoLintKind::ManualExpect => Some((n.ptr, method_with_err_text(e, 1, "expect"@))),
            CairoLintKind::ManualExpectErr => Some(
                (n.ptr, method_with_err_text(e, 0, "expect_err"@)),
            ),
            CairoLintKind::ManualIsNone => Some((n.ptr, manual_fix_text("is_none"@, e))),
            CairoLintKind::ManualIsOk => Some((n.ptr, manual_fix_text("is_ok"@, e))),
            CairoLintKind::ManualIsErr => Some((n.ptr, manual_fix_text("is_err"@, e))),
            CairoLintKind::IntGePlusOne => match e {
                Expr::Binary(b) => Some(
                    (
                        b.node.ptr,
                        comparison_text(
                            b.lhs.spec_node().text@,
                            ">"@,
                            left_of(*b.rhs).spec_node().text@,
                        ),
                    ),
                ),
                _ => None,
            },
            CairoLintKind::IntGeMinOne => match e {
                Expr::Binary(b) => Some(
                    (
                        b.node.ptr,
                        comparison_text(
                            left_of(*b.lhs).spec_node().text@,
                            ">"@,
                            b.rhs.spec_node().text@,
                        ),
                    ),
                ),
                _ => None,
            },
            CairoLintKind::IntLePlusOne => match e {
                Expr::Binary(b) => Some(
                    (
                        b.node.ptr,
                        comparison_text(
                            left_of(*b.lhs).spec_node().text@,
                            "<"@,
                            b.rhs.spec_node().text@,
                        ),
                    ),
                ),
                _ => None,
            },
            CairoLintKind::IntLeMinOne => match e {
                Expr::Binary(b) => Some(
                    (
                        b.node.ptr,
                        comparison_text(
                            b.lhs.spec_node().text@,
                            "<"@,
                            left_of(*b.rhs).spec_node().text@,
                        ),
                    ),
                ),
                _ => None,
            },
            _ => None,
        },
        FixNode::Other(o) => match kind {
            CairoLintKind::BreakUnit => Some((o.ptr, replace(o.text@, "break ();"@, "break;"@))),
            _ => None,
        },
    }
}

impl Fixer {
    /// The fix of a lint diagnostic on the node that it points at, chosen by the
    /// kind of its message; `None` for the kinds without a fix.
    pub fn fix_plugin_diagnostic(&self, plugin_diag: &PluginDiagnostic, node: &FixNode) -> (r:
        Option<(NodeRef, String)>)
        requires
            fix_input_ok(kind_of_message(plugin_diag.message@), *node),
        ensures
            fix_view(r) == plugin_fix(kind_of_message(plugin_diag.message@), *node),
    {
        let kind = diagnostic_kind_from_message(plugin_diag.message.as_str());
        match node {
            FixNode::Expr(e) => match kind {
                CairoLintKind::DoubleParens => self.fix_double_parens(e),
                CairoLintKind::DestructMatch => match e {
                    Expr::Match(m) => self.fix_destruct_match(m),
                    _ => None,
                },
                CairoLintKind::DoubleComparison => self.fix_double_comparison(e),
                CairoLintKind::EquatableIfLet => match e {
                    Expr::If(i) => self.fix_equatable_if_let(i),
                    _ => None,
                },
                CairoLintKind::BreakUnit => self.fix_break_unit(e.node()),
                CairoLintKind::CollapsibleIf => match e {
                    Expr::If(i) => self.fix_collapsible_if(i),
                    _ => None,
                },
                CairoLintKind::BoolComparison => match e {
                    Expr::Binary(b) => self.fix_bool_comparison(b),
                    _ => None,
                },
                CairoLintKind::CollapsibleIfElse => match e {
                    Expr::If(i) => self.fix_collapsible_if_else(i),
                    _ => None,
                },
                CairoLintKind::LoopMatchPopFront => match e {
                    Expr::Loop(l) => self.fix_loop_match_pop_front(l),
                    _ => None,
                },
                CairoLintKind::ManualUnwrapOrDefault => self.fix_manual_unwrap_or_default(e),
                CairoLintKind::LoopForWhile => match e {
                    Expr::Loop(l) => self.fix_loop_break(l),
                    _ => None,
                },
                CairoLintKind::ManualOkOr => self.fix_manual_ok_or(e),
                CairoLintKind::ManualOk => self.fix_manual_ok(e),
                CairoLintKind::ManualErr => self.fix_manual_err(e),
                CairoLintKind::ManualIsSome => self.fix_manual_is_some(e),
                CairoLintKind::ManualExpect => self.fix_manual_expect(e),
                CairoLintKind::ManualExpectErr => self.fix_manual_expect_err(e),
                CairoLintKind::ManualIsNone => self.fix_manual_is_none(e),
                CairoLintKind::ManualIsOk => self.fix_manual_is_ok(e),
                CairoLintKind::ManualIsErr => self.fix_manual_is_err(e),
                CairoLintKind::IntGePlusOne => match e {
                    Expr::Binary(b) => self.fix_int_ge_plus_one(b),
                    _ => None,
                },
                CairoLintKind::IntGeMinOne => match e {
                    Expr::Binary(b) => self.fix_int_ge_min_one(b),
                    _ => None,
                },
                CairoLintKind::IntLePlusOne => match e {
                    Expr::Binary(b) => self.fix_int_le_plus_one(b),
                    _ => None,
                },
                CairoLintKind::IntLeMinOne => match e {
                    Expr::Binary(b) => self.fix_int_le_min_one(b),
                    _ => None,
                },
                _ => None,
            },
            FixNode::Other(o) => match kind {
                CairoLintKind::BreakUnit => self.fix_break_unit(o),
                _ => None,
            },
        }
    }
}

/// The fix of a semantic diagnostic: that of a lint diagnostic, none for any
/// other kind.
pub fn fix_semantic_diagnostic(diag: &SemanticDiagnosticKind, node: &FixNode) -> (r: Option<
    (NodeRef, String),
>)
    requires
        diag matches SemanticDiagnosticKind::PluginDiagnostic(p) ==> fix_input_ok(
            kind_of_message(p.message@),
            *node,
        ),
    ensures
        fix_view(r) == match diag {
            SemanticDiagnosticKind::PluginDiagnostic(p) => plugin_fix(
                kind_of_message(p.message@),
                *node,
            ),
            _ => None,
        },
{
    match diag {
        SemanticDiagnosticKind::PluginDiagnostic(plugin_diag) => Fixer.fix_plugin_diagnostic(
            plugin_diag,
            node,
        ),
        _ => None,
    }
}

fn destruct_input_exec(m: &ExprMatch) -> (r: bool)
    ensures
        r == destruct_match_input(*m),
{
    if m.arms.len() < 2 || m.arms[0].patterns.len() == 0 || m.arms[1].patterns.len() == 0 {
        return false;
    }
    let p0 = &m.arms[0].patterns[0];
    let p1 = &m.arms[1].patterns[0];
    let r = match (p0, p1) {
        (Pattern::Underscore(_), Pattern::Enum(_)) => true,
        (Pattern::Enum(_), Pattern::Underscore(_)) => true,
        (Pattern::Underscore(_), Pattern::Struct(_)) => true,
        (Pattern::Struct(_), Pattern::Underscore(_)) => true,
        (Pattern::Enum(_), Pattern::Enum(_)) => true,
        _ => false,
    };
    r
}

fn is_if_let_exec(i: &ExprIf) -> (r: bool)
    ensures
        r == is_if_let(*i),
{
    match &i.condition.kind {
        ConditionKind::Let(_, _) => true,
        _ => false,
    }
}

fn pop_front_input_exec(l: &ExprLoop) -> (r: bool)
    ensures
        r == loop_match_pop_front_input(*l),
{
    if l.body.statements.len() == 0 {
        return false;
    }
    let m = match &l.body.statements[0].kind {
        StatementKind::Expr(Expr::Match(m)) => m,
        _ => {
            return false;
        },
    };
    assert(**m == pop_front_match(*l));
    let call_ok = match &*m.expr {
        Expr::FunctionCall(f) => f.arguments.len() > 0,
        Expr::Binary(_) => true,
        _ => false,
    };
    if !call_ok {
        return false;
    }
    let mut k: usize = 0;
    while k < m.arms.len()
        invariant
            k <= m.arms@.len(),
            **m == pop_front_match(*l),
            forall|j: int| 0 <= j < k ==> #[trigger] m.arms@[j].patterns@.len() > 0,
        decreases m.arms@.len() - k,
    {
        if m.arms[k].patterns.len() == 0 {
            return false;
        }
        k = k + 1;
    }
    true
}

fn err_input_exec(e: &Expr, arm_index: usize) -> (r: bool)
    ensures
        r == err_call_input(*e, arm_index as int),
{
    match e {
        Expr::Match(m) => {
            if m.arms.len() != 2 || arm_index > 1 {
                return false;
            }
            match &m.arms[arm_index].expression {
                Expr::FunctionCall(f) => f.arguments.len() > 0,
                _ => false,
            }
        },
        Expr::If(i) => {
            if !is_if_let_exec(i) {
                return false;
            }
            match &i.else_clause {
                OptionElseClause::ElseClause(c) => match &c.else_block_or_if {
                    BlockOrIf::Block(b) => b.statements.len() > 0 && match &b.statements[0].kind {
                        StatementKind::Expr(Expr::FunctionCall(f)) => f.arguments.len() > 0,
                        _ => false,
                    },
                    _ => false,
                },
                _ => false,
            }
        },
        _ => false,
    }
}

/// Whether the node has the shape that the fix of `kind` reads.
pub fn fix_input_fits(kind: CairoLintKind, node: &FixNode) -> (r: bool)
    ensures
        r == fix_input_ok(kind, *node),
{
    match node {
        FixNode::Expr(e) => match kind {
            CairoLintKind::DestructMatch => match e {
                Expr::Match(m) => destruct_input_exec(m),
                _ => false,
            },
            CairoLintKind::EquatableIfLet => match e {
                Expr::If(i) => is_if_let_exec(i),
                _ => false,
            },
            CairoLintKind::CollapsibleIf | CairoLintKind::CollapsibleIfElse => match e {
                Expr::If(_) => true,
                _ => false,
            },
            CairoLintKind::BoolComparison => match e {
                Expr::Binary(_) => true,
                _ => false,
            },
            CairoLintKind::LoopMatchPopFront => match e {
                Expr::Loop(l) => pop_front_input_exec(l),
                _ => false,
            },
            CairoLintKind::LoopForWhile => match e {
                Expr::Loop(_) => true,
                _ => false,
            },
            CairoLintKind::ManualUnwrapOrDefault | CairoLintKind::ManualOk | CairoLintKind::ManualErr
            | CairoLintKind::ManualIsSome | CairoLintKind::ManualIsNone | CairoLintKind::ManualIsOk
            | CairoLintKind::ManualIsErr => match e {
                Expr::Match(_) => true,
                Expr::If(i) => is_if_let_exec(i),
                _ => false,
            },
            CairoLintKind::ManualOkOr | CairoLintKind::ManualExpect => err_input_exec(e, 1),
            CairoLintKind::ManualExpectErr => err_input_exec(e, 0),
            CairoLintKind::IntGePlusOne | CairoLintKind::IntLeMinOne => match e {
                Expr::Binary(b) => match &*b.rhs {
                    Expr::Binary(_) => true,
                    _ => false,
                },
                _ => false,
            },
            CairoLintKind::IntGeMinOne | CairoLintKind::IntLePlusOne => match e {
                Expr::Binary(b) => match &*b.lhs {
                    Expr::Binary(_) => true,
                    _ => false,
                },
                _ => false,
            },
            _ => true,
        },
        FixNode::Other(_) => match kind {
            CairoLintKind::BreakUnit => true,
            CairoLintKind::DoubleParens | CairoLintKind::DestructMatch
            | CairoLintKind::DoubleComparison | CairoLintKind::EquatableIfLet
            | CairoLintKind::CollapsibleIf | CairoLintKind::BoolComparison
            | CairoLintKind::CollapsibleIfElse | CairoLintKind::LoopMatchPopFront
            | CairoLintKind::ManualUnwrapOrDefault | CairoLintKind::LoopForWhile
            | CairoLintKind::ManualOkOr | CairoLintKind::ManualOk | CairoLintKind::ManualErr
            | CairoLintKind::ManualIsSome | CairoLintKind::ManualExpect
            | CairoLintKind::ManualExpectErr | CairoLintKind::ManualIsNone
            | CairoLintKind::ManualIsOk | CairoLintKind::ManualIsErr | CairoLintKind::IntGePlusOne
            | CairoLintKind::IntGeMinOne | CairoLintKind::IntLePlusOne
            | CairoLintKind::IntLeMinOne => false,
            _ => true,
        },
    }
}

} // verus!
