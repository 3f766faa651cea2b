//! Loops that iterate over a span by matching on `pop_front`, which a
//! `for in` loop says more plainly.
use vstd::prelude::*;

use crate::diagnostics::{diag, diag_views, push_diagnostic, DiagView, PluginDiagnostic, Severity};
use crate::semantic::{
    Arenas,
    Expr,
    ExprBlock,
    ExprId,
    ExprLoop,
    ExprMatch,
    Pattern,
    PatternEnumVariant,
    Statement,
};
use crate::syntax::{allows, is_allowed};
use crate::text::{chars_of, starts_with, starts_with_exec, str_eq, trim, trim_exec};

pub mod loop_for_while;

verus! {

broadcast use vstd::seq::Seq::add_empty_right;

pub const LOOP_MATCH_POP_FRONT: &'static str =
    "you seem to be trying to use `loop` for iterating over a span. Consider using `for in`";

pub const SPAN_MATCH_POP_FRONT: &'static str = "\"SpanImpl::pop_front\"";

pub const ALLOWED: [&'static str; 1] = [LINT_NAME];

pub const LINT_NAME: &'static str = "loop_match_pop_front";

pub const OPTION_TYPE: &'static str = "core::option::Option::<";

pub const SOME_VARIANT: &'static str = "Some";

pub const NONE_VARIANT: &'static str = "None";

/// The block holds only `break;` (or `break ();`), with no comment.
pub open spec fn block_is_break(arenas: Arenas, b: ExprBlock) -> bool {
    &&& b.statements@.len() == 1
    &&& match arenas.statements@[b.statements@[0] as int] {
        Statement::Break(n) => {
            let t = trim(n.text@);
            t == n.text_without_trivia@ && (t == "break;"@ || t == "break ();"@)
        },
        _ => false,
    }
}

/// An `Option` variant pattern: `Some`, or `None` whose arm only breaks.
pub open spec fn enum_pattern_ok(arenas: Arenas, p: PatternEnumVariant, arm_expression: ExprId) -> bool {
    &&& starts_with(p.ty@, OPTION_TYPE@)
    &&& {
        ||| (p.variant_name@ == NONE_VARIANT@ && match arenas.exprs@[arm_expression as int] {
            Expr::Block(b) => block_is_break(arenas, b),
            _ => false,
        })
        ||| p.variant_name@ == SOME_VARIANT@
    }
}

/// A match of unit type on an `Option`, with a `Some` arm and a `None` (or `_`)
/// arm that only breaks.
pub open spec fn is_pop_front_match(arenas: Arenas, m: ExprMatch) -> bool {
    &&& m.arms@.len() == 2
    &&& m.ty_is_unit
    &&& m.arms@[0].patterns@.len() != 0
    &&& match arenas.patterns@[m.arms@[0].patterns@[0] as int] {
        Pattern::EnumVariant(p) => enum_pattern_ok(arenas, p, m.arms@[0].expression),
        _ => false,
    }
    &&& m.arms@[1].patterns@.len() != 0
    &&& match arenas.patterns@[m.arms@[1].patterns@[0] as int] {
        Pattern::Otherwise(_) => match arenas.exprs@[m.arms@[1].expression as int] {
            Expr::Block(b) => block_is_break(arenas, b),
            _ => false,
        },
        Pattern::EnumVariant(p) => enum_pattern_ok(arenas, p, m.arms@[1].expression),
        _ => false,
    }
}

/// The match is on a call of `SpanImpl::pop_front`.
pub open spec fn matches_pop_front(arenas: Arenas, m: ExprMatch) -> bool {
    match arenas.exprs@[m.matched_expr as int] {
        Expr::FunctionCall(f) => f.function.name@ == SPAN_MATCH_POP_FRONT@,
        _ => false,
    }
}

/// The match that is the tail of a block with no statement.
pub open spec fn tail_match(arenas: Arenas, b: ExprBlock) -> Option<ExprMatch> {
    if b.statements@.len() == 0 {
        match b.tail {
            Some(t) => match arenas.exprs@[t as int] {
                Expr::Match(m) => Some(m),
                _ => None,
            },
            None => None,
        }
    } else {
        None
    }
}

/// The match that is the first statement of a block.
pub open spec fn first_statement_match(arenas: Arenas, b: ExprBlock) -> Option<ExprMatch> {
    if b.statements@.len() != 0 {
        match arenas.statements@[b.statements@[0] as int] {
            Statement::Expr(x) => match arenas.exprs@[x as int] {
                Expr::Match(m) => Some(m),
                _ => None,
            },
            _ => None,
        }
    } else {
        None
    }
}

/// The loop's body is, or begins with, a match on `pop_front` with a `Some` arm
/// and an arm that only breaks.
pub open spec fn is_loop_match_pop_front(arenas: Arenas, l: ExprLoop) -> bool {
    &&& l.ty_is_unit
    &&& match arenas.exprs@[l.body as int] {
        Expr::Block(b) => match tail_match(arenas, b) {
            Some(m) if matches_pop_front(arenas, m) => is_pop_front_match(arenas, m),
            _ => match first_statement_match(arenas, b) {
                Some(m) => is_pop_front_match(arenas, m) && matches_pop_front(arenas, m),
                None => false,
            },
        },
        _ => false,
    }
}

/// Whether the block holds only `break;`, with no comment.
fn check_block_is_break(expr_block: &ExprBlock, arenas: &Arenas) -> (r: bool)
    requires
        arenas.refs_below(Expr::Block(*expr_block), arenas.exprs@.len() as int),
    ensures
        r == block_is_break(*arenas, *expr_block),
{
    if expr_block.statements.len() == 1 {
        assert(0 <= expr_block.statements@[0] < arenas.statements@.len());
        if let Statement::Break(break_node) = &arenas.statements[expr_block.statements[0]] {
            let break_text = trim_exec(&chars_of(break_node.text.as_str()));
            let without = chars_of(break_node.text_without_trivia.as_str());
            let same = crate::text::seq_eq(&break_text, &without);
            let is_break = crate::text::seq_eq(&break_text, &chars_of("break;"))
                || crate::text::seq_eq(&break_text, &chars_of("break ();"));
            return same && is_break;
        }
    }
    false
}

/// Whether an enum pattern is of `Option`, and `Some`, or `None` with an arm
/// that only breaks.
fn check_enum_pattern(enum_pat: &PatternEnumVariant, arenas: &Arenas, arm_expression: ExprId) -> (r:
    bool)
    requires
        arenas.wf(),
        arm_expression < arenas.exprs@.len(),
    ensures
        r == enum_pattern_ok(*arenas, *enum_pat, arm_expression),
{
    if !starts_with_exec(&chars_of(enum_pat.ty.as_str()), &chars_of(OPTION_TYPE)) {
        return false;
    }
    proof {
        assert(arenas.expr_wf(arm_expression as int));
    }
    if str_eq(enum_pat.variant_name.as_str(), NONE_VARIANT) {
        if let Expr::Block(expr_block) = &arenas.exprs[arm_expression] {
            if check_block_is_break(expr_block, arenas) {
                return true;
            }
        }
    }
    str_eq(enum_pat.variant_name.as_str(), SOME_VARIANT)
}

/// Whether a match is of unit type, on an `Option`, with a `Some` arm and an
/// arm (`None` or `_`) that only breaks.
pub fn check_single_match(match_expr: &ExprMatch, arenas: &Arenas) -> (r: bool)
    requires
        arenas.wf(),
        arenas.fits(Expr::Match(*match_expr)),
    ensures
        r == is_pop_front_match(*arenas, *match_expr),
{
    let arms = &match_expr.arms;
    if arms.len() != 2 || !match_expr.ty_is_unit {
        return false;
    }
    proof {
        assert(arenas.refs_below(Expr::Match(*match_expr), arenas.exprs@.len() as int));
        assert(0 <= arms@[0].expression);
        assert(0 <= arms@[1].expression);
    }
    let first_arm = &arms[0];
    let second_arm = &arms[1];
    let is_first_arm_correct = if first_arm.patterns.len() != 0 {
        assert(0 <= first_arm.patterns@[0] < arenas.patterns@.len());
        match &arenas.patterns[first_arm.patterns[0]] {
            Pattern::EnumVariant(enum_pat) => check_enum_pattern(enum_pat, arenas, first_arm.expression),
            _ => false,
        }
    } else {
        false
    };
    let is_second_arm_correct = if second_arm.patterns.len() != 0 {
        assert(0 <= second_arm.patterns@[0] < arenas.patterns@.len());
        match &arenas.patterns[second_arm.patterns[0]] {
            Pattern::Otherwise(_) => {
                proof {
                    assert(arenas.expr_wf(second_arm.expression as int));
                }
                if let Expr::Block(expr_block) = &arenas.exprs[second_arm.expression] {
                    check_block_is_break(expr_block, arenas)
                } else {
                    return false;
                }
            },
            Pattern::EnumVariant(enum_pat) => check_enum_pattern(enum_pat, arenas, second_arm.expression),
            _ => false,
        }
    } else {
        false
    };
    is_first_arm_correct && is_second_arm_correct
}

fn is_pop_front_call(match_expr: &ExprMatch, arenas: &Arenas) -> (r: bool)
    requires
        match_expr.matched_expr < arenas.exprs@.len(),
    ensures
        r == matches_pop_front(*arenas, *match_expr),
{
    match &arenas.exprs[match_expr.matched_expr] {
        Expr::FunctionCall(func_call) => str_eq(func_call.function.name.as_str(), SPAN_MATCH_POP_FRONT),
        _ => false,
    }
}

/// Reports a loop of unit type whose body is, or begins with, a match on
/// `SpanImpl::pop_front` with a `Some` arm and an arm that only breaks, unless
/// an `#[allow(loop_match_pop_front)]` stands on an ancestor.
pub fn check_loop_match_pop_front(
    loop_expr: &ExprLoop,
    diagnostics: &mut Vec<PluginDiagnostic>,
    arenas: &Arenas,
)
    requires
        arenas.wf(),
        arenas.fits(Expr::Loop(*loop_expr)),
    ensures
        diag_views(final(diagnostics)@) == diag_views(old(diagnostics)@) + if !allows(
            loop_expr.node,
            LINT_NAME@,
        ) && is_loop_match_pop_front(*arenas, *loop_expr) {
            seq![diag(loop_expr.node.ptr.id, LOOP_MATCH_POP_FRONT@, Severity::Warning)]
        } else {
            Seq::<DiagView>::empty()
        },
{
    let ghost old_views = diag_views(diagnostics@);
    let ghost d = diag(loop_expr.node.ptr.id, LOOP_MATCH_POP_FRONT@, Severity::Warning);
    if is_allowed(&loop_expr.node, LINT_NAME) || !loop_expr.ty_is_unit {
        return ;
    }
    proof {
        assert(arenas.expr_wf(loop_expr.body as int));
    }
    let expr_block = match &arenas.exprs[loop_expr.body] {
        Expr::Block(b) => b,
        _ => {
            return ;
        },
    };
    if expr_block.statements.len() == 0 {
        if let Some(tail) = expr_block.tail {
            proof {
                assert(arenas.expr_wf(tail as int));
            }
            if let Expr::Match(expr_match) = &arenas.exprs[tail] {
                if is_pop_front_call(expr_match, arenas) {
                    if !check_single_match(expr_match, arenas) {
                        return ;
                    }
                    push_diagnostic(
                        diagnostics,
                        loop_expr.node.ptr.id,
                        LOOP_MATCH_POP_FRONT,
                        Severity::Warning,
                    );
                    assert(diag_views(diagnostics@) =~= old_views + seq![d]);
                    return ;
                }
            }
        }
    }
    if expr_block.statements.len() != 0 {
        assert(0 <= expr_block.statements@[0] < arenas.statements@.len());
        if let Statement::Expr(stmt_expr) = &arenas.statements[expr_block.statements[0]] {
            proof {
                assert(arenas.expr_wf(*stmt_expr as int));
            }
            if let Expr::Match(expr_match) = &arenas.exprs[*stmt_expr] {
                if !check_single_match(expr_match, arenas) {
                    return ;
                }
                if is_pop_front_call(expr_match, arenas) {
                    push_diagnostic(
                        diagnostics,
                        loop_expr.node.ptr.id,
                        LOOP_MATCH_POP_FRONT,
                        Severity::Warning,
                    );
                    assert(diag_views(diagnostics@) =~= old_views + seq![d]);
                    return ;
                }
            }
        }
    }
}

/// The expression is a block of one statement, a `break` written `break;` or
/// `break ();` with no comment around it.
pub open spec fn lone_break(arenas: Arenas, id: ExprId) -> bool {
    &&& arenas.exprs@[id as int] matches Expr::Block(b)
    &&& b.statements@.len() == 1
    &&& arenas.statements@[b.statements@[0] as int] matches Statement::Break(n)
    &&& (trim(n.text@) == "break;"@ || trim(n.text@) == "break ();"@)
    &&& trim(n.text@) == n.text_without_trivia@
}

/// A `None` pattern passes only where its arm does nothing but break.
pub proof fn lemma_none_arm_only_breaks(arenas: Arenas, p: PatternEnumVariant, arm_expression: ExprId)
    requires
        enum_pattern_ok(arenas, p, arm_expression),
        p.variant_name@ == NONE_VARIANT@,
    ensures
        lone_break(arenas, arm_expression),
{
    reveal_strlit("None");
    reveal_strlit("Some");
    assert(NONE_VARIANT@[0] != SOME_VARIANT@[0]);
}

/// In a match taken for a `pop_front` loop, the arm that ends the iteration
/// (the second, under `None` or `_`, or a `None` first one) does nothing but
/// break: an arm with any other statement makes the match not one.
pub proof fn lemma_pop_front_match_ends_by_break(arenas: Arenas, m: ExprMatch)
    requires
        is_pop_front_match(arenas, m),
    ensures
        forall|k: int|
            0 <= k < 2 ==> (match arenas.patterns@[(#[trigger] m.arms@[k]).patterns@[0] as int] {
                Pattern::Otherwise(_) => k == 1,
                Pattern::EnumVariant(p) => p.variant_name@ == NONE_VARIANT@ || p.variant_name@
                    == SOME_VARIANT@,
                _ => false,
            }) && (match arenas.patterns@[m.arms@[k].patterns@[0] as int] {
                Pattern::Otherwise(_) => true,
                Pattern::EnumVariant(p) => p.variant_name@ == NONE_VARIANT@,
                _ => false,
            } ==> lone_break(arenas, m.arms@[k].expression)),
{
    reveal_strlit("None");
    reveal_strlit("Some");
    assert(NONE_VARIANT@[0] != SOME_VARIANT@[0]);
    assert forall|k: int| 0 <= k < 2 implies (match arenas.patterns@[(#[trigger] m.arms@[k]).patterns@[0] as int] {
        Pattern::Otherwise(_) => k == 1,
        Pattern::EnumVariant(p) => p.variant_name@ == NONE_VARIANT@ || p.variant_name@
            == SOME_VARIANT@,
        _ => false,
    }) && (match arenas.patterns@[m.arms@[k].patterns@[0] as int] {
        Pattern::Otherwise(_) => true,
        Pattern::EnumVariant(p) => p.variant_name@ == NONE_VARIANT@,
        _ => false,
    } ==> lone_break(arenas, m.arms@[k].expression)) by {
        if k == 0 {
            match arenas.patterns@[m.arms@[0].patterns@[0] as int] {
                Pattern::EnumVariant(p) => {
                    if p.variant_name@ == NONE_VARIANT@ {
                        lemma_none_arm_only_breaks(arenas, p, m.arms@[0].expression);
                    }
                },
                _ => {},
            }
        } else {
            match arenas.patterns@[m.arms@[1].patterns@[0] as int] {
                Pattern::EnumVariant(p) => {
                    if p.variant_name@ == NONE_VARIANT@ {
                        lemma_none_arm_only_breaks(arenas, p, m.arms@[1].expression);
                    }
                },
                _ => {},
            }
        }
    }
}

} // verus!
