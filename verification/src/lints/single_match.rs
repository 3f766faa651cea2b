//! A `match` that does something in one arm only, which an `if let` or an `if`
//! says more plainly.
use vstd::prelude::*;

use crate::diagnostics::{diag, diag_views, push_diagnostic, DiagView, PluginDiagnostic, Severity};
use crate::semantic::{Arenas, Expr, ExprMatch, Pattern};
use crate::syntax::{
    allows,
    is_allowed,
    Expr as AstExpr,
    ExprBlock,
    ExprListParenthesized,
    StatementKind,
};
use crate::text::{chars_of, trim, trim_exec};

verus! {

broadcast use vstd::seq::Seq::add_empty_right;

pub const DESTRUCT_MATCH: &'static str =
    "you seem to be trying to use `match` for destructuring a single pattern. Consider using `if let`";

pub const MATCH_FOR_EQUALITY: &'static str =
    "you seem to be trying to use `match` for an equality check. Consider using `if`";

pub const ALLOWED: [&'static str; 1] = [LINT_NAME];

pub const LINT_NAME: &'static str = "single_match";

/// `()`.
pub open spec fn is_unit_tuple(expr: ExprListParenthesized) -> bool {
    expr.expressions@.len() == 0
}

/// `{}` with nothing but whitespace inside, or `{ () }` with nothing before
/// the `()`.
pub open spec fn is_unit_block(block: ExprBlock) -> bool {
    ||| (block.statements@.len() == 0 && trim(block.rbrace_leading_trivia@).len() == 0)
    ||| (block.statements@.len() == 1 && match block.statements@[0].kind {
        StatementKind::Expr(AstExpr::Tuple(t)) => t.node.leading_trivia@.len() == 0
            && is_unit_tuple(t),
        _ => false,
    })
}

/// `()`, `{}` or `{ () }`, with no comment.
pub open spec fn expr_is_unit(expr: AstExpr) -> bool {
    match expr {
        AstExpr::Block(b) => is_unit_block(b),
        AstExpr::Tuple(t) => is_unit_tuple(t),
        _ => false,
    }
}

/// Whether a tuple expression is `()`.
fn is_expr_list_parenthesised_unit(expr: &ExprListParenthesized) -> (r: bool)
    ensures
        r == is_unit_tuple(*expr),
{
    expr.expressions.len() == 0
}

/// Whether a block is `{}` or `{ () }` and holds no comment.
fn is_block_expr_unit_without_comment(block_expr: &ExprBlock) -> (r: bool)
    ensures
        r == is_unit_block(*block_expr),
{
    if block_expr.statements.len() == 0 && trim_exec(
        &chars_of(block_expr.rbrace_leading_trivia.as_str()),
    ).len() == 0 {
        return true;
    }
    if block_expr.statements.len() == 1 {
        if let StatementKind::Expr(AstExpr::Tuple(tuple_expr)) = &block_expr.statements[0].kind {
            if tuple_expr.node.leading_trivia.as_str().unicode_len() != 0 {
                return false;
            }
            return is_expr_list_parenthesised_unit(tuple_expr);
        }
    }
    false
}

/// Whether an expression is `()`, `{}` or `{ () }` with no comment in it.
pub fn is_expr_unit(expr: &AstExpr) -> (r: bool)
    ensures
        r == expr_is_unit(*expr),
{
    match expr {
        AstExpr::Block(block_expr) => is_block_expr_unit_without_comment(block_expr),
        AstExpr::Tuple(tuple_expr) => is_expr_list_parenthesised_unit(tuple_expr),
        _ => false,
    }
}

/// What the first arm's pattern tells: `None` where it is `_`; else how many
/// variants its enum has, if it is an enum pattern, and whether it destructures.
pub open spec fn first_arm_info(arenas: Arenas, m: ExprMatch) -> Option<(Option<usize>, bool)> {
    if m.arms@[0].patterns@.len() == 0 {
        Some((None, false))
    } else {
        match arenas.patterns@[m.arms@[0].patterns@[0] as int] {
            Pattern::Otherwise(_) => None,
            Pattern::EnumVariant(p) => Some((Some(p.enum_variants), p.inner_pattern is Some)),
            Pattern::Struct(_) => Some((None, true)),
            _ => Some((None, false)),
        }
    }
}

/// The second arm covers the rest (`_`, or the other variant of a two-variant
/// enum) and does nothing.
pub open spec fn second_arm_does_nothing(
    arenas: Arenas,
    m: ExprMatch,
    enum_len: Option<usize>,
) -> bool {
    &&& m.arms@[1].patterns@.len() != 0
    &&& match arenas.patterns@[m.arms@[1].patterns@[0] as int] {
        Pattern::Otherwise(_) => true,
        Pattern::EnumVariant(_) => enum_len == Some(2usize),
        _ => false,
    }
    &&& expr_is_unit(m.arms@[1].expression_syntax)
}

/// The diagnostics of `check_single_match` on a match.
pub open spec fn single_match_diags(m: ExprMatch, arenas: Arenas) -> Seq<DiagView> {
    if allows(m.node, LINT_NAME@) || m.arms@.len() != 2 || !m.ty_is_unit {
        Seq::empty()
    } else {
        match first_arm_info(arenas, m) {
            None => Seq::empty(),
            Some((enum_len, destructuring)) => if second_arm_does_nothing(arenas, m, enum_len) {
                seq![
                    diag(
                        m.node.ptr.id,
                        if destructuring {
                            DESTRUCT_MATCH@
                        } else {
                            MATCH_FOR_EQUALITY@
                        },
                        Severity::Warning,
                    ),
                ]
            } else {
                Seq::empty()
            },
        }
    }
}

/// Reports a `match` of unit type with two arms of which the second covers
/// the rest and does nothing, unless an `#[allow(single_match)]` stands on an
/// ancestor: one that destructures the value is an `if let`, another an `if`.
pub fn check_single_match(
    match_expr: &ExprMatch,
    diagnostics: &mut Vec<PluginDiagnostic>,
    arenas: &Arenas,
)
    requires
        arenas.wf(),
        arenas.fits(Expr::Match(*match_expr)),
    ensures
        diag_views(final(diagnostics)@) == diag_views(old(diagnostics)@) + single_match_diags(
            *match_expr,
            *arenas,
        ),
{
    let ghost old_views = diag_views(diagnostics@);
    if is_allowed(&match_expr.node, LINT_NAME) {
        return ;
    }
    let arms = &match_expr.arms;
    if arms.len() != 2 || !match_expr.ty_is_unit {
        return ;
    }
    proof {
        assert(arenas.refs_below(Expr::Match(*match_expr), arenas.exprs@.len() as int));
        assert(0 <= arms@[0].expression);
        assert(0 <= arms@[1].expression);
    }
    let first_arm = &arms[0];
    let second_arm = &arms[1];
    let mut enum_len: Option<usize> = None;
    let mut is_destructuring = false;
    if first_arm.patterns.len() != 0 {
        assert(0 <= first_arm.patterns@[0] < arenas.patterns@.len());
        match &arenas.patterns[first_arm.patterns[0]] {
            Pattern::Otherwise(_) => {
                return ;
            },
            Pattern::EnumVariant(enum_pat) => {
                enum_len = Some(enum_pat.enum_variants);
                is_destructuring = enum_pat.inner_pattern.is_some();
            },
            Pattern::Struct(_) => {
                is_destructuring = true;
            },
            _ => {},
        }
    }
    assert(first_arm_info(*arenas, *match_expr) == Some((enum_len, is_destructuring)));
    let mut is_single_armed = false;
    if second_arm.patterns.len() != 0 {
        assert(0 <= second_arm.patterns@[0] < arenas.patterns@.len());
        let is_complete = match &arenas.patterns[second_arm.patterns[0]] {
            Pattern::Otherwise(_) => true,
            Pattern::EnumVariant(_) => enum_len == Some(2usize),
            _ => false,
        };
        is_single_armed = is_expr_unit(&second_arm.expression_syntax) && is_complete;
    }
    assert(is_single_armed == second_arm_does_nothing(*arenas, *match_expr, enum_len));
    if is_single_armed {
        if is_destructuring {
            push_diagnostic(diagnostics, match_expr.node.ptr.id, DESTRUCT_MATCH, Severity::Warning);
        } else {
            push_diagnostic(
                diagnostics,
                match_expr.node.ptr.id,
                MATCH_FOR_EQUALITY,
                Severity::Warning,
            );
        }
        assert(diag_views(diagnostics@) =~= old_views + single_match_diags(*match_expr, *arenas));
    } else {
    }
}

} // verus!
