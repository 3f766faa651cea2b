//! A `loop` with an `if` whose block holds a `break`, which a `while` loop says
//! more plainly.
use vstd::prelude::*;

use crate::diagnostics::{diag, diag_views, push_diagnostic, DiagView, PluginDiagnostic, Severity};
use crate::semantic::{Arenas, Expr, ExprId, ExprLoop, Statement, StatementId};
use crate::syntax::{allows, is_allowed};

verus! {

broadcast use vstd::seq::Seq::add_empty_right;

pub const LOOP_FOR_WHILE: &'static str =
    "you seem to be trying to use `loop`. Consider replacing this `loop` with a `while` loop for clarity and conciseness";

pub const ALLOWED: [&'static str; 1] = [LINT_NAME];

pub const LINT_NAME: &'static str = "loop_for_while";

/// The expression is an `if` whose block holds a `break` statement.
pub open spec fn if_contains_break(arenas: Arenas, id: ExprId) -> bool {
    match arenas.exprs@[id as int] {
        Expr::If(i) => match arenas.exprs@[i.if_block as int] {
            Expr::Block(b) => exists|k: int|
                0 <= k < b.statements@.len() && #[trigger] arenas.statements@[b.statements@[k] as int] is Break,
            _ => false,
        },
        _ => false,
    }
}

/// The statement is such an `if`.
pub open spec fn statement_if_breaks(arenas: Arenas, s: StatementId) -> bool {
    match arenas.statements@[s as int] {
        Statement::Expr(x) => if_contains_break(arenas, x),
        _ => false,
    }
}

/// One diagnostic `d` for each statement that is such an `if`, in order.
pub open spec fn break_diags(arenas: Arenas, stmts: Seq<StatementId>, d: DiagView) -> Seq<DiagView>
    decreases stmts.len(),
{
    if stmts.len() == 0 {
        Seq::empty()
    } else {
        break_diags(arenas, stmts.drop_last(), d) + if statement_if_breaks(arenas, stmts.last()) {
            seq![d]
        } else {
            Seq::<DiagView>::empty()
        }
    }
}

/// The diagnostics of `check_loop_for_while` on a loop.
pub open spec fn loop_for_while_diags(l: ExprLoop, arenas: Arenas) -> Seq<DiagView> {
    let d = diag(l.node.ptr.id, LOOP_FOR_WHILE@, Severity::Warning);
    if allows(l.node, LINT_NAME@) {
        Seq::empty()
    } else {
        match arenas.exprs@[l.body as int] {
            Expr::Block(b) => break_diags(arenas, b.statements@, d) + match b.tail {
                Some(t) => if if_contains_break(arenas, t) {
                    seq![d]
                } else {
                    Seq::<DiagView>::empty()
                },
                None => Seq::<DiagView>::empty(),
            },
            _ => Seq::empty(),
        }
    }
}

fn check_if_contains_break(expr: &ExprId, arenas: &Arenas) -> (r: bool)
    requires
        arenas.wf(),
        *expr < arenas.exprs@.len(),
    ensures
        r == if_contains_break(*arenas, *expr),
{
    proof {
        assert(arenas.expr_wf(*expr as int));
    }
    if let Expr::If(if_expr) = &arenas.exprs[*expr] {
        proof {
            assert(arenas.expr_wf(if_expr.if_block as int));
        }
        if let Expr::Block(if_block) = &arenas.exprs[if_expr.if_block] {
            let mut k: usize = 0;
            while k < if_block.statements.len()
                invariant
                    arenas.exprs@[*expr as int] == Expr::If(*if_expr),
                    arenas.exprs@[if_expr.if_block as int] == Expr::Block(*if_block),
                    k <= if_block.statements@.len(),
                    forall|j: int| 0 <= j < if_block.statements@.len() ==> 0 <= #[trigger] if_block.statements@[j] < arenas.statements@.len(),
                    forall|j: int| 0 <= j < k ==> !(#[trigger] arenas.statements@[if_block.statements@[j] as int] is Break),
                decreases if_block.statements@.len() - k,
            {
                if matches!(arenas.statements[if_block.statements[k]], Statement::Break(_)) {
                    assert(arenas.statements@[if_block.statements@[k as int] as int] is Break);
                    return true;
                }
                k = k + 1;
            }
            return false;
        }
    }
    false
}

/// Reports a `loop` once for each statement of its body that is an `if` whose
/// block holds a `break`, and once more if its tail is one, unless an
/// `#[allow(loop_for_while)]` stands on an ancestor.
pub fn check_loop_for_while(
    loop_expr: &ExprLoop,
    arenas: &Arenas,
    diagnostics: &mut Vec<PluginDiagnostic>,
)
    requires
        arenas.wf(),
        arenas.fits(Expr::Loop(*loop_expr)),
    ensures
        diag_views(final(diagnostics)@) == diag_views(old(diagnostics)@) + loop_for_while_diags(
            *loop_expr,
            *arenas,
        ),
{
    let ghost old_views = diag_views(diagnostics@);
    let ghost d = diag(loop_expr.node.ptr.id, LOOP_FOR_WHILE@, Severity::Warning);
    if is_allowed(&loop_expr.node, LINT_NAME) {
        return ;
    }
    proof {
        assert(arenas.expr_wf(loop_expr.body as int));
    }
    let block_expr = match &arenas.exprs[loop_expr.body] {
        Expr::Block(b) => b,
        _ => {
            return ;
        },
    };
    let ghost stmts = block_expr.statements@;
    let mut i: usize = 0;
    assert(stmts.take(0) =~= Seq::<StatementId>::empty());
    while i < block_expr.statements.len()
        invariant
            arenas.wf(),
            stmts == block_expr.statements@,
            i <= stmts.len(),
            forall|k: int| 0 <= k < stmts.len() ==> 0 <= #[trigger] stmts[k] < arenas.statements@.len() && arenas.statement_wf(
                arenas.statements@[stmts[k] as int],
                arenas.exprs@.len() as int,
            ),
            diag_views(diagnostics@) == old_views + break_diags(*arenas, stmts.take(i as int), d),
            d == diag(loop_expr.node.ptr.id, LOOP_FOR_WHILE@, Severity::Warning),
        decreases stmts.len() - i,
    {
        let ghost before = diag_views(diagnostics@);
        let s = block_expr.statements[i];
        assert(0 <= stmts[i as int] < arenas.statements@.len());
        if let Statement::Expr(expr_statement) = &arenas.statements[s] {
            if check_if_contains_break(expr_statement, arenas) {
                push_diagnostic(diagnostics, loop_expr.node.ptr.id, LOOP_FOR_WHILE, Severity::Warning);
            }
        }
        assert(stmts.take(i + 1).drop_last() =~= stmts.take(i as int));
        assert(stmts.take(i + 1).last() == s);
        assert(diag_views(diagnostics@) =~= old_views + break_diags(*arenas, stmts.take(i + 1), d));
        i = i + 1;
    }
    assert(stmts.take(stmts.len() as int) =~= stmts);
    let ghost mid = diag_views(diagnostics@);
    if let Some(tail_expr) = block_expr.tail {
        if check_if_contains_break(&tail_expr, arenas) {
            push_diagnostic(diagnostics, loop_expr.node.ptr.id, LOOP_FOR_WHILE, Severity::Warning);
            assert(diag_views(diagnostics@) =~= mid + seq![d]);
        } else {
            assert(mid + Seq::<DiagView>::empty() =~= mid);
        }
    } else {
        assert(mid + Seq::<DiagView>::empty() =~= mid);
    }
    assert(diag_views(diagnostics@) =~= old_views + loop_for_while_diags(*loop_expr, *arenas));
}

} // verus!
