//! Operations whose two operands are written the same.
use vstd::prelude::*;

use crate::diagnostics::{diag, diag_views, push_diagnostic, DiagView, PluginDiagnostic, Severity};
use crate::lints::{
    function_trait_name_from_fn_id,
    trait_name,
    AND,
    DIV,
    EQ,
    GE,
    GT,
    LE,
    LT,
    NE,
    NOT,
    OR,
    SUB,
    XOR,
};
use crate::semantic::{Arenas, Expr, ExprFunctionCall, ExprFunctionCallArg};
use crate::syntax::{allows, is_allowed, SyntaxNode};
use crate::text::str_eq;

verus! {

broadcast use vstd::seq::Seq::add_empty_right;

pub const DIV_EQ_OP: &'static str =
    "Division with identical operands, this operation always results in one (except for zero) and may indicate a logic error";

pub const EQ_COMP_OP: &'static str =
    "Comparison with identical operands, this operation always results in true and may indicate a logic error";

pub const NEQ_COMP_OP: &'static str =
    "Comparison with identical operands, this operation always results in false and may indicate a logic error";

pub const EQ_DIFF_OP: &'static str =
    "Subtraction with identical operands, this operation always results in zero and may indicate a logic error";

pub const EQ_BITWISE_OP: &'static str =
    "Bitwise operation with identical operands, this operation always results in the same value and may indicate a logic error";

pub const EQ_LOGICAL_OP: &'static str =
    "Logical operation with identical operands, this operation always results in the same value and may indicate a logic error";

pub const ALLOWED: [&'static str; 1] = [LINT_NAME];

pub const LINT_NAME: &'static str = "eq_op";

/// The message for an operation with identical operands, by the path of its
/// trait function.
pub open spec fn diagnostic_message(op: Seq<char>) -> Option<Seq<char>> {
    if op == EQ@ || op == LE@ || op == GE@ {
        Some(EQ_COMP_OP@)
    } else if op == NE@ || op == LT@ || op == GT@ {
        Some(NEQ_COMP_OP@)
    } else if op == AND@ || op == OR@ {
        Some(EQ_LOGICAL_OP@)
    } else if op == XOR@ || op == NOT@ {
        Some(EQ_BITWISE_OP@)
    } else if op == SUB@ {
        Some(EQ_DIFF_OP@)
    } else if op == DIV@ {
        Some(DIV_EQ_OP@)
    } else {
        None
    }
}

/// The message for an operation with identical operands, by the path of its
/// trait function; `None` for operations that are not reported.
pub fn get_diagnostic_message(op: &str) -> (r: Option<&'static str>)
    ensures
        match r {
            Some(m) => diagnostic_message(op@) == Some(m@),
            None => diagnostic_message(op@) is None,
        },
{
    if str_eq(op, EQ) || str_eq(op, LE) || str_eq(op, GE) {
        Some(EQ_COMP_OP)
    } else if str_eq(op, NE) || str_eq(op, LT) || str_eq(op, GT) {
        Some(NEQ_COMP_OP)
    } else if str_eq(op, AND) || str_eq(op, OR) {
        Some(EQ_LOGICAL_OP)
    } else if str_eq(op, XOR) || str_eq(op, NOT) {
        Some(EQ_BITWISE_OP)
    } else if str_eq(op, SUB) {
        Some(EQ_DIFF_OP)
    } else if str_eq(op, DIV) {
        Some(DIV_EQ_OP)
    } else {
        None
    }
}

/// The syntax node of an operand, or `None` where it is a call or a snapshot
/// of a call, which might have side effects.
pub open spec fn operand_node(arenas: Arenas, arg: ExprFunctionCallArg) -> Option<SyntaxNode> {
    match arg {
        ExprFunctionCallArg::Reference(n) => Some(n),
        ExprFunctionCallArg::Value(v) => match arenas.exprs@[v as int] {
            Expr::FunctionCall(_) => None,
            Expr::Snapshot(n, inner) => if arenas.exprs@[inner as int] is FunctionCall {
                None
            } else {
                Some(n)
            },
            e => Some(e.spec_node()),
        },
    }
}

/// The diagnostics of `check_eq_op` on a call.
pub open spec fn eq_op_diags(call: ExprFunctionCall, arenas: Arenas) -> Seq<DiagView> {
    if allows(call.node, LINT_NAME@) || call.args@.len() != 2 {
        Seq::empty()
    } else {
        match (operand_node(arenas, call.args@[0]), operand_node(arenas, call.args@[1])) {
            (Some(l), Some(r)) => if l.text_without_trivia@ == r.text_without_trivia@ {
                match diagnostic_message(trait_name(call.function)) {
                    Some(m) => seq![diag(call.node.ptr.id, m, Severity::Warning)],
                    None => Seq::empty(),
                }
            } else {
                Seq::empty()
            },
            _ => Seq::empty(),
        }
    }
}

fn operand_node_exec<'a>(arenas: &'a Arenas, arg: &'a ExprFunctionCallArg) -> (r: Option<
    &'a SyntaxNode,
>)
    requires
        arenas.wf(),
        arg matches ExprFunctionCallArg::Value(v) ==> v < arenas.exprs@.len(),
    ensures
        match r {
            Some(n) => operand_node(*arenas, *arg) == Some(*n),
            None => operand_node(*arenas, *arg) is None,
        },
{
    match arg {
        ExprFunctionCallArg::Reference(n) => Some(n),
        ExprFunctionCallArg::Value(v) => {
            proof {
                assert(arenas.expr_wf(*v as int));
            }
            let expr = &arenas.exprs[*v];
            match expr {
                Expr::FunctionCall(_) => None,
                Expr::Snapshot(n, inner) => {
                    if matches!(arenas.exprs[*inner], Expr::FunctionCall(_)) {
                        None
                    } else {
                        Some(n)
                    }
                },
                _ => Some(expr.node()),
            }
        },
    }
}

/// Reports an operation (a comparison, a logical or bitwise operation, a
/// subtraction or a division) whose two operands are written the same and are no
/// calls, unless an `#[allow(eq_op)]` stands on an ancestor.
pub fn check_eq_op(
    expr_func: &ExprFunctionCall,
    arenas: &Arenas,
    diagnostics: &mut Vec<PluginDiagnostic>,
)
    requires
        arenas.wf(),
        arenas.fits(Expr::FunctionCall(*expr_func)),
    ensures
        diag_views(final(diagnostics)@) == diag_views(old(diagnostics)@) + eq_op_diags(
            *expr_func,
            *arenas,
        ),
{
    let ghost old_views = diag_views(diagnostics@);
    if is_allowed(&expr_func.node, LINT_NAME) || expr_func.args.len() != 2 {
        return ;
    }
    proof {
        assert(arenas.refs_below(Expr::FunctionCall(*expr_func), arenas.exprs@.len() as int));
        assert(expr_func.args@[0] matches ExprFunctionCallArg::Value(v) ==> v < arenas.exprs@.len());
        assert(expr_func.args@[1] matches ExprFunctionCallArg::Value(v) ==> v < arenas.exprs@.len());
    }
    let lhs = match operand_node_exec(arenas, &expr_func.args[0]) {
        Some(n) => n,
        None => {
            return ;
        },
    };
    let rhs = match operand_node_exec(arenas, &expr_func.args[1]) {
        Some(n) => n,
        None => {
            return ;
        },
    };
    let op = function_trait_name_from_fn_id(&expr_func.function);
    if str_eq(lhs.text_without_trivia.as_str(), rhs.text_without_trivia.as_str()) {
        if let Some(message) = get_diagnostic_message(op.as_str()) {
            push_diagnostic(diagnostics, expr_func.node.ptr.id, message, Severity::Warning);
            assert(diag_views(diagnostics@) =~= old_views + seq![
                diag(expr_func.node.ptr.id, message@, Severity::Warning),
            ]);
            return ;
        }
    }
}

/// The text an operand is written with.
pub open spec fn written_operand(arenas: Arenas, arg: ExprFunctionCallArg) -> Seq<char> {
    match arg {
        ExprFunctionCallArg::Reference(n) => n.text_without_trivia@,
        ExprFunctionCallArg::Value(v) => arenas.exprs@[v as int].spec_node().text_without_trivia@,
    }
}

/// The operand is a call, or a snapshot of a call.
pub open spec fn call_operand(arenas: Arenas, arg: ExprFunctionCallArg) -> bool {
    arg matches ExprFunctionCallArg::Value(v) && (arenas.exprs@[v as int] is FunctionCall || (
    arenas.exprs@[v as int] matches Expr::Snapshot(_, i) && arenas.exprs@[i as int] is FunctionCall))
}

/// `check_eq_op` warns at most once, and it warns exactly on an operation of
/// two operands written alike, neither a call, whose trait function has a
/// message: that message, at the call, unless the lint is allowed.
pub proof fn lemma_eq_op_warns_on_identical_operands(call: ExprFunctionCall, arenas: Arenas)
    ensures
        ({
            let ds = eq_op_diags(call, arenas);
            let (a, b) = (call.args@[0], call.args@[1]);
            let reported = !allows(call.node, LINT_NAME@) && call.args@.len() == 2 && !call_operand(
                arenas,
                a,
            ) && !call_operand(arenas, b) && written_operand(arenas, a) == written_operand(arenas, b)
                && diagnostic_message(trait_name(call.function)) is Some;
            &&& ds.len() <= 1
            &&& ds.len() == 1 <==> reported
            &&& ds.len() == 1 ==> ds[0] == diag(
                call.node.ptr.id,
                diagnostic_message(trait_name(call.function))->0,
                Severity::Warning,
            )
        }),
{
}

} // verus!
