//! Two comparisons of the same operands joined by `&&` or `||`: those that one
//! comparison says the same as, those that say nothing, and those that never hold.
use vstd::prelude::*;

use crate::diagnostics::{diag, diag_views, push_diagnostic, DiagView, PluginDiagnostic, Severity};
use crate::int_value::IntValue;
use crate::lints::impossible_comparison::is_impossible_double_comparison;
use crate::lints::{function_trait_name_from_fn_id, trait_name, EQ, GE, GT, LE, LT};
use crate::semantic::{
    Arenas,
    Expr,
    ExprFunctionCall,
    ExprFunctionCallArg,
    ExprLogicalOperator,
    LogicalOperator,
};
use crate::syntax::{allows, is_allowed, BinaryOperator, Expr as AstExpr, SyntaxNode};
use crate::text::str_eq;

verus! {

broadcast use vstd::seq::Seq::add_empty_right;

pub const SIMPLIFIABLE_COMPARISON: &'static str = "This double comparison can be simplified.";

pub const REDUNDANT_COMPARISON: &'static str =
    "Redundant double comparison found. Consider simplifying to a single comparison.";

pub const CONTRADICTORY_COMPARISON: &'static str =
    "This double comparison is contradictory and always false.";

pub const IMPOSSIBLE_COMPARISON: &'static str = "Impossible condition, always false";

pub const REDUNDANT_COMPARISON_LINT: &'static str = "redundant_comparison";

pub const CONTRADICTORY_COMPARISON_LINT: &'static str = "contradictory_comparison";

pub const SIMPLIFIABLE_COMPARISON_LINT: &'static str = "simplifiable_comparison";

pub const IMPOSSIBLE_COMPARISON_LINT: &'static str = "impossible_comparison";

pub const ALLOWED: [&'static str; 4] = [
    REDUNDANT_COMPARISON_LINT,
    CONTRADICTORY_COMPARISON_LINT,
    SIMPLIFIABLE_COMPARISON_LINT,
    IMPOSSIBLE_COMPARISON_LINT,
];

/// `a op1 b && a op2 b` (or `||`) that one comparison says the same as.
pub open spec fn simplifiable(l: Seq<char>, op: LogicalOperator, r: Seq<char>) -> bool {
    ||| (l == LE@ && op == LogicalOperator::AndAnd && r == GE@)
    ||| (l == GE@ && op == LogicalOperator::AndAnd && r == LE@)
    ||| (l == LT@ && op == LogicalOperator::OrOr && r == EQ@)
    ||| (l == EQ@ && op == LogicalOperator::OrOr && r == LT@)
    ||| (l == GT@ && op == LogicalOperator::OrOr && r == EQ@)
    ||| (l == EQ@ && op == LogicalOperator::OrOr && r == GT@)
}

/// Two comparisons whose disjunction holds of most operands.
pub open spec fn redundant(l: Seq<char>, op: LogicalOperator, r: Seq<char>) -> bool {
    ||| (l == LE@ && op == LogicalOperator::OrOr && r == GE@)
    ||| (l == GE@ && op == LogicalOperator::OrOr && r == LE@)
    ||| (l == LT@ && op == LogicalOperator::OrOr && r == GT@)
    ||| (l == GT@ && op == LogicalOperator::OrOr && r == LT@)
}

/// Two comparisons that never hold together.
pub open spec fn contradictory(l: Seq<char>, op: LogicalOperator, r: Seq<char>) -> bool {
    ||| (l == EQ@ && op == LogicalOperator::AndAnd && r == LT@)
    ||| (l == LT@ && op == LogicalOperator::AndAnd && r == EQ@)
    ||| (l == EQ@ && op == LogicalOperator::AndAnd && r == GT@)
    ||| (l == GT@ && op == LogicalOperator::AndAnd && r == EQ@)
    ||| (l == LT@ && op == LogicalOperator::AndAnd && r == GT@)
    ||| (l == GT@ && op == LogicalOperator::AndAnd && r == LT@)
    ||| (l == LE@ && op == LogicalOperator::AndAnd && r == GT@)
}

/// The comparison trait function that says the same of the operands swapped:
/// `<` and `>`, `<=` and `>=` trade places; any other stays.
pub open spec fn flipped(op: Seq<char>) -> Seq<char> {
    if op == LE@ {
        GE@
    } else if op == GE@ {
        LE@
    } else if op == LT@ {
        GT@
    } else if op == GT@ {
        LT@
    } else {
        op
    }
}

/// The comparison as read with its operands in the other order where `swap`.
pub open spec fn oriented(op: Seq<char>, swap: bool) -> Seq<char> {
    if swap {
        flipped(op)
    } else {
        op
    }
}

/// The path of the comparison trait function read with its operands in the
/// other order where `swap`.
fn oriented_path<'a>(op: &'a str, swap: bool) -> (r: &'a str)
    ensures
        r@ == oriented(op@, swap),
{
    if !swap {
        op
    } else if str_eq(op, LE) {
        GE
    } else if str_eq(op, GE) {
        LE
    } else if str_eq(op, LT) {
        GT
    } else if str_eq(op, GT) {
        LT
    } else {
        op
    }
}

/// The bounds `a` (of the left comparison) and `b` (of the right one) leave no
/// value of the variable.
pub open spec fn impossible_bounds(
    l: Seq<char>,
    op: LogicalOperator,
    r: Seq<char>,
    a: int,
    b: int,
) -> bool {
    &&& op == LogicalOperator::AndAnd
    &&& {
        ||| (l == GT@ && r == LT@ && a >= b)
        ||| (l == GT@ && r == LE@ && a >= b)
        ||| (l == GE@ && r == LT@ && a >= b)
        ||| (l == GE@ && r == LE@ && a > b)
        ||| (l == LT@ && r == GT@ && a <= b)
        ||| (l == LT@ && r == GE@ && a <= b)
        ||| (l == LE@ && r == GT@ && a <= b)
        ||| (l == LE@ && r == GE@ && a < b)
    }
}

/// The variable and the literal of a comparison of one with the other, in
/// either order, and whether the literal stands on the left.
pub open spec fn var_and_literal(arenas: Arenas, call: ExprFunctionCall) -> Option<
    (SyntaxNode, IntValue, bool),
> {
    match (call.args@[0], call.args@[1]) {
        (ExprFunctionCallArg::Value(l), ExprFunctionCallArg::Value(r)) => match (
            arenas.exprs@[l as int],
            arenas.exprs@[r as int],
        ) {
            (Expr::Var(n, _), Expr::Literal(_, v)) => Some((n, v, false)),
            (Expr::Literal(_, v), Expr::Var(n, _)) => Some((n, v, true)),
            _ => None,
        },
        _ => None,
    }
}

/// Both comparisons compare the same variable with a literal, and the
/// literals leave it no value, each comparison read with the variable first.
pub open spec fn impossible(
    arenas: Arenas,
    lhs: ExprFunctionCall,
    rhs: ExprFunctionCall,
    l: Seq<char>,
    op: LogicalOperator,
    r: Seq<char>,
) -> bool {
    match (var_and_literal(arenas, lhs), var_and_literal(arenas, rhs)) {
        (Some((lv, a, ls)), Some((rv, b, rs))) => lv.text_without_trivia@
            == rv.text_without_trivia@ && impossible_bounds(
            oriented(l, ls),
            op,
            oriented(r, rs),
            a.value(),
            b.value(),
        ),
        _ => false,
    }
}

/// The text of an expression, without trivia.
pub open spec fn expr_text(arenas: Arenas, id: int) -> Seq<char> {
    arenas.exprs@[id].spec_node().text_without_trivia@
}

/// `{a, b}` and `{c, d}` are the same set.
pub open spec fn same_operands(a: Seq<char>, b: Seq<char>, c: Seq<char>, d: Seq<char>) -> bool {
    (a == c && b == d) || (a == d && b == c)
}

/// For the operands of the left comparison: `None` where they are not
/// variables or snapshots, else whether one is a snapshot of a call.
pub open spec fn snapshot_of_call(arenas: Arenas, a: int, b: int) -> Option<bool> {
    match (arenas.exprs@[a], arenas.exprs@[b]) {
        (Expr::Snapshot(_, x), Expr::Snapshot(_, y)) => Some(
            arenas.exprs@[x as int] is FunctionCall || arenas.exprs@[y as int] is FunctionCall,
        ),
        (Expr::Var(_, _), Expr::Var(_, _)) => Some(false),
        (Expr::Snapshot(_, x), Expr::Var(_, _)) => Some(arenas.exprs@[x as int] is FunctionCall),
        (Expr::Var(_, _), Expr::Snapshot(_, y)) => Some(arenas.exprs@[y as int] is FunctionCall),
        _ => None,
    }
}

/// The diagnostic for two comparisons of the same operands, by their trait
/// functions, unless it is allowed.
pub open spec fn verdict(node: SyntaxNode, l: Seq<char>, op: LogicalOperator, r: Seq<char>) -> Seq<
    DiagView,
> {
    if !allows(node, SIMPLIFIABLE_COMPARISON_LINT@) && simplifiable(l, op, r) {
        seq![diag(node.ptr.id, SIMPLIFIABLE_COMPARISON@, Severity::Warning)]
    } else if !allows(node, REDUNDANT_COMPARISON_LINT@) && redundant(l, op, r) {
        seq![diag(node.ptr.id, REDUNDANT_COMPARISON@, Severity::Warning)]
    } else if !allows(node, CONTRADICTORY_COMPARISON_LINT@) && contradictory(l, op, r) {
        seq![diag(node.ptr.id, CONTRADICTORY_COMPARISON@, Severity::Error)]
    } else {
        Seq::empty()
    }
}

/// What the operands of the two comparisons give: the verdict where both
/// compare the same two variables (or snapshots of variables).
pub open spec fn operand_diags(
    node: SyntaxNode,
    arenas: Arenas,
    lhs: ExprFunctionCall,
    rhs: ExprFunctionCall,
    l: Seq<char>,
    op: LogicalOperator,
    r: Seq<char>,
) -> Seq<DiagView> {
    match (lhs.args@[0], lhs.args@[1], rhs.args@[0], rhs.args@[1]) {
        (
            ExprFunctionCallArg::Value(a),
            ExprFunctionCallArg::Value(b),
            ExprFunctionCallArg::Value(c),
            ExprFunctionCallArg::Value(d),
        ) => if !same_operands(
            expr_text(arenas, a as int),
            expr_text(arenas, b as int),
            expr_text(arenas, c as int),
            expr_text(arenas, d as int),
        ) {
            Seq::empty()
        } else {
            match snapshot_of_call(arenas, a as int, b as int) {
                Some(false) => verdict(
                    node,
                    l,
                    op,
                    oriented(
                        r,
                        !(expr_text(arenas, a as int) == expr_text(arenas, c as int) && expr_text(
                            arenas,
                            b as int,
                        ) == expr_text(arenas, d as int)),
                    ),
                ),
                _ => Seq::empty(),
            }
        },
        _ => Seq::empty(),
    }
}

/// The diagnostics of `check_double_comparison` on `e`.
pub open spec fn double_comparison_diags(e: ExprLogicalOperator, arenas: Arenas) -> Seq<DiagView> {
    match (arenas.exprs@[e.lhs as int], arenas.exprs@[e.rhs as int]) {
        (Expr::FunctionCall(lc), Expr::FunctionCall(rc)) => if lc.args@.len() != 2
            || rc.args@.len() != 2 {
            Seq::empty()
        } else {
            let l = trait_name(lc.function);
            let r = trait_name(rc.function);
            let first = if !allows(e.node, IMPOSSIBLE_COMPARISON_LINT@) && impossible(
                arenas,
                lc,
                rc,
                l,
                e.op,
                r,
            ) {
                seq![diag(e.node.ptr.id, IMPOSSIBLE_COMPARISON@, Severity::Error)]
            } else {
                Seq::empty()
            };
            first + operand_diags(e.node, arenas, lc, rc, l, e.op, r)
        },
        _ => Seq::empty(),
    }
}

/// Whether `s` is the path of each comparison trait function.
struct Kinds {
    le: bool,
    ge: bool,
    lt: bool,
    gt: bool,
    eq: bool,
}

fn kinds(s: &str) -> (k: Kinds)
    ensures
        k.le == (s@ == LE@),
        k.ge == (s@ == GE@),
        k.lt == (s@ == LT@),
        k.gt == (s@ == GT@),
        k.eq == (s@ == EQ@),
{
    Kinds { le: str_eq(s, LE), ge: str_eq(s, GE), lt: str_eq(s, LT), gt: str_eq(s, GT), eq: str_eq(s, EQ) }
}

fn is_simplifiable_double_comparison(lhs_op: &str, rhs_op: &str, middle_op: &LogicalOperator) -> (r:
    bool)
    ensures
        r == simplifiable(lhs_op@, *middle_op, rhs_op@),
{
    let l = kinds(lhs_op);
    let r = kinds(rhs_op);
    match middle_op {
        LogicalOperator::AndAnd => (l.le && r.ge) || (l.ge && r.le),
        LogicalOperator::OrOr => (l.lt && r.eq) || (l.eq && r.lt) || (l.gt && r.eq) || (l.eq
            && r.gt),
    }
}

fn is_redundant_double_comparison(lhs_op: &str, rhs_op: &str, middle_op: &LogicalOperator) -> (r:
    bool)
    ensures
        r == redundant(lhs_op@, *middle_op, rhs_op@),
{
    let l = kinds(lhs_op);
    let r = kinds(rhs_op);
    match middle_op {
        LogicalOperator::AndAnd => false,
        LogicalOperator::OrOr => (l.le && r.ge) || (l.ge && r.le) || (l.lt && r.gt) || (l.gt
            && r.lt),
    }
}

fn is_contradictory_double_comparison(lhs_op: &str, rhs_op: &str, middle_op: &LogicalOperator) -> (r:
    bool)
    ensures
        r == contradictory(lhs_op@, *middle_op, rhs_op@),
{
    let l = kinds(lhs_op);
    let r = kinds(rhs_op);
    match middle_op {
        LogicalOperator::AndAnd => (l.eq && r.lt) || (l.lt && r.eq) || (l.eq && r.gt) || (l.gt
            && r.eq) || (l.lt && r.gt) || (l.gt && r.lt) || (l.le && r.gt),
        LogicalOperator::OrOr => false,
    }
}

/// The variable and the literal that a comparison compares, if it compares one
/// with the other, and whether the literal stands on the left.
fn var_and_literal_exec<'a>(arenas: &'a Arenas, call: &'a ExprFunctionCall) -> (r: Option<
    (&'a SyntaxNode, &'a IntValue, bool),
>)
    requires
        call.args@.len() == 2,
        forall|k: int|
            0 <= k < 2 ==> (#[trigger] call.args@[k] matches ExprFunctionCallArg::Value(e) ==> 0
                <= e < arenas.exprs@.len()),
    ensures
        match r {
            Some((n, v, s)) => var_and_literal(*arenas, *call) == Some((*n, *v, s)),
            None => var_and_literal(*arenas, *call) is None,
        },
{
    let a0 = &call.args[0];
    let a1 = &call.args[1];
    match (a0, a1) {
        (ExprFunctionCallArg::Value(l), ExprFunctionCallArg::Value(r)) => match (
            &arenas.exprs[*l],
            &arenas.exprs[*r],
        ) {
            (Expr::Var(n, _), Expr::Literal(_, v)) => Some((n, v, false)),
            (Expr::Literal(_, v), Expr::Var(n, _)) => Some((n, v, true)),
            _ => None,
        },
        _ => None,
    }
}

/// Whether both comparisons compare the same variable with literals that
/// leave it no value.
pub(crate) fn check_impossible_comparison(
    lhs_comparison: &ExprFunctionCall,
    rhs_comparison: &ExprFunctionCall,
    lhs_op: &str,
    rhs_op: &str,
    expr_logical: &ExprLogicalOperator,
    arenas: &Arenas,
) -> (r: bool)
    requires
        lhs_comparison.args@.len() == 2,
        rhs_comparison.args@.len() == 2,
        forall|k: int|
            0 <= k < 2 ==> (#[trigger] lhs_comparison.args@[k] matches ExprFunctionCallArg::Value(
                e,
            ) ==> 0 <= e < arenas.exprs@.len()),
        forall|k: int|
            0 <= k < 2 ==> (#[trigger] rhs_comparison.args@[k] matches ExprFunctionCallArg::Value(
                e,
            ) ==> 0 <= e < arenas.exprs@.len()),
    ensures
        r == impossible(
            *arenas,
            *lhs_comparison,
            *rhs_comparison,
            lhs_op@,
            expr_logical.op,
            rhs_op@,
        ),
{
    let (lhs_var, lhs_litteral, lhs_swap) = match var_and_literal_exec(arenas, lhs_comparison) {
        Some(p) => p,
        None => {
            return false;
        },
    };
    let (rhs_var, rhs_litteral, rhs_swap) = match var_and_literal_exec(arenas, rhs_comparison) {
        Some(p) => p,
        None => {
            return false;
        },
    };
    if !str_eq(lhs_var.text_without_trivia.as_str(), rhs_var.text_without_trivia.as_str()) {
        return false;
    }
    is_impossible_double_comparison(
        oriented_path(lhs_op, lhs_swap),
        oriented_path(rhs_op, rhs_swap),
        lhs_litteral,
        rhs_litteral,
        &expr_logical.op,
    )
}

/// The operand case of the check: `None` where the operands are not
/// variables or snapshots, else whether one is a snapshot of a call.
fn snapshot_of_call_exec(arenas: &Arenas, a: usize, b: usize) -> (r: Option<bool>)
    requires
        arenas.wf(),
        a < arenas.exprs@.len(),
        b < arenas.exprs@.len(),
    ensures
        r == snapshot_of_call(*arenas, a as int, b as int),
{
    proof {
        assert(arenas.expr_wf(a as int));
        assert(arenas.expr_wf(b as int));
    }
    match (&arenas.exprs[a], &arenas.exprs[b]) {
        (Expr::Snapshot(_, x), Expr::Snapshot(_, y)) => Some(
            matches!(arenas.exprs[*x], Expr::FunctionCall(_)) || matches!(arenas.exprs[*y], Expr::FunctionCall(_)),
        ),
        (Expr::Var(_, _), Expr::Var(_, _)) => Some(false),
        (Expr::Snapshot(_, x), Expr::Var(_, _)) => Some(
            matches!(arenas.exprs[*x], Expr::FunctionCall(_)),
        ),
        (Expr::Var(_, _), Expr::Snapshot(_, y)) => Some(
            matches!(arenas.exprs[*y], Expr::FunctionCall(_)),
        ),
        _ => None,
    }
}

/// Reports a double comparison that can be simplified, that is redundant, that
/// is contradictory (the right comparison read with the operands in the left
/// one's order), or whose bounds leave its variable no value; each unless an
/// `#[allow(..)]` of its lint stands on an ancestor.
pub fn check_double_comparison(
    expr_logical: &ExprLogicalOperator,
    arenas: &Arenas,
    diagnostics: &mut Vec<PluginDiagnostic>,
)
    requires
        arenas.wf(),
        arenas.fits(Expr::LogicalOperator(*expr_logical)),
    ensures
        diag_views(final(diagnostics)@) == diag_views(old(diagnostics)@) + double_comparison_diags(
            *expr_logical,
            *arenas,
        ),
{
    let ghost old_views = diag_views(diagnostics@);
    let node = &expr_logical.node;
    let ignore_redundant = is_allowed(node, REDUNDANT_COMPARISON_LINT);
    let ignore_contradictory = is_allowed(node, CONTRADICTORY_COMPARISON_LINT);
    let ignore_simplifiable = is_allowed(node, SIMPLIFIABLE_COMPARISON_LINT);
    let ignore_impossible = is_allowed(node, IMPOSSIBLE_COMPARISON_LINT);
    proof {
        assert(arenas.expr_wf(expr_logical.lhs as int));
        assert(arenas.expr_wf(expr_logical.rhs as int));
    }
    let lhs_comparison = match &arenas.exprs[expr_logical.lhs] {
        Expr::FunctionCall(c) => c,
        _ => {
            return ;
        },
    };
    if lhs_comparison.args.len() != 2 {
        return ;
    }
    let rhs_comparison = match &arenas.exprs[expr_logical.rhs] {
        Expr::FunctionCall(c) => c,
        _ => {
            return ;
        },
    };
    if rhs_comparison.args.len() != 2 {
        return ;
    }
    proof {
        assert forall|k: int| 0 <= k < 2 implies (#[trigger] lhs_comparison.args@[k] matches ExprFunctionCallArg::Value(
            e,
        ) ==> 0 <= e < arenas.exprs@.len()) by {
            assert(arenas.refs_below(arenas.exprs@[expr_logical.lhs as int], expr_logical.lhs as int));
        }
        assert forall|k: int| 0 <= k < 2 implies (#[trigger] rhs_comparison.args@[k] matches ExprFunctionCallArg::Value(
            e,
        ) ==> 0 <= e < arenas.exprs@.len()) by {
            assert(arenas.refs_below(arenas.exprs@[expr_logical.rhs as int], expr_logical.rhs as int));
        }
    }
    let lhs_fn_trait_name = function_trait_name_from_fn_id(&lhs_comparison.function);
    let rhs_fn_trait_name = function_trait_name_from_fn_id(&rhs_comparison.function);
    let ghost l = lhs_fn_trait_name@;
    let ghost r = rhs_fn_trait_name@;
    let ghost first = if !allows(*node, IMPOSSIBLE_COMPARISON_LINT@) && impossible(
        *arenas,
        *lhs_comparison,
        *rhs_comparison,
        l,
        expr_logical.op,
        r,
    ) {
        seq![diag(node.ptr.id, IMPOSSIBLE_COMPARISON@, Severity::Error)]
    } else {
        Seq::<DiagView>::empty()
    };
    if !ignore_impossible && check_impossible_comparison(
        lhs_comparison,
        rhs_comparison,
        lhs_fn_trait_name.as_str(),
        rhs_fn_trait_name.as_str(),
        expr_logical,
        arenas,
    ) {
        push_diagnostic(diagnostics, node.ptr.id, IMPOSSIBLE_COMPARISON, Severity::Error);
    }
    assert(diag_views(diagnostics@) =~= old_views + first);
    let ghost rest = operand_diags(*node, *arenas, *lhs_comparison, *rhs_comparison, l, expr_logical.op, r);
    let (l0, l1) = match (&lhs_comparison.args[0], &lhs_comparison.args[1]) {
        (ExprFunctionCallArg::Value(a), ExprFunctionCallArg::Value(b)) => (*a, *b),
        _ => {
            assert(rest =~= Seq::<DiagView>::empty());
            assert(diag_views(diagnostics@) =~= old_views + (first + rest));
            return ;
        },
    };
    let (r0, r1) = match (&rhs_comparison.args[0], &rhs_comparison.args[1]) {
        (ExprFunctionCallArg::Value(a), ExprFunctionCallArg::Value(b)) => (*a, *b),
        _ => {
            assert(rest =~= Seq::<DiagView>::empty());
            assert(diag_views(diagnostics@) =~= old_views + (first + rest));
            return ;
        },
    };
    assert(lhs_comparison.args@[0] matches ExprFunctionCallArg::Value(_));
    assert(lhs_comparison.args@[1] matches ExprFunctionCallArg::Value(_));
    assert(rhs_comparison.args@[0] matches ExprFunctionCallArg::Value(_));
    assert(rhs_comparison.args@[1] matches ExprFunctionCallArg::Value(_));
    let (same, same_order) = {
        let a = arenas.exprs[l0].node().text_without_trivia.as_str();
        let b = arenas.exprs[l1].node().text_without_trivia.as_str();
        let c = arenas.exprs[r0].node().text_without_trivia.as_str();
        let d = arenas.exprs[r1].node().text_without_trivia.as_str();
        let same_order = str_eq(a, c) && str_eq(b, d);
        (same_order || (str_eq(a, d) && str_eq(b, c)), same_order)
    };
    if !same {
        assert(rest =~= Seq::<DiagView>::empty());
        assert(diag_views(diagnostics@) =~= old_views + (first + rest));
        return ;
    }
    match snapshot_of_call_exec(arenas, l0, l1) {
        Some(false) => {},
        _ => {
            assert(rest =~= Seq::<DiagView>::empty());
            assert(diag_views(diagnostics@) =~= old_views + (first + rest));
            return ;
        },
    }
    let ghost before = diag_views(diagnostics@);
    let rhs_op = oriented_path(rhs_fn_trait_name.as_str(), !same_order);
    if !ignore_simplifiable && is_simplifiable_double_comparison(
        lhs_fn_trait_name.as_str(),
        rhs_op,
        &expr_logical.op,
    ) {
        push_diagnostic(diagnostics, node.ptr.id, SIMPLIFIABLE_COMPARISON, Severity::Warning);
    } else if !ignore_redundant && is_redundant_double_comparison(
        lhs_fn_trait_name.as_str(),
        rhs_op,
        &expr_logical.op,
    ) {
        push_diagnostic(diagnostics, node.ptr.id, REDUNDANT_COMPARISON, Severity::Warning);
    } else if !ignore_contradictory && is_contradictory_double_comparison(
        lhs_fn_trait_name.as_str(),
        rhs_op,
        &expr_logical.op,
    ) {
        push_diagnostic(diagnostics, node.ptr.id, CONTRADICTORY_COMPARISON, Severity::Error);
    }
    assert(rest == verdict(*node, l, expr_logical.op, rhs_op@));
    assert(diag_views(diagnostics@) =~= before + rest);
    assert(diag_views(diagnostics@) =~= old_views + (first + rest));
}

/// The operator that a comparison is written with, as it is replaced in a fix.
pub fn operator_to_replace(lhs_op: BinaryOperator) -> (r: Option<&'static str>)
    ensures
        r == match lhs_op {
            BinaryOperator::EqEq => Some("=="),
            BinaryOperator::GT => Some(">"),
            BinaryOperator::LT => Some("<"),
            BinaryOperator::GE => Some(">="),
            BinaryOperator::LE => Some("<="),
            _ => None::<&'static str>,
        },
{
    match lhs_op {
        BinaryOperator::EqEq => Some("=="),
        BinaryOperator::GT => Some(">"),
        BinaryOperator::LT => Some("<"),
        BinaryOperator::GE => Some(">="),
        BinaryOperator::LE => Some("<="),
        _ => None,
    }
}

/// The one operator that `a lhs_op b middle_op a rhs_op b` says the same as.
pub open spec fn simplified_operator(
    lhs_op: BinaryOperator,
    rhs_op: BinaryOperator,
    middle_op: BinaryOperator,
) -> Option<Seq<char>> {
    match (lhs_op, middle_op, rhs_op) {
        (BinaryOperator::LE, BinaryOperator::AndAnd, BinaryOperator::GE)
        | (BinaryOperator::GE, BinaryOperator::AndAnd, BinaryOperator::LE) => Some("=="@),
        (BinaryOperator::LT, BinaryOperator::OrOr, BinaryOperator::EqEq)
        | (BinaryOperator::EqEq, BinaryOperator::OrOr, BinaryOperator::LT) => Some("<="@),
        (BinaryOperator::GT, BinaryOperator::OrOr, BinaryOperator::EqEq)
        | (BinaryOperator::EqEq, BinaryOperator::OrOr, BinaryOperator::GT) => Some(">="@),
        (BinaryOperator::LT, BinaryOperator::OrOr, BinaryOperator::GT)
        | (BinaryOperator::GT, BinaryOperator::OrOr, BinaryOperator::LT) => Some("!="@),
        _ => None,
    }
}

/// The one operator that two comparisons of the same operands joined by
/// `middle_op` say the same as, if there is one.
pub fn determine_simplified_operator(
    lhs_op: &BinaryOperator,
    rhs_op: &BinaryOperator,
    middle_op: &BinaryOperator,
) -> (r: Option<&'static str>)
    ensures
        match r {
            Some(s) => simplified_operator(*lhs_op, *rhs_op, *middle_op) == Some(s@),
            None => simplified_operator(*lhs_op, *rhs_op, *middle_op) is None,
        },
{
    match (lhs_op, middle_op, rhs_op) {
        (BinaryOperator::LE, BinaryOperator::AndAnd, BinaryOperator::GE)
        | (BinaryOperator::GE, BinaryOperator::AndAnd, BinaryOperator::LE) => Some("=="),
        (BinaryOperator::LT, BinaryOperator::OrOr, BinaryOperator::EqEq)
        | (BinaryOperator::EqEq, BinaryOperator::OrOr, BinaryOperator::LT) => Some("<="),
        (BinaryOperator::GT, BinaryOperator::OrOr, BinaryOperator::EqEq)
        | (BinaryOperator::EqEq, BinaryOperator::OrOr, BinaryOperator::GT) => Some(">="),
        (BinaryOperator::LT, BinaryOperator::OrOr, BinaryOperator::GT)
        | (BinaryOperator::GT, BinaryOperator::OrOr, BinaryOperator::LT) => Some("!="),
        _ => None,
    }
}

/// The operator of a binary expression.
pub fn extract_binary_operator_expr(expr: &AstExpr) -> (r: Option<BinaryOperator>)
    ensures
        r == match expr {
            AstExpr::Binary(b) => Some(b.op),
            _ => None,
        },
{
    match expr {
        AstExpr::Binary(b) => Some(b.op),
        _ => None,
    }
}

/// What a comparison trait function says of `x` and `y`.
pub open spec fn holds(op: Seq<char>, x: int, y: int) -> bool {
    if op == LE@ {
        x <= y
    } else if op == GE@ {
        x >= y
    } else if op == LT@ {
        x < y
    } else if op == GT@ {
        x > y
    } else if op == EQ@ {
        x == y
    } else {
        false
    }
}

proof fn lemma_comparison_paths_distinct()
    ensures
        LE@ != GE@,
        LE@ != LT@,
        LE@ != GT@,
        LE@ != EQ@,
        GE@ != LT@,
        GE@ != GT@,
        GE@ != EQ@,
        LT@ != GT@,
        LT@ != EQ@,
        GT@ != EQ@,
{
    reveal_strlit("core::traits::PartialOrd::le");
    reveal_strlit("core::traits::PartialOrd::ge");
    reveal_strlit("core::traits::PartialOrd::lt");
    reveal_strlit("core::traits::PartialOrd::gt");
    reveal_strlit("core::traits::PartialEq::eq");
    assert(LE@[26] != GE@[26]);
    assert(LE@[27] != LT@[27]);
    assert(LE@[26] != GT@[26]);
    assert(LE@.len() != EQ@.len());
    assert(GE@[26] != LT@[26]);
    assert(GE@[27] != GT@[27]);
    assert(GE@.len() != EQ@.len());
    assert(LT@[26] != GT@[26]);
    assert(LT@.len() != EQ@.len());
    assert(GT@.len() != EQ@.len());
}

/// Where the bounds of `x l a && x r b` leave no value, no integer `x` meets
/// both comparisons (the variable written on the left of each).
pub proof fn lemma_impossible_bounds_sound(l: Seq<char>, r: Seq<char>, a: int, b: int, x: int)
    requires
        impossible_bounds(l, LogicalOperator::AndAnd, r, a, b),
    ensures
        !(holds(l, x, a) && holds(r, x, b)),
{
    lemma_comparison_paths_distinct();
}

/// Two comparisons of the same operands, in the same order, reported as
/// contradictory never hold together.
pub proof fn lemma_contradictory_sound(l: Seq<char>, r: Seq<char>, x: int, y: int)
    requires
        contradictory(l, LogicalOperator::AndAnd, r),
    ensures
        !(holds(l, x, y) && holds(r, x, y)),
{
    lemma_comparison_paths_distinct();
}

/// What a comparison of a variable `x` with a literal `a` says, the literal on
/// the left where `literal_left`.
pub open spec fn literal_comparison_holds(op: Seq<char>, literal_left: bool, x: int, a: int) -> bool {
    if literal_left {
        holds(op, a, x)
    } else {
        holds(op, x, a)
    }
}

/// Where the bounds of two comparisons of `x` with literals, each read with
/// the variable first, leave no value, no integer `x` meets both comparisons as
/// they are written.
pub proof fn lemma_impossible_sound(
    l: Seq<char>,
    l_left: bool,
    r: Seq<char>,
    r_left: bool,
    a: int,
    b: int,
    x: int,
)
    requires
        impossible_bounds(oriented(l, l_left), LogicalOperator::AndAnd, oriented(r, r_left), a, b),
    ensures
        !(literal_comparison_holds(l, l_left, x, a) && literal_comparison_holds(r, r_left, x, b)),
{
    lemma_impossible_bounds_sound(oriented(l, l_left), oriented(r, r_left), a, b, x);
    lemma_flipped_holds(l, x, a);
    lemma_flipped_holds(r, x, b);
}

/// A comparison read with its operands in the other order says the same.
pub proof fn lemma_flipped_holds(op: Seq<char>, x: int, y: int)
    ensures
        holds(flipped(op), x, y) == holds(op, y, x),
{
    lemma_comparison_paths_distinct();
}

/// Two comparisons of the same operands reported as contradictory, the right
/// one read with the operands in the left one's order, never hold together.
pub proof fn lemma_contradictory_oriented_sound(
    l: Seq<char>,
    r: Seq<char>,
    swap: bool,
    x: int,
    y: int,
)
    requires
        contradictory(l, LogicalOperator::AndAnd, oriented(r, swap)),
    ensures
        !(holds(l, x, y) && if swap {
            holds(r, y, x)
        } else {
            holds(r, x, y)
        }),
{
    lemma_contradictory_sound(l, oriented(r, swap), x, y);
    lemma_flipped_holds(r, x, y);
}

/// What a comparison operator says of `x` and `y`.
pub open spec fn binary_holds(op: BinaryOperator, x: int, y: int) -> bool {
    match op {
        BinaryOperator::EqEq => x == y,
        BinaryOperator::Neq => x != y,
        BinaryOperator::LT => x < y,
        BinaryOperator::GT => x > y,
        BinaryOperator::LE => x <= y,
        BinaryOperator::GE => x >= y,
        _ => false,
    }
}

/// The comparison operator that says the same of the operands swapped.
pub open spec fn flipped_binary(op: BinaryOperator) -> BinaryOperator {
    match op {
        BinaryOperator::LT => BinaryOperator::GT,
        BinaryOperator::GT => BinaryOperator::LT,
        BinaryOperator::LE => BinaryOperator::GE,
        BinaryOperator::GE => BinaryOperator::LE,
        _ => op,
    }
}

/// The comparison operator read with its operands in the other order.
pub fn flip_binary_operator(op: BinaryOperator) -> (r: BinaryOperator)
    ensures
        r == flipped_binary(op),
{
    match op {
        BinaryOperator::LT => BinaryOperator::GT,
        BinaryOperator::GT => BinaryOperator::LT,
        BinaryOperator::LE => BinaryOperator::GE,
        BinaryOperator::GE => BinaryOperator::LE,
        _ => op,
    }
}

/// A comparison operator read with its operands swapped says the same.
pub proof fn lemma_flipped_binary_holds(op: BinaryOperator, x: int, y: int)
    ensures
        binary_holds(flipped_binary(op), x, y) == binary_holds(op, y, x),
{
}

/// What an operator written as text says of `x` and `y`.
pub open spec fn text_holds(op: Seq<char>, x: int, y: int) -> bool {
    if op == "=="@ {
        x == y
    } else if op == "!="@ {
        x != y
    } else if op == "<="@ {
        x <= y
    } else if op == ">="@ {
        x >= y
    } else {
        false
    }
}

/// `p && q` or `p || q`, by the operator.
pub open spec fn joined(middle_op: BinaryOperator, p: bool, q: bool) -> bool {
    if middle_op == BinaryOperator::AndAnd {
        p && q
    } else {
        p || q
    }
}

/// The operator that two comparisons are simplified to says of the operands
/// exactly what the two said together.
pub proof fn lemma_simplified_operator_sound(
    lhs_op: BinaryOperator,
    rhs_op: BinaryOperator,
    middle_op: BinaryOperator,
    x: int,
    y: int,
)
    requires
        simplified_operator(lhs_op, rhs_op, middle_op) is Some,
    ensures
        joined(middle_op, binary_holds(lhs_op, x, y), binary_holds(rhs_op, x, y)) == text_holds(
            simplified_operator(lhs_op, rhs_op, middle_op)->0,
            x,
            y,
        ),
{
    reveal_strlit("==");
    reveal_strlit("!=");
    reveal_strlit("<=");
    reveal_strlit(">=");
    assert("=="@[0] != "!="@[0]);
    assert("=="@[0] != "<="@[0]);
    assert("=="@[0] != ">="@[0]);
    assert("!="@[0] != "<="@[0]);
    assert("!="@[0] != ">="@[0]);
    assert("<="@[0] != ">="@[0]);
}

/// The simplified operator does not depend on which comparison comes first.
pub proof fn lemma_simplified_operator_symmetric(
    lhs_op: BinaryOperator,
    rhs_op: BinaryOperator,
    middle_op: BinaryOperator,
)
    ensures
        simplified_operator(lhs_op, rhs_op, middle_op) == simplified_operator(
            rhs_op,
            lhs_op,
            middle_op,
        ),
{
}

/// Where the right comparison names its operands in the other order, the
/// operator that the two are simplified to (the right one read in the left
/// one's order) says of the operands exactly what the two said together.
pub proof fn lemma_simplified_swapped_sound(
    lhs_op: BinaryOperator,
    rhs_op: BinaryOperator,
    middle_op: BinaryOperator,
    x: int,
    y: int,
)
    requires
        simplified_operator(lhs_op, flipped_binary(rhs_op), middle_op) is Some,
    ensures
        joined(middle_op, binary_holds(lhs_op, x, y), binary_holds(rhs_op, y, x)) == text_holds(
            simplified_operator(lhs_op, flipped_binary(rhs_op), middle_op)->0,
            x,
            y,
        ),
{
    lemma_simplified_operator_sound(lhs_op, flipped_binary(rhs_op), middle_op, x, y);
    lemma_flipped_binary_holds(rhs_op, x, y);
}

} // verus!
