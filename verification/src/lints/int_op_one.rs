//! Integer comparisons with a `+ 1` or `- 1` that a strict comparison says
//! without: `x >= y + 1`, `x - 1 >= y`, `x + 1 <= y` and `x <= y - 1`.
use vstd::prelude::*;

use crate::diagnostics::{diag, diag_views, push_diagnostic, DiagView, PluginDiagnostic, Severity};
use crate::int_value::{eq as int_eq, IntValue};
use crate::semantic::{Arenas, Expr, ExprFunctionCall, ExprFunctionCallArg};
use crate::syntax::{allows, is_allowed};
use crate::text::{contains, lemma_contains_within, occurs_at, str_contains};

verus! {

broadcast use vstd::seq::Seq::add_empty_right;

pub const INT_GE_PLUS_ONE: &'static str =
    "Unnecessary add operation in integer >= comparison. Use simplified comparison.";

pub const INT_GE_MIN_ONE: &'static str =
    "Unnecessary sub operation in integer >= comparison. Use simplified comparison.";

pub const INT_LE_PLUS_ONE: &'static str =
    "Unnecessary add operation in integer <= comparison. Use simplified comparison.";

pub const INT_LE_MIN_ONE: &'static str =
    "Unnecessary sub operation in integer <= comparison. Use simplified comparison.";

pub const ALLOWED: [&'static str; 1] = [LINT_NAME];

pub const LINT_NAME: &'static str = "int_plus_one";

/// The function's full name is that of an integer `>=` or `<=`.
pub open spec fn is_int_ge_or_le(full_name: Seq<char>) -> bool {
    contains(full_name, "core::integer::"@) && (contains(full_name, "PartialOrd::ge"@) || contains(
        full_name,
        "PartialOrd::le"@,
    ))
}

/// The argument is a variable or a `ref` argument.
pub open spec fn is_variable(arenas: Arenas, arg: ExprFunctionCallArg) -> bool {
    match arg {
        ExprFunctionCallArg::Value(v) => arenas.exprs@[v as int] is Var,
        ExprFunctionCallArg::Reference(_) => true,
    }
}

/// The argument is a call of the integer `operation` (`::add` or `::sub`, a
/// function of the integer module) whose left operand is a variable (or a
/// `ref`) and whose right operand is the literal 1.
pub open spec fn is_add_or_sub_one(arenas: Arenas, arg: ExprFunctionCallArg, operation: Seq<char>) -> bool {
    match arg {
        ExprFunctionCallArg::Value(v) => match arenas.exprs@[v as int] {
            Expr::FunctionCall(f) => {
                &&& contains(f.function.full_name@, "core::integer::"@)
                &&& contains(f.function.full_name@, operation)
                &&& f.args@.len() == 2
                &&& is_variable(arenas, f.args@[0])
                &&& match f.args@[1] {
                    ExprFunctionCallArg::Value(w) => match arenas.exprs@[w as int] {
                        Expr::Literal(_, value) => value.value() == 1,
                        _ => false,
                    },
                    ExprFunctionCallArg::Reference(_) => false,
                }
            },
            _ => false,
        },
        ExprFunctionCallArg::Reference(_) => false,
    }
}

/// One diagnostic where `cond` holds.
pub open spec fn diag_if(cond: bool, d: DiagView) -> Seq<DiagView> {
    if cond {
        seq![d]
    } else {
        Seq::empty()
    }
}

/// The diagnostics of `check_int_plus_one` on an integer comparison.
pub open spec fn int_plus_one_diags(call: ExprFunctionCall, arenas: Arenas) -> Seq<DiagView> {
    let name = call.function.full_name@;
    if allows(call.node, LINT_NAME@) || !is_int_ge_or_le(name) {
        Seq::empty()
    } else {
        let (lhs, rhs) = (call.args@[0], call.args@[1]);
        let id = call.node.ptr.id;
        let ge = contains(name, "::ge"@);
        let le = contains(name, "::le"@);
        diag_if(
            is_variable(arenas, lhs) && is_add_or_sub_one(arenas, rhs, "::add"@) && ge,
            diag(id, INT_GE_PLUS_ONE@, Severity::Warning),
        ) + diag_if(
            is_add_or_sub_one(arenas, lhs, "::sub"@) && is_variable(arenas, rhs) && ge,
            diag(id, INT_GE_MIN_ONE@, Severity::Warning),
        ) + diag_if(
            is_add_or_sub_one(arenas, lhs, "::add"@) && is_variable(arenas, rhs) && le,
            diag(id, INT_LE_PLUS_ONE@, Severity::Warning),
        ) + diag_if(
            is_variable(arenas, lhs) && is_add_or_sub_one(arenas, rhs, "::sub"@) && le,
            diag(id, INT_LE_MIN_ONE@, Severity::Warning),
        )
    }
}

fn check_is_variable(arg: &ExprFunctionCallArg, arenas: &Arenas) -> (r: bool)
    requires
        arg matches ExprFunctionCallArg::Value(v) ==> v < arenas.exprs@.len(),
    ensures
        r == is_variable(*arenas, *arg),
{
    if let ExprFunctionCallArg::Value(val_expr) = arg {
        if let Expr::Var(_, _) = &arenas.exprs[*val_expr] {
        } else {
            return false;
        }
    }
    true
}

fn is_one(v: &IntValue) -> (r: bool)
    ensures
        r == (v.value() == 1),
{
    int_eq(v, &IntValue::from_u32(1))
}

fn check_is_add_or_sub_one(arg: &ExprFunctionCallArg, arenas: &Arenas, operation: &str) -> (r: bool)
    requires
        arenas.wf(),
        arg matches ExprFunctionCallArg::Value(v) ==> v < arenas.exprs@.len(),
    ensures
        r == is_add_or_sub_one(*arenas, *arg, operation@),
{
    let v = match arg {
        ExprFunctionCallArg::Value(v) => *v,
        _ => {
            return false;
        },
    };
    proof {
        assert(arenas.expr_wf(v as int));
    }
    let func_call = match &arenas.exprs[v] {
        Expr::FunctionCall(f) => f,
        _ => {
            return false;
        },
    };
    let full_name = func_call.function.full_name.as_str();
    if !str_contains(full_name, "core::integer::") || !str_contains(full_name, operation)
        || func_call.args.len() != 2 {
        return false;
    }
    let lhs = &func_call.args[0];
    let rhs = &func_call.args[1];
    if !check_is_variable(lhs, arenas) {
        return false;
    }
    match rhs {
        ExprFunctionCallArg::Value(w) => match &arenas.exprs[*w] {
            Expr::Literal(_, litteral) => is_one(litteral),
            _ => false,
        },
        ExprFunctionCallArg::Reference(_) => false,
    }
}

/// Reports `x >= y + 1`, `x - 1 >= y`, `x + 1 <= y` and `x <= y - 1` on
/// integers, unless an `#[allow(int_plus_one)]` stands on an ancestor.
pub fn check_int_plus_one(
    expr_func: &ExprFunctionCall,
    arenas: &Arenas,
    diagnostics: &mut Vec<PluginDiagnostic>,
)
    requires
        arenas.wf(),
        arenas.fits(Expr::FunctionCall(*expr_func)),
        is_int_ge_or_le(expr_func.function.full_name@) ==> expr_func.args@.len() >= 2,
    ensures
        diag_views(final(diagnostics)@) == diag_views(old(diagnostics)@) + int_plus_one_diags(
            *expr_func,
            *arenas,
        ),
{
    let ghost old_views = diag_views(diagnostics@);
    if is_allowed(&expr_func.node, LINT_NAME) {
        return ;
    }
    let full_name = expr_func.function.full_name.as_str();
    if !str_contains(full_name, "core::integer::") || (!str_contains(full_name, "PartialOrd::ge")
        && !str_contains(full_name, "PartialOrd::le")) {
        return ;
    }
    proof {
        assert(arenas.refs_below(Expr::FunctionCall(*expr_func), arenas.exprs@.len() as int));
        assert(expr_func.args@[0] matches ExprFunctionCallArg::Value(v) ==> v < arenas.exprs@.len());
        assert(expr_func.args@[1] matches ExprFunctionCallArg::Value(v) ==> v < arenas.exprs@.len());
    }
    let lhs = &expr_func.args[0];
    let rhs = &expr_func.args[1];
    let id = expr_func.node.ptr.id;
    let ge = str_contains(full_name, "::ge");
    let le = str_contains(full_name, "::le");
    let ghost s1 = diag_views(diagnostics@);
    if check_is_variable(lhs, arenas) && check_is_add_or_sub_one(rhs, arenas, "::add") && ge {
        push_diagnostic(diagnostics, id, INT_GE_PLUS_ONE, Severity::Warning);
    }
    let ghost s2 = diag_views(diagnostics@);
    if check_is_add_or_sub_one(lhs, arenas, "::sub") && check_is_variable(rhs, arenas) && ge {
        push_diagnostic(diagnostics, id, INT_GE_MIN_ONE, Severity::Warning);
    }
    let ghost s3 = diag_views(diagnostics@);
    if check_is_add_or_sub_one(lhs, arenas, "::add") && check_is_variable(rhs, arenas) && le {
        push_diagnostic(diagnostics, id, INT_LE_PLUS_ONE, Severity::Warning);
    }
    let ghost s4 = diag_views(diagnostics@);
    if check_is_variable(lhs, arenas) && check_is_add_or_sub_one(rhs, arenas, "::sub") && le {
        push_diagnostic(diagnostics, id, INT_LE_MIN_ONE, Severity::Warning);
    }
    proof {
        let (a, b) = (*lhs, *rhs);
        let w1 = diag_if(
            is_variable(*arenas, a) && is_add_or_sub_one(*arenas, b, "::add"@) && ge,
            diag(id, INT_GE_PLUS_ONE@, Severity::Warning),
        );
        let w2 = diag_if(
            is_add_or_sub_one(*arenas, a, "::sub"@) && is_variable(*arenas, b) && ge,
            diag(id, INT_GE_MIN_ONE@, Severity::Warning),
        );
        let w3 = diag_if(
            is_add_or_sub_one(*arenas, a, "::add"@) && is_variable(*arenas, b) && le,
            diag(id, INT_LE_PLUS_ONE@, Severity::Warning),
        );
        let w4 = diag_if(
            is_variable(*arenas, a) && is_add_or_sub_one(*arenas, b, "::sub"@) && le,
            diag(id, INT_LE_MIN_ONE@, Severity::Warning),
        );
        assert(s2 =~= s1 + w1);
        assert(s3 =~= s2 + w2);
        assert(s4 =~= s3 + w3);
        assert(diag_views(diagnostics@) =~= s4 + w4);
        assert(diag_views(diagnostics@) =~= old_views + (w1 + w2 + w3 + w4));
    }
}

/// The argument is a variable or a `ref` argument.
pub open spec fn variable_or_ref(arenas: Arenas, arg: ExprFunctionCallArg) -> bool {
    ||| arg is Reference
    ||| (arg matches ExprFunctionCallArg::Value(v) && arenas.exprs@[v as int] is Var)
}

/// The argument is `v op 1`: a call of an integer function (one of
/// `core::integer::`) whose name holds `op`, of a variable (or `ref`) and the
/// literal 1.
pub open spec fn variable_step_by_one(arenas: Arenas, arg: ExprFunctionCallArg, op: Seq<char>) -> bool {
    &&& arg matches ExprFunctionCallArg::Value(v)
    &&& arenas.exprs@[v as int] matches Expr::FunctionCall(f)
    &&& contains(f.function.full_name@, "core::integer::"@)
    &&& contains(f.function.full_name@, op)
    &&& f.args@.len() == 2
    &&& variable_or_ref(arenas, f.args@[0])
    &&& f.args@[1] matches ExprFunctionCallArg::Value(w)
    &&& arenas.exprs@[w as int] matches Expr::Literal(_, one)
    &&& one.value() == 1
}

/// Some diagnostic of the list has this message.
pub open spec fn has_message(ds: Seq<DiagView>, m: Seq<char>) -> bool {
    exists|i: int| 0 <= i < ds.len() && (#[trigger] ds[i]).message == m
}

proof fn lemma_messages_distinct()
    ensures
        INT_GE_PLUS_ONE@ != INT_GE_MIN_ONE@,
        INT_GE_PLUS_ONE@ != INT_LE_PLUS_ONE@,
        INT_GE_PLUS_ONE@ != INT_LE_MIN_ONE@,
        INT_GE_MIN_ONE@ != INT_LE_PLUS_ONE@,
        INT_GE_MIN_ONE@ != INT_LE_MIN_ONE@,
        INT_LE_PLUS_ONE@ != INT_LE_MIN_ONE@,
{
    reveal_strlit("Unnecessary add operation in integer >= comparison. Use simplified comparison.");
    reveal_strlit("Unnecessary sub operation in integer >= comparison. Use simplified comparison.");
    reveal_strlit("Unnecessary add operation in integer <= comparison. Use simplified comparison.");
    reveal_strlit("Unnecessary sub operation in integer <= comparison. Use simplified comparison.");
    assert(INT_GE_PLUS_ONE@[12] != INT_GE_MIN_ONE@[12]);
    assert(INT_GE_PLUS_ONE@[37] != INT_LE_PLUS_ONE@[37]);
    assert(INT_GE_PLUS_ONE@[12] != INT_LE_MIN_ONE@[12]);
    assert(INT_GE_MIN_ONE@[12] != INT_LE_PLUS_ONE@[12]);
    assert(INT_GE_MIN_ONE@[37] != INT_LE_MIN_ONE@[37]);
    assert(INT_LE_PLUS_ONE@[12] != INT_LE_MIN_ONE@[12]);
}

proof fn lemma_step_matches(arenas: Arenas, arg: ExprFunctionCallArg, op: Seq<char>)
    ensures
        is_add_or_sub_one(arenas, arg, op) == variable_step_by_one(arenas, arg, op),
        is_variable(arenas, arg) == variable_or_ref(arenas, arg),
{
    match arg {
        ExprFunctionCallArg::Value(v) => match arenas.exprs@[v as int] {
            Expr::FunctionCall(f) => {
                assert(is_variable(arenas, f.args@[0]) == variable_or_ref(arenas, f.args@[0]));
            },
            _ => {},
        },
        _ => {},
    }
}

/// Which warnings an integer comparison gets, each said of its operands: for a
/// `>=` (its name holds `::ge`), `x >= y + 1` and `x - 1 >= y`; for a `<=`
/// (`::le`), `x + 1 <= y` and `x <= y - 1`; `x` and `y` variables, the
/// `+`/`-` an integer addition or subtraction of the literal 1. A warning is
/// given only there, and given wherever the comparison is an integer
/// `PartialOrd::ge` or `PartialOrd::le` and the lint is not allowed.
pub proof fn lemma_int_plus_one_warnings(call: ExprFunctionCall, arenas: Arenas)
    ensures
        ({
            let ds = int_plus_one_diags(call, arenas);
            let name = call.function.full_name@;
            let (x, y) = (call.args@[0], call.args@[1]);
            let base = !allows(call.node, LINT_NAME@) && contains(name, "core::integer::"@);
            &&& has_message(ds, INT_GE_PLUS_ONE@) ==> base && contains(name, "::ge"@)
                && variable_or_ref(arenas, x) && variable_step_by_one(arenas, y, "::add"@)
            &&& has_message(ds, INT_GE_MIN_ONE@) ==> base && contains(name, "::ge"@)
                && variable_step_by_one(arenas, x, "::sub"@) && variable_or_ref(arenas, y)
            &&& has_message(ds, INT_LE_PLUS_ONE@) ==> base && contains(name, "::le"@)
                && variable_step_by_one(arenas, x, "::add"@) && variable_or_ref(arenas, y)
            &&& has_message(ds, INT_LE_MIN_ONE@) ==> base && contains(name, "::le"@)
                && variable_or_ref(arenas, x) && variable_step_by_one(arenas, y, "::sub"@)
            &&& (base && contains(name, "PartialOrd::ge"@) && variable_or_ref(arenas, x)
                && variable_step_by_one(arenas, y, "::add"@)) ==> has_message(ds, INT_GE_PLUS_ONE@)
            &&& (base && contains(name, "PartialOrd::ge"@) && variable_step_by_one(arenas, x, "::sub"@)
                && variable_or_ref(arenas, y)) ==> has_message(ds, INT_GE_MIN_ONE@)
            &&& (base && contains(name, "PartialOrd::le"@) && variable_step_by_one(arenas, x, "::add"@)
                && variable_or_ref(arenas, y)) ==> has_message(ds, INT_LE_PLUS_ONE@)
            &&& (base && contains(name, "PartialOrd::le"@) && variable_or_ref(arenas, x)
                && variable_step_by_one(arenas, y, "::sub"@)) ==> has_message(ds, INT_LE_MIN_ONE@)
        }),
{
    let ds = int_plus_one_diags(call, arenas);
    let name = call.function.full_name@;
    let (x, y) = (call.args@[0], call.args@[1]);
    lemma_messages_distinct();
    lemma_step_matches(arenas, x, "::add"@);
    lemma_step_matches(arenas, x, "::sub"@);
    lemma_step_matches(arenas, y, "::add"@);
    lemma_step_matches(arenas, y, "::sub"@);
    reveal_strlit("PartialOrd::ge");
    reveal_strlit("PartialOrd::le");
    reveal_strlit("::ge");
    reveal_strlit("::le");
    if contains(name, "PartialOrd::ge"@) {
        assert(occurs_at("PartialOrd::ge"@, "::ge"@, 10)) by {
            assert("PartialOrd::ge"@.subrange(10, 14) =~= "::ge"@);
        }
        lemma_contains_within(name, "PartialOrd::ge"@, "::ge"@);
    }
    if contains(name, "PartialOrd::le"@) {
        assert(occurs_at("PartialOrd::le"@, "::le"@, 10)) by {
            assert("PartialOrd::le"@.subrange(10, 14) =~= "::le"@);
        }
        lemma_contains_within(name, "PartialOrd::le"@, "::le"@);
    }
    if !allows(call.node, LINT_NAME@) && is_int_ge_or_le(name) {
        let id = call.node.ptr.id;
        let ge = contains(name, "::ge"@);
        let le = contains(name, "::le"@);
        let w1 = diag_if(
            is_variable(arenas, x) && is_add_or_sub_one(arenas, y, "::add"@) && ge,
            diag(id, INT_GE_PLUS_ONE@, Severity::Warning),
        );
        let w2 = diag_if(
            is_add_or_sub_one(arenas, x, "::sub"@) && is_variable(arenas, y) && ge,
            diag(id, INT_GE_MIN_ONE@, Severity::Warning),
        );
        let w3 = diag_if(
            is_add_or_sub_one(arenas, x, "::add"@) && is_variable(arenas, y) && le,
            diag(id, INT_LE_PLUS_ONE@, Severity::Warning),
        );
        let w4 = diag_if(
            is_variable(arenas, x) && is_add_or_sub_one(arenas, y, "::sub"@) && le,
            diag(id, INT_LE_MIN_ONE@, Severity::Warning),
        );
        assert(ds == w1 + w2 + w3 + w4);
        let n1: int = w1.len() as int;
        let n2: int = n1 + w2.len();
        let n3: int = n2 + w3.len();
        assert forall|i: int| 0 <= i < ds.len() implies {
            let m = (#[trigger] ds[i]).message;
            &&& (m == INT_GE_PLUS_ONE@ ==> w1.len() == 1)
            &&& (m == INT_GE_MIN_ONE@ ==> w2.len() == 1)
            &&& (m == INT_LE_PLUS_ONE@ ==> w3.len() == 1)
            &&& (m == INT_LE_MIN_ONE@ ==> w4.len() == 1)
        } by {
            if i < n1 {
                assert(ds[i] == w1[i]);
            } else if i < n2 {
                assert(ds[i] == w2[i - n1]);
            } else if i < n3 {
                assert(ds[i] == w3[i - n2]);
            } else {
                assert(ds[i] == w4[i - n3]);
            }
        }
        if w1.len() == 1 {
            assert(ds[0] == w1[0]);
        }
        if w2.len() == 1 {
            assert(ds[n1] == w2[0]);
        }
        if w3.len() == 1 {
            assert(ds[n2] == w3[0]);
        }
        if w4.len() == 1 {
            assert(ds[n3] == w4[0]);
        }
    } else {
        assert(ds.len() == 0);
    }
}

} // verus!
