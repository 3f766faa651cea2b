//! `if let` on a value that a plain `==` compares.
use vstd::prelude::*;

use crate::diagnostics::{diag, diag_views, push_diagnostic, DiagView, PluginDiagnostic, Severity};
use crate::semantic::{Arenas, Condition, Expr, ExprIf, Pattern, PatternId};
use crate::syntax::{allows, is_allowed};

verus! {

broadcast use vstd::seq::Seq::add_empty_right;

pub const EQUATABLE_IF_LET: &'static str =
    "`if let` pattern used for equatable value. Consider using a simple comparison `==` instead";

pub const LINT_NAME: &'static str = "equatable_if_let";

/// A literal, a string literal or a variable.
pub open spec fn simple_equality_expr(e: Expr) -> bool {
    e is Literal || e is StringLiteral || e is Var
}

/// A literal or a string literal pattern.
pub open spec fn literal_pattern(p: Pattern) -> bool {
    p is Literal || p is StringLiteral
}

/// The first pattern that is a literal or an enum variant decides: a literal
/// is simple, and so is a variant with no inner pattern or a literal one.
pub open spec fn simple_equality_condition(arenas: Arenas, patterns: Seq<PatternId>) -> bool
    decreases patterns.len(),
{
    if patterns.len() == 0 {
        false
    } else {
        match arenas.patterns@[patterns[0] as int] {
            Pattern::Literal(_) | Pattern::StringLiteral(_) => true,
            Pattern::EnumVariant(p) => match p.inner_pattern {
                None => true,
                Some(q) => literal_pattern(arenas.patterns@[q as int]),
            },
            _ => simple_equality_condition(arenas, patterns.drop_first()),
        }
    }
}

fn is_simple_equality_expr(expr: &Expr) -> (r: bool)
    ensures
        r == simple_equality_expr(*expr),
{
    match expr {
        Expr::Literal(_, _) | Expr::StringLiteral(_, _) | Expr::Var(_, _) => true,
        _ => false,
    }
}

fn is_simple_equality_condition(patterns: &Vec<PatternId>, arenas: &Arenas) -> (r: bool)
    requires
        arenas.wf(),
        forall|k: int| 0 <= k < patterns@.len() ==> 0 <= #[trigger] patterns@[k] < arenas.patterns@.len(),
    ensures
        r == simple_equality_condition(*arenas, patterns@),
{
    let mut i: usize = 0;
    assert(patterns@.skip(0) =~= patterns@);
    while i < patterns.len()
        invariant
            arenas.wf(),
            i <= patterns@.len(),
            forall|k: int| 0 <= k < patterns@.len() ==> 0 <= #[trigger] patterns@[k] < arenas.patterns@.len(),
            simple_equality_condition(*arenas, patterns@.skip(i as int)) == simple_equality_condition(
                *arenas,
                patterns@,
            ),
        decreases patterns@.len() - i,
    {
        assert(patterns@.skip(i as int)[0] == patterns@[i as int]);
        assert(patterns@.skip(i as int).drop_first() =~= patterns@.skip(i + 1));
        let p = patterns[i];
        proof {
            assert(arenas.pattern_wf(p as int));
        }
        match &arenas.patterns[p] {
            Pattern::Literal(_) | Pattern::StringLiteral(_) => {
                return true;
            },
            Pattern::EnumVariant(pat) => {
                return match pat.inner_pattern {
                    None => true,
                    Some(q) => matches!(
                        arenas.patterns[q],
                        Pattern::Literal(_) | Pattern::StringLiteral(_)
                    ),
                };
            },
            _ => {},
        }
        i = i + 1;
    }
    false
}

/// Reports `if let` on a literal or a variable with a literal pattern (or an
/// enum variant with nothing or a literal inside), unless an
/// `#[allow(equatable_if_let)]` stands on an ancestor.
pub fn check_equatable_if_let(
    expr: &ExprIf,
    arenas: &Arenas,
    diagnostics: &mut Vec<PluginDiagnostic>,
)
    requires
        arenas.wf(),
        arenas.fits(Expr::If(*expr)),
    ensures
        diag_views(final(diagnostics)@) == diag_views(old(diagnostics)@) + if !allows(
            expr.node,
            LINT_NAME@,
        ) && match expr.condition {
            Condition::Let(x, patterns) => simple_equality_expr(arenas.exprs@[x as int])
                && simple_equality_condition(*arenas, patterns@),
            _ => false,
        } {
            seq![diag(expr.node.ptr.id, EQUATABLE_IF_LET@, Severity::Warning)]
        } else {
            Seq::<DiagView>::empty()
        },
{
    let ghost old_views = diag_views(diagnostics@);
    if is_allowed(&expr.node, LINT_NAME) {
        return ;
    }
    if let Condition::Let(condition_let, patterns) = &expr.condition {
        let expr_is_simple = is_simple_equality_expr(&arenas.exprs[*condition_let]);
        let condition_is_simple = is_simple_equality_condition(patterns, arenas);
        if expr_is_simple && condition_is_simple {
            push_diagnostic(diagnostics, expr.node.ptr.id, EQUATABLE_IF_LET, Severity::Warning);
            assert(diag_views(diagnostics@) =~= old_views + seq![
                diag(expr.node.ptr.id, EQUATABLE_IF_LET@, Severity::Warning),
            ]);
            return ;
        }
    }
}

} // verus!
