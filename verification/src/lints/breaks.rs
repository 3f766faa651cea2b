//! `break ();` where `break;` says the same.
use vstd::prelude::*;

use crate::diagnostics::{diag, diag_views, push_diagnostic, PluginDiagnostic, Severity};
use crate::syntax::SyntaxNode;
use crate::text::{chars_of, ends_with, ends_with_exec, str_eq};

verus! {

pub const BREAK_UNIT: &'static str =
    "unnecessary double parentheses found after break. Consider removing them.";

pub const ALLOWED: [&'static str; 1] = [LINT_NAME];

pub const LINT_NAME: &'static str = "break_unit";

/// A break statement that ends in `();`, unless its parent node carries
/// `#[allow(break_unit)]`.
pub open spec fn is_break_unit(node: SyntaxNode, parent_allow_args: Seq<String>) -> bool {
    !(exists|i: int| 0 <= i < parent_allow_args.len() && parent_allow_args[i]@ == LINT_NAME@)
        && ends_with(node.text_without_trivia@, "();"@)
}

/// Warns on `break ();`. `parent_allow_args` are the lint names that an
/// `#[allow(..)]` on the statement's parent names.
pub fn check_break(
    node: &SyntaxNode,
    parent_allow_args: &Vec<String>,
    diagnostics: &mut Vec<PluginDiagnostic>,
)
    ensures
        diag_views(final(diagnostics)@) == if is_break_unit(*node, parent_allow_args@) {
            diag_views(old(diagnostics)@).push(diag(node.ptr.id, BREAK_UNIT@, Severity::Warning))
        } else {
            diag_views(old(diagnostics)@)
        },
{
    let mut i: usize = 0;
    while i < parent_allow_args.len()
        invariant
            i <= parent_allow_args@.len(),
            forall|k: int| 0 <= k < i ==> parent_allow_args@[k]@ != LINT_NAME@,
        decreases parent_allow_args@.len() - i,
    {
        if str_eq(parent_allow_args[i].as_str(), LINT_NAME) {
            return;
        }
        i = i + 1;
    }
    if ends_with_exec(&chars_of(node.text_without_trivia.as_str()), &chars_of("();")) {
        push_diagnostic(diagnostics, node.ptr.id, BREAK_UNIT, Severity::Warning);
    }
}

} // verus!
