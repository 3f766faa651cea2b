//! Parameters whose names differ only by a leading `_`, such as `fn foo(a, _a)`.
use vstd::prelude::*;

use crate::diagnostics::{diag, diag_views, push_diagnostic, DiagView, PluginDiagnostic, Severity};
use crate::semantic::Parameter;
use crate::text::{chars_of, seq_eq, slice_of};

verus! {

broadcast use vstd::seq::Seq::add_empty_right;

pub const DUPLICATE_UNDERSCORE_ARGS: &'static str =
    "duplicate arguments, having another argument having almost the same name makes code comprehension and documentation more difficult";

pub const ALLOWED: [&'static str; 1] = [LINT_NAME];

pub const LINT_NAME: &'static str = "duplicate_underscore_args";

/// The name without one leading `_`.
pub open spec fn stripped(name: Seq<char>) -> Seq<char> {
    if name.len() > 0 && name[0] == '_' {
        name.drop_first()
    } else {
        name
    }
}

/// An earlier parameter of `params` has the same stripped name as the one at `i`.
pub open spec fn repeats_earlier(params: Seq<Parameter>, i: int) -> bool {
    exists|j: int| 0 <= j < i && #[trigger] stripped(params[j].name@) == stripped(params[i].name@)
}

/// One diagnostic, in order, for each parameter whose stripped name an earlier
/// parameter has.
pub open spec fn duplicate_diags(params: Seq<Parameter>) -> Seq<DiagView>
    decreases params.len(),
{
    if params.len() == 0 {
        Seq::empty()
    } else {
        let i = params.len() - 1;
        duplicate_diags(params.drop_last()) + if repeats_earlier(params, i) {
            seq![diag(params[i].stable_ptr, DUPLICATE_UNDERSCORE_ARGS@, Severity::Warning)]
        } else {
            Seq::<DiagView>::empty()
        }
    }
}

proof fn lemma_duplicate_diags_prefix(params: Seq<Parameter>, i: int)
    requires
        0 <= i < params.len(),
    ensures
        duplicate_diags(params.take(i + 1)) == duplicate_diags(params.take(i)) + if repeats_earlier(params, i) {
            seq![diag(params[i].stable_ptr, DUPLICATE_UNDERSCORE_ARGS@, Severity::Warning)]
        } else {
            Seq::<DiagView>::empty()
        },
{
    let p = params.take(i + 1);
    assert(p.drop_last() =~= params.take(i));
    assert(repeats_earlier(p, i) == repeats_earlier(params, i)) by {
        if repeats_earlier(params, i) {
            let j = choose|j: int| 0 <= j < i && #[trigger] stripped(params[j].name@) == stripped(params[i].name@);
            assert(stripped(p[j].name@) == stripped(p[i].name@));
        }
        if repeats_earlier(p, i) {
            let j = choose|j: int| 0 <= j < i && #[trigger] stripped(p[j].name@) == stripped(p[i].name@);
            assert(stripped(params[j].name@) == stripped(params[i].name@));
        }
    }
}

fn strip_underscore(name: &str) -> (r: Vec<char>)
    ensures
        r@ == stripped(name@),
{
    let n = chars_of(name);
    if n.len() > 0 && n[0] == '_' {
        let r = slice_of(&n, 1, n.len());
        assert(r@ =~= n@.drop_first());
        r
    } else {
        n
    }
}

/// Reports each parameter whose name, without a leading `_`, an earlier
/// parameter's name has too.
pub fn check_duplicate_underscore_args(params: Vec<Parameter>, diagnostics: &mut Vec<PluginDiagnostic>)
    ensures
        diag_views(final(diagnostics)@) == diag_views(old(diagnostics)@) + duplicate_diags(params@),
{
    let ghost old_views = diag_views(diagnostics@);
    let mut registered_names: Vec<Vec<char>> = Vec::new();
    let mut i: usize = 0;
    assert(params@.take(0) =~= Seq::<Parameter>::empty());
    while i < params.len()
        invariant
            i <= params@.len(),
            registered_names@.len() == i,
            forall|k: int| 0 <= k < i ==> #[trigger] registered_names@[k]@ == stripped(params@[k].name@),
            diag_views(diagnostics@) == old_views + duplicate_diags(params@.take(i as int)),
            old_views == diag_views(old(diagnostics)@),
        decreases params@.len() - i,
    {
        let stripped_name = strip_underscore(params[i].name.as_str());
        let mut found = false;
        let mut k: usize = 0;
        while k < registered_names.len()
            invariant
                k <= registered_names@.len(),
                registered_names@.len() == i,
                i < params@.len(),
                stripped_name@ == stripped(params@[i as int].name@),
                forall|j: int| 0 <= j < i ==> #[trigger] registered_names@[j]@ == stripped(params@[j].name@),
                found == exists|j: int| 0 <= j < k && #[trigger] stripped(params@[j].name@) == stripped(params@[i as int].name@),
            decreases registered_names@.len() - k,
        {
            if seq_eq(&registered_names[k], &stripped_name) {
                found = true;
            }
            assert(found == exists|j: int| 0 <= j < k + 1 && #[trigger] stripped(params@[j].name@) == stripped(params@[i as int].name@)) by {
                if stripped(params@[k as int].name@) == stripped(params@[i as int].name@) {
                    assert(registered_names@[k as int]@ == stripped_name@);
                }
            }
            k = k + 1;
        }
        assert(found == repeats_earlier(params@, i as int));
        proof {
            lemma_duplicate_diags_prefix(params@, i as int);
        }
        let ghost before = diag_views(diagnostics@);
        if found {
            push_diagnostic(diagnostics, params[i].stable_ptr, DUPLICATE_UNDERSCORE_ARGS, Severity::Warning);
        }
        assert(diag_views(diagnostics@) =~= old_views + duplicate_diags(params@.take(i + 1)));
        registered_names.push(stripped_name);
        i = i + 1;
    }
    assert(params@.take(params@.len() as int) =~= params@);
}

} // verus!
