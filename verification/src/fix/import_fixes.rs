//! Fixes for unused imports: the `use` items and the items of `use` lists that
//! the compiler reports as unused, removed from the code.
use vstd::prelude::*;

use crate::fix::apply::{fix_views, Fix, FixView, TextSpan};
use crate::text::{
    append,
    chars_of,
    join,
    join_exec,
    replace,
    replace_exec,
    seq_eq,
    str_eq,
    string_of,
    trim,
    trim_exec,
    views,

};

verus! {

/// The kinds of syntax nodes that the import fixes tell apart.
#[derive(Clone, Copy, Debug, PartialEq, Eq, Structural)]
pub enum SyntaxKind {
    ItemUse,
    UsePathMulti,
    UsePathList,
    UsePathLeaf,
    Other,
}

/// A node of a syntax tree: its kind, parent, children (in order), text with
/// and without trivia, and span.
#[derive(Debug)]
pub struct TreeNode {
    pub kind: SyntaxKind,
    pub parent: Option<usize>,
    pub children: Vec<usize>,
    pub text: String,
    pub text_without_trivia: String,
    pub span: TextSpan,
}

/// The nodes of syntax trees, numbered in preorder.
#[derive(Debug)]
pub struct SyntaxTree {
    pub nodes: Vec<TreeNode>,
}

impl SyntaxTree {
    /// A parent comes before its children, children exist, and a `use` list
    /// has a parent.
    pub open spec fn wf(&self) -> bool {
        forall|i: int|
            0 <= i < self.nodes@.len() ==> {
                &&& (#[trigger] self.nodes@[i]).parent matches Some(p) ==> p < i
                &&& self.nodes@[i].kind == SyntaxKind::UsePathList ==> self.nodes@[i].parent is Some
                &&& forall|k: int|
                    0 <= k < self.nodes@[i].children@.len() ==> #[trigger] self.nodes@[i].children@[k]
                        < self.nodes@.len()
            }
    }
}

/// The fix for one `use` item or `use` list: the node, and the items of the
/// list to remove (none for a whole `use` item).
#[derive(Debug)]
pub struct ImportFix {
    pub node: usize,
    pub items_to_remove: Vec<String>,
}

impl ImportFix {
    /// The fix that removes the whole node.
    pub fn new(node: usize) -> (r: ImportFix)
        ensures
            r.node == node,
            r.items_to_remove@.len() == 0,
    {
        ImportFix { node, items_to_remove: Vec::new() }
    }
}

/// An unused import that the compiler reports: its file and the node of the
/// imported item.
#[derive(Debug)]
pub struct UnusedImport {
    pub file: u64,
    pub node: usize,
}

/// The nearest proper ancestor that is a `use` list with braces (`true`) or a
/// `use` item (`false`).
pub open spec fn use_ancestor(tree: SyntaxTree, n: int) -> Option<(usize, bool)>
    decreases n,
{
    if 0 <= n < tree.nodes@.len() {
        match tree.nodes@[n].parent {
            Some(p) => if p < n {
                if tree.nodes@[p as int].kind == SyntaxKind::UsePathMulti {
                    Some((p, true))
                } else if tree.nodes@[p as int].kind == SyntaxKind::ItemUse {
                    Some((p, false))
                } else {
                    use_ancestor(tree, p as int)
                }
            } else {
                None
            },
            None => None,
        }
    } else {
        None
    }
}

/// The items to remove of each node, by node.
pub open spec fn fixes_map(v: Seq<ImportFix>) -> Map<usize, Seq<Seq<char>>>
    decreases v.len(),
{
    if v.len() == 0 {
        Map::empty()
    } else {
        fixes_map(v.drop_last()).insert(v.last().node, views_s(v.last().items_to_remove@))
    }
}

/// No node has two fixes.
pub open spec fn unique_nodes(v: Seq<ImportFix>) -> bool {
    forall|i: int, j: int| 0 <= i < j < v.len() ==> v[i].node != v[j].node
}

/// The fixes after an unused import: its text added to the items of the `use`
/// list that holds it, or its whole `use` item removed.
pub open spec fn processed(tree: SyntaxTree, m: Map<usize, Seq<Seq<char>>>, unused: usize) -> Map<
    usize,
    Seq<Seq<char>>,
> {
    match use_ancestor(tree, unused as int) {
        Some((p, true)) => m.insert(
            p,
            (if m.contains_key(p) {
                m[p]
            } else {
                Seq::empty()
            }).push(tree.nodes@[unused as int].text_without_trivia@),
        ),
        Some((p, false)) => m.insert(p, Seq::empty()),
        None => m,
    }
}

proof fn lemma_fixes_map_index(v: Seq<ImportFix>, i: int)
    requires
        unique_nodes(v),
        0 <= i < v.len(),
    ensures
        fixes_map(v).contains_key(v[i].node),
        fixes_map(v)[v[i].node] == views_s(v[i].items_to_remove@),
    decreases v.len(),
{
    if i < v.len() - 1 {
        lemma_fixes_map_index(v.drop_last(), i);
    }
}

proof fn lemma_fixes_map_absent(v: Seq<ImportFix>, n: usize)
    requires
        forall|i: int| 0 <= i < v.len() ==> v[i].node != n,
    ensures
        !fixes_map(v).contains_key(n),
    decreases v.len(),
{
    if v.len() > 0 {
        lemma_fixes_map_absent(v.drop_last(), n);
    }
}

proof fn lemma_fixes_map_update(v: Seq<ImportFix>, i: int, x: ImportFix)
    requires
        unique_nodes(v),
        0 <= i < v.len(),
        x.node == v[i].node,
    ensures
        unique_nodes(v.update(i, x)),
        fixes_map(v.update(i, x)) == fixes_map(v).insert(x.node, views_s(x.items_to_remove@)),
    decreases v.len(),
{
    let w = v.update(i, x);
    if i == v.len() - 1 {
        assert(w.drop_last() =~= v.drop_last());
        assert(fixes_map(v).insert(x.node, views_s(x.items_to_remove@)) =~= fixes_map(
            v.drop_last(),
        ).insert(x.node, views_s(x.items_to_remove@)));
    } else {
        lemma_fixes_map_update(v.drop_last(), i, x);
        assert(w.drop_last() =~= v.drop_last().update(i, x));
        assert(fixes_map(w) =~= fixes_map(v).insert(x.node, views_s(x.items_to_remove@)));
    }
}

fn find_fix(fixes: &Vec<ImportFix>, node: usize) -> (r: Option<usize>)
    ensures
        match r {
            Some(i) => i < fixes@.len() && fixes@[i as int].node == node,
            None => forall|i: int| 0 <= i < fixes@.len() ==> fixes@[i].node != node,
        },
{
    let mut i: usize = 0;
    while i < fixes.len()
        invariant
            i <= fixes@.len(),
            forall|j: int| 0 <= j < i ==> fixes@[j].node != node,
        decreases fixes@.len() - i,
    {
        if fixes[i].node == node {
            return Some(i);
        }
        i = i + 1;
    }
    None
}

fn use_ancestor_exec(tree: &SyntaxTree, n: usize) -> (r: Option<(usize, bool)>)
    requires
        tree.wf(),
        n < tree.nodes@.len(),
    ensures
        r == use_ancestor(*tree, n as int),
        r matches Some((p, _)) ==> p < tree.nodes@.len(),
    decreases n,
{
    match tree.nodes[n].parent {
        Some(p) => {
            assert(p < n);
            if tree.nodes[p].kind == SyntaxKind::UsePathMulti {
                Some((p, true))
            } else if tree.nodes[p].kind == SyntaxKind::ItemUse {
                Some((p, false))
            } else {
                use_ancestor_exec(tree, p)
            }
        },
        None => None,
    }
}

fn clone_strings(v: &Vec<String>) -> (r: Vec<String>)
    ensures
        r@ == v@,
{
    let mut out: Vec<String> = Vec::new();
    let mut i: usize = 0;
    while i < v.len()
        invariant
            i <= v@.len(),
            out@ == v@.take(i as int),
        decreases v@.len() - i,
    {
        out.push(v[i].clone());
        assert(out@ =~= v@.take(i + 1));
        i = i + 1;
    }
    assert(v@.take(v@.len() as int) =~= v@);
    out
}

/// The character sequences of a sequence of strings.
pub open spec fn views_s(v: Seq<String>) -> Seq<Seq<char>> {
    v.map_values(|s: String| s@)
}

/// Records an unused import: its text joins the items to remove of the `use`
/// list that holds it, or the whole `use` item that holds it is to be removed.
fn process_unused_import(tree: &SyntaxTree, unused: usize, fixes: &mut Vec<ImportFix>)
    requires
        tree.wf(),
        unused < tree.nodes@.len(),
        unique_nodes(old(fixes)@),
    ensures
        unique_nodes(final(fixes)@),
        fixes_map(final(fixes)@) == processed(*tree, fixes_map(old(fixes)@), unused),
{
    match use_ancestor_exec(tree, unused) {
        Some((parent, true)) => {
            let text = tree.nodes[unused].text_without_trivia.clone();
            match find_fix(fixes, parent) {
                Some(i) => {
                    proof {
                        lemma_fixes_map_index(fixes@, i as int);
                    }
                    let mut items = clone_strings(&fixes[i].items_to_remove);
                    items.push(text);
                    let ghost old_v = fixes@;
                    let x = ImportFix { node: parent, items_to_remove: items };
                    assert(views_s(x.items_to_remove@) =~= views_s(old_v[i as int].items_to_remove@).push(
                        tree.nodes@[unused as int].text_without_trivia@,
                    ));
                    proof {
                        lemma_fixes_map_update(old_v, i as int, x);
                    }
                    fixes.set(i, x);
                },
                None => {
                    proof {
                        lemma_fixes_map_absent(fixes@, parent);
                    }
                    let mut items: Vec<String> = Vec::new();
                    items.push(text);
                    let ghost old_v = fixes@;
                    fixes.push(ImportFix { node: parent, items_to_remove: items });
                    assert(fixes@.drop_last() =~= old_v);
                    assert(views_s(items@) =~= Seq::<Seq<char>>::empty().push(
                        tree.nodes@[unused as int].text_without_trivia@,
                    ));
                },
            }
        },
        Some((parent, false)) => {
            match find_fix(fixes, parent) {
                Some(i) => {
                    let ghost old_v = fixes@;
                    let x = ImportFix::new(parent);
                    assert(views_s(x.items_to_remove@) =~= Seq::<Seq<char>>::empty());
                    proof {
                        lemma_fixes_map_update(old_v, i as int, x);
                    }
                    fixes.set(i, x);
                },
                None => {
                    let ghost old_v = fixes@;
                    let x = ImportFix::new(parent);
                    assert(views_s(x.items_to_remove@) =~= Seq::<Seq<char>>::empty());
                    fixes.push(x);
                    assert(fixes@.drop_last() =~= old_v);
                },
            }
        },
        None => {},
    }
}

/// The fixes of the unused imports of one file, in order.
pub open spec fn file_fixes(tree: SyntaxTree, diags: Seq<UnusedImport>, file: u64) -> Map<
    usize,
    Seq<Seq<char>>,
>
    decreases diags.len(),
{
    if diags.len() == 0 {
        Map::empty()
    } else {
        let m = file_fixes(tree, diags.drop_last(), file);
        if diags.last().file == file {
            processed(tree, m, diags.last().node)
        } else {
            m
        }
    }
}

fn fixes_for_file(tree: &SyntaxTree, diags: &Vec<UnusedImport>, file: u64) -> (r: Vec<ImportFix>)
    requires
        tree.wf(),
        forall|k: int| 0 <= k < diags@.len() ==> #[trigger] diags@[k].node < tree.nodes@.len(),
    ensures
        unique_nodes(r@),
        fixes_map(r@) == file_fixes(*tree, diags@, file),
{
    let mut fixes: Vec<ImportFix> = Vec::new();
    let mut m: usize = 0;
    while m < diags.len()
        invariant
            tree.wf(),
            forall|q: int| 0 <= q < diags@.len() ==> #[trigger] diags@[q].node < tree.nodes@.len(),
            m <= diags@.len(),
            unique_nodes(fixes@),
            fixes_map(fixes@) == file_fixes(*tree, diags@.take(m as int), file),
        decreases diags@.len() - m,
    {
        assert(diags@.take(m + 1).drop_last() =~= diags@.take(m as int));
        if diags[m].file == file {
            process_unused_import(tree, diags[m].node, &mut fixes);
        }
        m = m + 1;
    }
    assert(diags@.take(diags@.len() as int) =~= diags@);
    fixes
}

fn has_file(out: &Vec<(u64, Vec<ImportFix>)>, file: u64) -> (r: bool)
    ensures
        r == exists|j: int| 0 <= j < out@.len() && out@[j].0 == file,
{
    let mut i: usize = 0;
    while i < out.len()
        invariant
            i <= out@.len(),
            forall|j: int| 0 <= j < i ==> out@[j].0 != file,
        decreases out@.len() - i,
    {
        if out[i].0 == file {
            return true;
        }
        i = i + 1;
    }
    false
}

/// The files of the unused imports, each once, in order of first mention.
pub open spec fn distinct_files(diags: Seq<UnusedImport>) -> Seq<u64>
    decreases diags.len(),
{
    if diags.len() == 0 {
        Seq::empty()
    } else {
        let s = distinct_files(diags.drop_last());
        if s.contains(diags.last().file) {
            s
        } else {
            s.push(diags.last().file)
        }
    }
}

/// The files of a list of fixes by file.
pub open spec fn files_of(out: Seq<(u64, Vec<ImportFix>)>) -> Seq<u64> {
    out.map_values(|p: (u64, Vec<ImportFix>)| p.0)
}

/// For each file with an unused import, once and in order of first mention, the
/// fixes of its unused imports.
pub fn collect_unused_imports(tree: &SyntaxTree, diags: &Vec<UnusedImport>) -> (r: Vec<
    (u64, Vec<ImportFix>),
>)
    requires
        tree.wf(),
        forall|k: int| 0 <= k < diags@.len() ==> #[trigger] diags@[k].node < tree.nodes@.len(),
    ensures
        files_of(r@) == distinct_files(diags@),
        forall|i: int|
            0 <= i < r@.len() ==> unique_nodes((#[trigger] r@[i]).1@) && fixes_map(r@[i].1@)
                == file_fixes(*tree, diags@, r@[i].0),
{
    let mut out: Vec<(u64, Vec<ImportFix>)> = Vec::new();
    let mut k: usize = 0;
    assert(files_of(out@) =~= distinct_files(diags@.take(0)));
    while k < diags.len()
        invariant
            tree.wf(),
            forall|m: int| 0 <= m < diags@.len() ==> #[trigger] diags@[m].node < tree.nodes@.len(),
            k <= diags@.len(),
            files_of(out@) == distinct_files(diags@.take(k as int)),
            forall|i: int|
                0 <= i < out@.len() ==> unique_nodes((#[trigger] out@[i]).1@) && fixes_map(
                    out@[i].1@,
                ) == file_fixes(*tree, diags@, out@[i].0),
        decreases diags@.len() - k,
    {
        let file = diags[k].file;
        let ghost old_out = out@;
        assert(diags@.take(k + 1).drop_last() =~= diags@.take(k as int));
        let present = has_file(&out, file);
        assert(present == files_of(old_out).contains(file)) by {
            if present {
                let j = choose|j: int| 0 <= j < old_out.len() && old_out[j].0 == file;
                assert(files_of(old_out)[j] == file);
            }
            if files_of(old_out).contains(file) {
                let j = choose|j: int| 0 <= j < files_of(old_out).len() && files_of(old_out)[j] == file;
                assert(old_out[j].0 == file);
            }
        }
        if !present {
            let fixes = fixes_for_file(tree, diags, file);
            out.push((file, fixes));
            assert(files_of(out@) =~= files_of(old_out).push(file));
        }
        k = k + 1;
    }
    assert(diags@.take(diags@.len() as int) =~= diags@);
    out
}

/// Node `m` is `a` or lies under it.
pub open spec fn desc_or_self(tree: SyntaxTree, m: int, a: int) -> bool
    decreases m,
{
    m == a || (0 <= m < tree.nodes@.len() && match tree.nodes@[m].parent {
        Some(p) => p < m && desc_or_self(tree, p as int, a),
        None => false,
    })
}

/// Every `use` leaf at or under the node is among the items to remove.
pub open spec fn all_leaves_removed(tree: SyntaxTree, node: int, items: Seq<Seq<char>>) -> bool {
    forall|m: int|
        0 <= m < tree.nodes@.len() && #[trigger] desc_or_self(tree, m, node)
            && tree.nodes@[m].kind == SyntaxKind::UsePathLeaf ==> items.contains(
            tree.nodes@[m].text_without_trivia@,
        )
}

/// The first `use` list at or under `node` in preorder, from position `m`
/// on; `node` itself where there is none.
pub open spec fn first_list_from(tree: SyntaxTree, node: int, m: int) -> int
    decreases tree.nodes@.len() - m,
{
    if m >= tree.nodes@.len() || m < 0 {
        node
    } else if desc_or_self(tree, m, node) && tree.nodes@[m].kind == SyntaxKind::UsePathList {
        m
    } else {
        first_list_from(tree, node, m + 1)
    }
}

/// A child of a `use` list that is an item: its trimmed text, without line
/// breaks, is neither empty nor a comma.
pub open spec fn is_list_item(tree: SyntaxTree, c: usize) -> bool {
    let t = replace(trim(tree.nodes@[c as int].text@), seq!['\n'], Seq::empty());
    t.len() > 0 && t != seq![',']
}

/// The trimmed texts of the items among `children` that are not to be removed.
pub open spec fn kept_items(tree: SyntaxTree, children: Seq<usize>, items: Seq<Seq<char>>) -> Seq<
    Seq<char>,
>
    decreases children.len(),
{
    if children.len() == 0 {
        Seq::empty()
    } else {
        let rest = kept_items(tree, children.drop_last(), items);
        let c = children.last();
        let t = trim(tree.nodes@[c as int].text@);
        if is_list_item(tree, c) && !items.contains(t) {
            rest.push(t)
        } else {
            rest
        }
    }
}
/// The items that a rewritten `use` list keeps are none of those to remove.
pub proof fn lemma_kept_items_exclude_removed(
    tree: SyntaxTree,
    children: Seq<usize>,
    items: Seq<Seq<char>>,
)
    ensures
        forall|k: int|
            0 <= k < kept_items(tree, children, items).len() ==> !items.contains(
                #[trigger] kept_items(tree, children, items)[k],
            ),
    decreases children.len(),
{
    if children.len() > 0 {
        let rest = kept_items(tree, children.drop_last(), items);
        lemma_kept_items_exclude_removed(tree, children.drop_last(), items);
        let all = kept_items(tree, children, items);
        assert forall|k: int| 0 <= k < all.len() implies !items.contains(#[trigger] all[k]) by {
            if k < rest.len() {
                assert(all[k] == rest[k]);
            }
        }
    }
}


/// The `use` list that is left: its one item alone, or the items in braces.
pub open spec fn list_text(kept: Seq<Seq<char>>) -> Seq<char> {
    if kept.len() == 1 {
        kept[0]
    } else {
        seq!['{', ' '] + join(kept, seq![',', ' ']) + seq![' ', '}']
    }
}

/// A fix that removes the node's span.
pub open spec fn removal(tree: SyntaxTree, n: int) -> FixView {
    FixView { span: tree.nodes@[n].span, suggestion: Seq::empty() }
}

/// The fixes for a `use` list with items to remove: the whole import where
/// every leaf goes, else the list rewritten without them.
pub open spec fn multi_import_fixes(tree: SyntaxTree, node: int, items: Seq<Seq<char>>) -> Seq<
    FixView,
>
    decreases node, 1int,
{
    if all_leaves_removed(tree, node, items) {
        entire_import_fixes(tree, node)
    } else {
        seq![
            FixView {
                span: tree.nodes@[node].span,
                suggestion: list_text(
                    kept_items(
                        tree,
                        tree.nodes@[first_list_from(tree, node, node)].children@,
                        items,
                    ),
                ),
            },
        ]
    }
}

/// The fixes that remove a node and what only holds it: going up, the item of
/// an enclosing `use` list, or the whole `use` item.
pub open spec fn entire_import_fixes(tree: SyntaxTree, cur: int) -> Seq<FixView>
    decreases cur, 0int,
{
    if 0 <= cur < tree.nodes@.len() {
        match tree.nodes@[cur].parent {
            None => seq![removal(tree, cur)],
            Some(p) => if p < cur {
                if tree.nodes@[p as int].kind == SyntaxKind::UsePathList {
                    match tree.nodes@[p as int].parent {
                        Some(g) => if g < p {
                            multi_import_fixes(
                                tree,
                                g as int,
                                seq![tree.nodes@[cur].text_without_trivia@],
                            )
                        } else {
                            Seq::empty()
                        },
                        None => Seq::empty(),
                    }
                } else if tree.nodes@[p as int].kind == SyntaxKind::ItemUse {
                    seq![removal(tree, p as int)]
                } else {
                    entire_import_fixes(tree, p as int)
                }
            } else {
                Seq::empty()
            },
        }
    } else {
        Seq::empty()
    }
}

/// The fixes of one import fix: the whole node removed, or its items.
pub open spec fn import_fix_fixes(tree: SyntaxTree, f: ImportFix) -> Seq<FixView> {
    if f.items_to_remove@.len() == 0 {
        seq![removal(tree, f.node as int)]
    } else {
        multi_import_fixes(tree, f.node as int, views_s(f.items_to_remove@))
    }
}

/// The fixes of all import fixes, in order.
pub open spec fn all_import_fixes(tree: SyntaxTree, fixes: Seq<ImportFix>) -> Seq<FixView>
    decreases fixes.len(),
{
    if fixes.len() == 0 {
        Seq::empty()
    } else {
        all_import_fixes(tree, fixes.drop_last()) + import_fix_fixes(tree, fixes.last())
    }
}

fn desc_or_self_exec(tree: &SyntaxTree, m: usize, a: usize) -> (r: bool)
    requires
        tree.wf(),
        m < tree.nodes@.len(),
    ensures
        r == desc_or_self(*tree, m as int, a as int),
    decreases m,
{
    if m == a {
        return true;
    }
    match tree.nodes[m].parent {
        Some(p) => desc_or_self_exec(tree, p, a),
        None => false,
    }
}

fn contains_text(items: &Vec<String>, t: &Vec<char>) -> (r: bool)
    ensures
        r == views_s(items@).contains(t@),
{
    let mut i: usize = 0;
    while i < items.len()
        invariant
            i <= items@.len(),
            forall|j: int| 0 <= j < i ==> items@[j]@ != t@,
        decreases items@.len() - i,
    {
        if seq_eq(&chars_of(items[i].as_str()), t) {
            assert(views_s(items@)[i as int] == t@);
            return true;
        }
        i = i + 1;
    }
    assert(!views_s(items@).contains(t@)) by {
        if views_s(items@).contains(t@) {
            let j = choose|j: int| 0 <= j < views_s(items@).len() && views_s(items@)[j] == t@;
            assert(items@[j]@ == t@);
        }
    }
    false
}

fn all_descendants_removed(tree: &SyntaxTree, node: usize, items_to_remove: &Vec<String>) -> (r: bool)
    requires
        tree.wf(),
    ensures
        r == all_leaves_removed(*tree, node as int, views_s(items_to_remove@)),
{
    let mut m: usize = 0;
    while m < tree.nodes.len()
        invariant
            tree.wf(),
            m <= tree.nodes@.len(),
            forall|q: int|
                0 <= q < m && #[trigger] desc_or_self(*tree, q, node as int) && tree.nodes@[q].kind
                    == SyntaxKind::UsePathLeaf ==> views_s(items_to_remove@).contains(
                    tree.nodes@[q].text_without_trivia@,
                ),
        decreases tree.nodes@.len() - m,
    {
        if desc_or_self_exec(tree, m, node) && tree.nodes[m].kind == SyntaxKind::UsePathLeaf {
            if !contains_text(
                items_to_remove,
                &chars_of(tree.nodes[m].text_without_trivia.as_str()),
            ) {
                return false;
            }
        }
        m = m + 1;
    }
    true
}

fn find_use_path_list(tree: &SyntaxTree, node: usize) -> (r: usize)
    requires
        tree.wf(),
        node < tree.nodes@.len(),
    ensures
        r == first_list_from(*tree, node as int, node as int),
        r < tree.nodes@.len(),
{
    let mut m: usize = node;
    while m < tree.nodes.len()
        invariant
            tree.wf(),
            node < tree.nodes@.len(),
            node <= m <= tree.nodes@.len(),
            first_list_from(*tree, node as int, node as int) == first_list_from(
                *tree,
                node as int,
                m as int,
            ),
        decreases tree.nodes@.len() - m,
    {
        if desc_or_self_exec(tree, m, node) && tree.nodes[m].kind == SyntaxKind::UsePathList {
            return m;
        }
        m = m + 1;
    }
    node
}

fn is_list_item_exec(tree: &SyntaxTree, c: usize) -> (r: bool)
    requires
        c < tree.nodes@.len(),
    ensures
        r == is_list_item(*tree, c),
{
    let mut newline: Vec<char> = Vec::new();
    newline.push('\n');
    let t = replace_exec(
        &trim_exec(&chars_of(tree.nodes[c].text.as_str())),
        &newline,
        &Vec::new(),
    );
    let mut comma: Vec<char> = Vec::new();
    comma.push(',');
    t.len() > 0 && !seq_eq(&t, &comma)
}

fn remove_specific_items(tree: &SyntaxTree, node: usize, items_to_remove: &Vec<String>) -> (r: Vec<
    Fix,
>)
    requires
        tree.wf(),
        node < tree.nodes@.len(),
    ensures
        fix_views(r@) == seq![
            FixView {
                span: tree.nodes@[node as int].span,
                suggestion: list_text(
                    kept_items(
                        *tree,
                        tree.nodes@[first_list_from(*tree, node as int, node as int)].children@,
                        views_s(items_to_remove@),
                    ),
                ),
            },
        ],
{
    let list = find_use_path_list(tree, node);
    let children = &tree.nodes[list].children;
    let ghost items = views_s(items_to_remove@);
    let mut kept: Vec<Vec<char>> = Vec::new();
    let mut i: usize = 0;
    while i < children.len()
        invariant
            tree.wf(),
            list < tree.nodes@.len(),
            children == &tree.nodes@[list as int].children,
            items == views_s(items_to_remove@),
            i <= children@.len(),
            views(kept@) == kept_items(*tree, children@.take(i as int), items),
        decreases children@.len() - i,
    {
        let c = children[i];
        assert(c < tree.nodes@.len()) by {
            assert(tree.nodes@[list as int].children@[i as int] < tree.nodes@.len());
        }
        assert(children@.take(i + 1).drop_last() =~= children@.take(i as int));
        let t = trim_exec(&chars_of(tree.nodes[c].text.as_str()));
        let ghost before = views(kept@);
        if is_list_item_exec(tree, c) && !contains_text(items_to_remove, &t) {
            kept.push(t);
            assert(views(kept@) =~= before.push(trim(tree.nodes@[c as int].text@)));
        }
        i = i + 1;
    }
    assert(children@.take(children@.len() as int) =~= children@);
    let text = if kept.len() == 1 {
        let mut t: Vec<char> = Vec::new();
        append(&mut t, &kept[0]);
        t
    } else {
        let mut t: Vec<char> = Vec::new();
        t.push('{');
        t.push(' ');
        assert(t@ =~= seq!['{', ' ']);
        let mut sep: Vec<char> = Vec::new();
        sep.push(',');
        sep.push(' ');
        assert(sep@ =~= seq![',', ' ']);
        let joined = join_exec(&kept, &sep);
        append(&mut t, &joined);
        assert(t@ =~= seq!['{', ' '] + join(views(kept@), seq![',', ' ']));
        t.push(' ');
        t.push('}');
        assert(t@ =~= seq!['{', ' '] + join(views(kept@), seq![',', ' ']) + seq![' ', '}']);
        t
    };
    let mut out: Vec<Fix> = Vec::new();
    out.push(Fix { span: tree.nodes[node].span, suggestion: string_of(&text) });
    assert(fix_views(out@) =~= seq![
        FixView {
            span: tree.nodes@[node as int].span,
            suggestion: list_text(views(kept@)),
        },
    ]);
    out
}

fn single_removal(span: TextSpan) -> (r: Vec<Fix>)
    ensures
        fix_views(r@) == seq![FixView { span, suggestion: Seq::empty() }],
{
    let mut out: Vec<Fix> = Vec::new();
    out.push(Fix { span, suggestion: String::new() });
    assert(fix_views(out@) =~= seq![FixView { span, suggestion: Seq::<char>::empty() }]);
    out
}

fn handle_multi_import(tree: &SyntaxTree, node: usize, items_to_remove: &Vec<String>) -> (r: Vec<Fix>)
    requires
        tree.wf(),
        node < tree.nodes@.len(),
    ensures
        fix_views(r@) == multi_import_fixes(*tree, node as int, views_s(items_to_remove@)),
    decreases node, 1int,
{
    if all_descendants_removed(tree, node, items_to_remove) {
        remove_entire_import(tree, node)
    } else {
        remove_specific_items(tree, node, items_to_remove)
    }
}

fn remove_entire_import(tree: &SyntaxTree, node: usize) -> (r: Vec<Fix>)
    requires
        tree.wf(),
        node < tree.nodes@.len(),
    ensures
        fix_views(r@) == entire_import_fixes(*tree, node as int),
    decreases node, 0int,
{
    match tree.nodes[node].parent {
        None => single_removal(tree.nodes[node].span),
        Some(parent) => {
            if tree.nodes[parent].kind == SyntaxKind::UsePathList {
                let grand = match tree.nodes[parent].parent {
                    Some(g) => g,
                    None => {
                        proof {
                            assert(false);
                        }
                        return Vec::new();
                    },
                };
                let mut items: Vec<String> = Vec::new();
                items.push(tree.nodes[node].text_without_trivia.clone());
                assert(views_s(items@) =~= seq![tree.nodes@[node as int].text_without_trivia@]);
                handle_multi_import(tree, grand, &items)
            } else if tree.nodes[parent].kind == SyntaxKind::ItemUse {
                single_removal(tree.nodes[parent].span)
            } else {
                remove_entire_import(tree, parent)
            }
        },
    }
}

/// The fixes of the import fixes of one file, in order: a whole `use` item
/// removed, or the items of a `use` list removed (the whole import where no
/// item is left).
pub fn apply_import_fixes(tree: &SyntaxTree, fixes: &Vec<ImportFix>) -> (r: Vec<Fix>)
    requires
        tree.wf(),
        forall|k: int| 0 <= k < fixes@.len() ==> #[trigger] fixes@[k].node < tree.nodes@.len(),
    ensures
        fix_views(r@) == all_import_fixes(*tree, fixes@),
{
    let mut out: Vec<Fix> = Vec::new();
    let mut i: usize = 0;
    assert(fix_views(out@) =~= all_import_fixes(*tree, fixes@.take(0)));
    while i < fixes.len()
        invariant
            tree.wf(),
            forall|k: int| 0 <= k < fixes@.len() ==> #[trigger] fixes@[k].node < tree.nodes@.len(),
            i <= fixes@.len(),
            fix_views(out@) == all_import_fixes(*tree, fixes@.take(i as int)),
        decreases fixes@.len() - i,
    {
        let import_fix = &fixes[i];
        let mut more = if import_fix.items_to_remove.len() == 0 {
            single_removal(tree.nodes[import_fix.node].span)
        } else {
            handle_multi_import(tree, import_fix.node, &import_fix.items_to_remove)
        };
        let ghost before = fix_views(out@);
        let ghost added = fix_views(more@);
        out.append(&mut more);
        assert(fix_views(out@) =~= before + added);
        assert(fixes@.take(i + 1).drop_last() =~= fixes@.take(i as int));
        i = i + 1;
    }
    assert(fixes@.take(fixes@.len() as int) =~= fixes@);
    out
}

} // verus!
