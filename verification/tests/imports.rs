use cairo_lint_core::fix::apply::TextSpan;
use cairo_lint_core::fix::import_fixes::{
    apply_import_fixes, collect_unused_imports, ImportFix, SyntaxKind, SyntaxTree, TreeNode, UnusedImport,
};

fn tree_node(kind: SyntaxKind, parent: Option<usize>, children: &[usize], text: &str, start: usize) -> TreeNode {
    TreeNode {
        kind,
        parent,
        children: children.to_vec(),
        text: text.to_string(),
        text_without_trivia: text.trim().to_string(),
        span: TextSpan { start, end: start + text.len() },
    }
}

/// `use a::{b, c};` in file 1, then `use d::e;` at offset 15.
fn tree() -> SyntaxTree {
    SyntaxTree {
        nodes: vec![
            tree_node(SyntaxKind::ItemUse, None, &[1], "use a::{b, c};", 0),
            tree_node(SyntaxKind::Other, Some(0), &[2], "a::{b, c}", 4),
            tree_node(SyntaxKind::UsePathMulti, Some(1), &[3], "{b, c}", 7),
            tree_node(SyntaxKind::UsePathList, Some(2), &[4, 5, 6], "b, c", 8),
            tree_node(SyntaxKind::UsePathLeaf, Some(3), &[], "b", 8),
            tree_node(SyntaxKind::Other, Some(3), &[], ",", 9),
            tree_node(SyntaxKind::UsePathLeaf, Some(3), &[], " c", 10),
            tree_node(SyntaxKind::ItemUse, None, &[8], "use d::e;", 15),
            tree_node(SyntaxKind::UsePathLeaf, Some(7), &[], "d::e", 19),
        ],
    }
}

fn suggestions(fixes: &[cairo_lint_core::fix::apply::Fix]) -> Vec<(usize, usize, String)> {
    fixes.iter().map(|f| (f.span.start, f.span.end, f.suggestion.clone())).collect()
}

#[test]
fn import_fix_new_removes_the_whole_node() {
    let f = ImportFix::new(7);
    assert_eq!(f.node, 7);
    assert!(f.items_to_remove.is_empty());
}

#[test]
fn collect_unused_imports_groups_by_file_and_list() {
    let t = tree();
    let diags = vec![
        UnusedImport { file: 1, node: 4 },
        UnusedImport { file: 2, node: 8 },
        UnusedImport { file: 1, node: 6 },
    ];
    let out = collect_unused_imports(&t, &diags);
    assert_eq!(out.len(), 2);
    assert_eq!(out[0].0, 1);
    assert_eq!(out[0].1.len(), 1);
    assert_eq!(out[0].1[0].node, 2);
    assert_eq!(out[0].1[0].items_to_remove, vec!["b".to_string(), "c".to_string()]);
    assert_eq!(out[1].0, 2);
    assert_eq!(out[1].1.len(), 1);
    assert_eq!(out[1].1[0].node, 7);
    assert!(out[1].1[0].items_to_remove.is_empty());
}

#[test]
fn apply_import_fixes_keeps_the_used_item() {
    let t = tree();
    let fixes = vec![ImportFix { node: 2, items_to_remove: vec!["b".to_string()] }];
    assert_eq!(suggestions(&apply_import_fixes(&t, &fixes)), vec![(7, 13, "c".to_string())]);
}

#[test]
fn apply_import_fixes_removes_a_fully_unused_import() {
    let t = tree();
    let fixes = vec![
        ImportFix { node: 2, items_to_remove: vec!["b".to_string(), "c".to_string()] },
        ImportFix::new(7),
    ];
    assert_eq!(
        suggestions(&apply_import_fixes(&t, &fixes)),
        vec![(0, 14, String::new()), (15, 24, String::new())]
    );
}

#[test]
fn apply_import_fixes_rewrites_a_longer_list() {
    // `use a::{b, c, d};`
    let t = SyntaxTree {
        nodes: vec![
            tree_node(SyntaxKind::ItemUse, None, &[1], "use a::{b, c, d};", 0),
            tree_node(SyntaxKind::Other, Some(0), &[2], "a::{b, c, d}", 4),
            tree_node(SyntaxKind::UsePathMulti, Some(1), &[3], "{b, c, d}", 7),
            tree_node(SyntaxKind::UsePathList, Some(2), &[4, 5, 6, 7, 8], "b, c, d", 8),
            tree_node(SyntaxKind::UsePathLeaf, Some(3), &[], "b", 8),
            tree_node(SyntaxKind::Other, Some(3), &[], ",", 9),
            tree_node(SyntaxKind::UsePathLeaf, Some(3), &[], " c", 10),
            tree_node(SyntaxKind::Other, Some(3), &[], ",", 12),
            tree_node(SyntaxKind::UsePathLeaf, Some(3), &[], " d", 13),
        ],
    };
    let fixes = vec![ImportFix { node: 2, items_to_remove: vec!["c".to_string()] }];
    assert_eq!(suggestions(&apply_import_fixes(&t, &fixes)), vec![(7, 16, "{ b, d }".to_string())]);
}
