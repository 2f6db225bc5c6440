use outrider::focus::Focus;
use outrider::symbol::{SymbolId, SymbolKind, SymbolNode};
use outrider::tree_index::TreeIndex;

fn n(kind: SymbolKind, qp: &str, name: &str, children: Vec<SymbolNode>) -> SymbolNode {
    SymbolNode {
        id: SymbolId { kind, qualified_path: qp.into(), ordinal: 0 },
        name: name.into(),
        byte_range: None,
        measure: 1,
        churn_count: 0,
        children,
    }
}

fn item() -> SymbolKind {
    SymbolKind::Item { label: "fn".into() }
}

/// root { a.rs, b.rs { f, g } }.
fn tree() -> SymbolNode {
    n(
        SymbolKind::Folder,
        "",
        "",
        vec![
            n(SymbolKind::File, "a.rs", "a.rs", vec![]),
            n(
                SymbolKind::File,
                "b.rs",
                "b.rs",
                vec![n(item(), "b.rs::f", "f", vec![]), n(item(), "b.rs::g", "g", vec![])],
            ),
        ],
    )
}

/// root { a.rs { x }, b.rs { f, g } }.
fn two_files() -> SymbolNode {
    n(
        SymbolKind::Folder,
        "",
        "",
        vec![
            n(SymbolKind::File, "a.rs", "a.rs", vec![n(item(), "a.rs::x", "x", vec![])]),
            n(
                SymbolKind::File,
                "b.rs",
                "b.rs",
                vec![n(item(), "b.rs::f", "f", vec![]), n(item(), "b.rs::g", "g", vec![])],
            ),
        ],
    )
}

fn id(kind: SymbolKind, qp: &str) -> SymbolId {
    SymbolId { kind, qualified_path: qp.into(), ordinal: 0 }
}

fn handle(idx: &TreeIndex, kind: SymbolKind, qp: &str) -> usize {
    idx.handle_of(&id(kind, qp)).expect("node is indexed")
}

#[test]
fn enter_steps_into_first_child_and_leaf_is_noop() {
    let t = tree();
    let idx = TreeIndex::new(&t);
    let root = idx.handle_of(&t.id).unwrap();
    let mut f = Focus::new(root);
    assert!(f.step_in(&idx));
    assert_eq!(f.current, handle(&idx, SymbolKind::File, "a.rs"));
    assert!(!f.step_in(&idx));
    assert_eq!(f.current, handle(&idx, SymbolKind::File, "a.rs"));
}

#[test]
fn esc_moves_to_parent_and_root_is_noop() {
    let t = tree();
    let idx = TreeIndex::new(&t);
    let root = idx.handle_of(&t.id).unwrap();
    let mut f = Focus::new(root);
    f.set(handle(&idx, item(), "b.rs::f"), &idx);
    assert!(f.step_out(&idx));
    assert_eq!(f.current, handle(&idx, SymbolKind::File, "b.rs"));
    assert!(f.step_out(&idx));
    assert_eq!(f.current, root);
    assert!(!f.step_out(&idx));
}

#[test]
fn esc_then_enter_returns_to_the_same_child() {
    let t = tree();
    let idx = TreeIndex::new(&t);
    let root = idx.handle_of(&t.id).unwrap();
    let mut f = Focus::new(root);
    f.set(handle(&idx, item(), "b.rs::g"), &idx);
    f.step_out(&idx);
    assert!(f.step_in(&idx));
    assert_eq!(f.current, handle(&idx, item(), "b.rs::g"));
}

#[test]
fn enter_remembers_last_visited_child() {
    let t = tree();
    let idx = TreeIndex::new(&t);
    let root = idx.handle_of(&t.id).unwrap();
    let mut f = Focus::new(root);
    f.set(handle(&idx, SymbolKind::File, "b.rs"), &idx);
    assert!(f.set(root, &idx));
    assert!(f.step_in(&idx));
    assert_eq!(f.current, handle(&idx, SymbolKind::File, "b.rs"));
}

#[test]
fn set_to_current_is_noop() {
    let t = tree();
    let idx = TreeIndex::new(&t);
    let root = idx.handle_of(&t.id).unwrap();
    let mut f = Focus::new(root);
    assert!(!f.set(root, &idx));
    assert_eq!(f.current, root);
}

#[test]
fn depth_counts_ancestors() {
    let t = two_files();
    let idx = TreeIndex::new(&t);
    let depth_of = |kind: SymbolKind, qp: &str| idx.handle_of(&id(kind, qp)).map(|h| idx.depth(h));
    assert_eq!(depth_of(SymbolKind::Folder, ""), Some(0));
    assert_eq!(depth_of(SymbolKind::File, "b.rs"), Some(1));
    assert_eq!(depth_of(item(), "b.rs::g"), Some(2));
    assert_eq!(depth_of(item(), "nope"), None);
}

#[test]
fn index_is_pre_order_with_parents_and_children() {
    let t = tree();
    let idx = TreeIndex::new(&t);
    assert_eq!(idx.len(), 5);
    assert_eq!(idx.parent(0), None);
    assert_eq!(idx.parent(1), Some(0));
    assert_eq!(idx.parent(3), Some(2));
    assert_eq!(idx.children(0), vec![1, 2]);
    assert_eq!(idx.children(2), vec![3, 4]);
    assert!(idx.children(1).is_empty());
    assert_eq!(idx.name(4), "g");
    // no source bytes anywhere in this tree, so no node is a leaf page
    assert!(!idx.is_leaf(1));
    assert!(!idx.is_leaf(3));
}
