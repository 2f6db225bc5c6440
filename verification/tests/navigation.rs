use outrider::navigation::NavigationHistory;
use outrider::symbol::{SymbolId, SymbolKind};

fn id(path: &str) -> SymbolId {
    SymbolId { kind: SymbolKind::File, qualified_path: path.into(), ordinal: 0 }
}

#[test]
fn history_moves_back_and_forward() {
    let root = id("root");
    let child = id("child");
    let mut history = NavigationHistory::new(root.clone(), 64);
    history.push(child.clone());
    assert_eq!(history.back(), Some(&root));
    assert_eq!(history.forward(), Some(&child));
}

#[test]
fn push_after_back_discards_forward_entries() {
    let root = id("root");
    let child = id("child");
    let replacement = id("replacement");
    let mut history = NavigationHistory::new(root.clone(), 64);
    history.push(child);
    assert_eq!(history.back(), Some(&root));
    history.push(replacement.clone());
    assert_eq!(history.current(), &replacement);
    assert!(history.forward().is_none());
}

#[test]
fn history_respects_its_capacity() {
    let mut history = NavigationHistory::new(id("0"), 3);
    for path in ["1", "2", "3"] {
        history.push(id(path));
    }
    assert_eq!(history.len(), 3);
    assert_eq!(history.current(), &id("3"));
    assert_eq!(history.back(), Some(&id("2")));
    assert_eq!(history.back(), Some(&id("1")));
    assert!(history.back().is_none());
}

#[test]
fn fresh_history_cannot_move() {
    let mut history = NavigationHistory::new(id("only"), 1);
    assert!(history.back().is_none());
    assert!(history.forward().is_none());
    history.push(id("next"));
    assert_eq!(history.len(), 1);
    assert_eq!(history.current(), &id("next"));
}
