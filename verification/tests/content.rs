use outrider::content::{body_lines, BodyLine};
use outrider::symbol::{SymbolId, SymbolKind, SymbolNode};
use outrider::world::{Draw, LeafDraw, Rung};

fn node(kind: SymbolKind, qual: &str, measure: u64, churn_count: u64, children: Vec<SymbolNode>) -> SymbolNode {
    SymbolNode {
        id: SymbolId { kind, qualified_path: qual.into(), ordinal: 0 },
        name: qual.rsplit(['/', ':']).next().unwrap_or(qual).to_string(),
        byte_range: None,
        measure,
        churn_count,
        children,
    }
}

fn file() -> SymbolNode {
    node(
        SymbolKind::File,
        "m.rs",
        480,
        47,
        vec![
            node(SymbolKind::Item { label: "struct".into() }, "m.rs::Point", 4, 3, vec![]),
            node(SymbolKind::Item { label: "fn".into() }, "m.rs::free", 3, 3, vec![]),
        ],
    )
}

fn folder() -> SymbolNode {
    node(SymbolKind::Folder, "src", 812, 12, vec![file(), node(SymbolKind::Folder, "src/sub", 0, 0, vec![])])
}

#[test]
fn body_lines_always_empty() {
    let f = file();
    let d = folder();
    for rung in [Rung::Dot, Rung::Label, Rung::Card, Rung::Detail, Rung::Full] {
        assert_eq!(body_lines(&f, rung), Vec::<BodyLine>::new());
        assert_eq!(body_lines(&d, rung), Vec::<BodyLine>::new());
    }
}

#[test]
fn draw_modes_compare_by_variant() {
    assert_eq!(Draw::Container(Rung::Card), Draw::Container(Rung::Card));
    assert_ne!(Draw::Container(Rung::Card), Draw::Container(Rung::Full));
    assert_ne!(Draw::Leaf(LeafDraw::Text), Draw::Leaf(LeafDraw::Minimap));
    assert_ne!(BodyLine::Plain("a".into()), BodyLine::Dim("a".into()));
}
