use outrider::palette::fuzzy_match;

#[test]
fn fuzzy_match_exact() {
    assert!(fuzzy_match("parse", "parse"));
}

#[test]
fn fuzzy_match_subsequence() {
    assert!(fuzzy_match("prs", "parse"));
    assert!(fuzzy_match("fmn", "file_manager_new"));
}

#[test]
fn fuzzy_match_case_insensitive() {
    assert!(fuzzy_match("PRS", "parse"));
    assert!(fuzzy_match("prs", "PARSE"));
}

#[test]
fn fuzzy_match_no_match() {
    assert!(!fuzzy_match("xyz", "parse"));
    assert!(!fuzzy_match("srp", "parse"));
}

#[test]
fn fuzzy_match_empty_query_matches_all() {
    assert!(fuzzy_match("", "anything"));
}

#[test]
fn fuzzy_match_longer_query_than_name_fails() {
    assert!(!fuzzy_match("parses", "parse"));
    assert!(!fuzzy_match("a", ""));
    assert!(fuzzy_match("", ""));
}

#[test]
fn fuzzy_match_lowercases_non_ascii() {
    assert!(fuzzy_match("É", "école_é"));
    assert!(fuzzy_match("ÉC", "école"));
}

#[test]
fn fuzzy_match_removing_last_query_char_keeps_match() {
    assert!(fuzzy_match("tok", "parse.rs::tokenize"));
    assert!(fuzzy_match("to", "parse.rs::tokenize"));
}

use outrider::palette::{Palette, PaletteMode};
use outrider::symbol::{SymbolId, SymbolKind, SymbolNode};
use outrider::tree_index::TreeIndex;

fn node(kind: SymbolKind, qp: &str, name: &str, children: Vec<SymbolNode>) -> SymbolNode {
    SymbolNode {
        id: SymbolId { kind, qualified_path: qp.into(), ordinal: 0 },
        name: name.into(),
        byte_range: None,
        measure: 1,
        churn_count: 0,
        children,
    }
}

fn item(qp: &str, name: &str) -> SymbolNode {
    node(SymbolKind::Item { label: "fn".into() }, qp, name, vec![])
}

fn test_tree() -> SymbolNode {
    node(
        SymbolKind::Folder,
        "",
        "",
        vec![
            node(
                SymbolKind::File,
                "parse.rs",
                "parse.rs",
                vec![item("parse.rs::parse_item", "parse_item"), item("parse.rs::tokenize", "tokenize")],
            ),
            node(SymbolKind::File, "main.rs", "main.rs", vec![item("main.rs::main", "main")]),
            node(
                SymbolKind::Folder,
                "utils",
                "utils",
                vec![node(SymbolKind::File, "utils/helpers.rs", "helpers.rs", vec![])],
            ),
        ],
    )
}

#[test]
fn palette_file_mode_lists_files() {
    let index = TreeIndex::new(&test_tree());
    let mut p = Palette::new();
    p.open(PaletteMode::File, &index);
    assert!(p.is_open());
    assert_eq!(p.results.len(), 3);
}

#[test]
fn palette_symbol_mode_lists_non_folders() {
    let index = TreeIndex::new(&test_tree());
    let mut p = Palette::new();
    p.open(PaletteMode::Symbol, &index);
    assert_eq!(p.results.len(), 6);
}

#[test]
fn palette_filters_on_type() {
    let index = TreeIndex::new(&test_tree());
    let mut p = Palette::new();
    p.open(PaletteMode::Symbol, &index);
    p.type_char('t');
    p.type_char('k');
    assert_eq!(p.results.len(), 1);
    assert_eq!(p.results[0].qualified_path, "parse.rs::tokenize");
}

#[test]
fn palette_backspace_widens_results() {
    let index = TreeIndex::new(&test_tree());
    let mut p = Palette::new();
    p.open(PaletteMode::Symbol, &index);
    p.type_char('t');
    p.type_char('k');
    assert_eq!(p.results.len(), 1);
    p.backspace();
    assert!(p.results.len() > 1);
}

#[test]
fn palette_selection_wraps() {
    let index = TreeIndex::new(&test_tree());
    let mut p = Palette::new();
    p.open(PaletteMode::File, &index);
    assert_eq!(p.selection, 0);
    p.move_selection(1);
    assert_eq!(p.selection, 1);
    p.move_selection(-1);
    assert_eq!(p.selection, 0);
    p.move_selection(-1);
    assert_eq!(p.selection, p.results.len() - 1);
    p.move_selection(-7);
    assert_eq!(p.selection, 1);
}

#[test]
fn palette_confirm_returns_selected() {
    let index = TreeIndex::new(&test_tree());
    let mut p = Palette::new();
    p.open(PaletteMode::File, &index);
    p.move_selection(1);
    let id = p.confirm().unwrap();
    assert_eq!(id, p.results[1]);
}

#[test]
fn palette_close_clears_state() {
    let index = TreeIndex::new(&test_tree());
    let mut p = Palette::new();
    p.open(PaletteMode::File, &index);
    p.close();
    assert!(!p.is_open());
    assert!(p.confirm().is_none());
}

#[test]
fn palette_caps_results_at_12() {
    let files: Vec<SymbolNode> = (0..20)
        .map(|i| node(SymbolKind::File, &format!("f{i}.rs"), &format!("f{i}.rs"), vec![]))
        .collect();
    let root = node(SymbolKind::Folder, "", "", files);
    let index = TreeIndex::new(&root);
    let mut p = Palette::new();
    p.open(PaletteMode::File, &index);
    assert_eq!(p.results.len(), 12);
}

#[test]
fn palette_sorts_shorter_names_first_then_by_code_point() {
    let index = TreeIndex::new(&test_tree());
    let mut p = Palette::new();
    p.open(PaletteMode::File, &index);
    let names: Vec<String> = p.results.iter().map(|id| p.name_of(id).to_string()).collect();
    assert_eq!(names, vec!["main.rs", "parse.rs", "helpers.rs"]);
    let missing = SymbolId { kind: SymbolKind::File, qualified_path: "nope".into(), ordinal: 0 };
    assert_eq!(p.name_of(&missing), "?");
}

#[test]
fn palette_orders_names_by_utf8_length_then_bytes() {
    let tree = node(
        SymbolKind::Folder,
        "",
        "",
        vec![
            node(SymbolKind::File, "abc", "abc", vec![]),
            node(SymbolKind::File, "é", "é", vec![]),
            node(SymbolKind::File, "ab", "ab", vec![]),
        ],
    );
    let index = TreeIndex::new(&tree);
    let mut p = Palette::new();
    p.open(PaletteMode::File, &index);
    let names: Vec<String> = p.results.iter().map(|id| p.name_of(id).to_string()).collect();
    // "ab" and "é" are both two bytes long; "ab" has the smaller bytes
    assert_eq!(names, vec!["ab", "é", "abc"]);
}

#[test]
fn typing_keeps_the_selection_while_it_is_still_a_result() {
    let index = TreeIndex::new(&test_tree());
    let mut p = Palette::new();
    p.open(PaletteMode::Symbol, &index);
    p.move_selection(2);
    assert_eq!(p.selection, 2);
    // "p" keeps parse.rs, helpers.rs and parse_item: the selection stays
    p.type_char('p');
    assert_eq!(p.results.len(), 3);
    assert_eq!(p.selection, 2);
    // "pz" matches nothing: the selection falls back to 0
    p.type_char('z');
    assert!(p.results.is_empty());
    assert_eq!(p.selection, 0);
    p.backspace();
    assert_eq!(p.query, "p");
    assert_eq!(p.selection, 0);
}
