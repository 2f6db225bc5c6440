use outrider::symbol::{SymbolId, SymbolKind, SymbolNode};
use outrider::theme::{
    border_for, box_fill, depth_fill, extension_tint, file_fill, fingerprint, item_fill,
    leaf_fill, node_box_kind, node_box_tint, syntax_color, BoxKind, BoxTint, HighlightKind,
    CODE_BG, FILL_COLD, FILL_HOT, TEXT_PRIMARY,
};

const MONO: &str = "DejaVu Sans Mono";
const SANS: &str = "Liberation Sans";

fn node(kind: SymbolKind, name: &str, qualified_path: &str) -> SymbolNode {
    SymbolNode {
        id: SymbolId {
            kind,
            qualified_path: qualified_path.into(),
            ordinal: 0,
        },
        name: name.into(),
        byte_range: None,
        measure: 0,
        churn_count: 0,
        children: Vec::new(),
    }
}

fn brightness(color: u32) -> u32 {
    ((color >> 16) & 0xff) + ((color >> 8) & 0xff) + (color & 0xff)
}

#[test]
fn python_nodes_share_extension_tint_and_use_three_brightness_tiers() {
    let file = node(SymbolKind::File, "main.py", "main.py");
    let mut item = node(
        SymbolKind::Item {
            label: "class".into(),
        },
        "Widget",
        "main.py::Widget",
    );
    item.children.push(node(
        SymbolKind::Item { label: "fn".into() },
        "method",
        "main.py::Widget::method",
    ));
    let mut leaf = node(
        SymbolKind::Item { label: "fn".into() },
        "method",
        "main.py::Widget::method",
    );
    leaf.byte_range = Some((0, 10));

    let expected_tint = BoxTint::FileType(extension_tint("py"));
    assert_eq!(node_box_tint(&file), expected_tint);
    assert_eq!(node_box_tint(&item), expected_tint);
    assert_eq!(node_box_tint(&leaf), expected_tint);
    assert_eq!(node_box_kind(false, &file.id.kind), BoxKind::File);
    assert_eq!(node_box_kind(false, &item.id.kind), BoxKind::Item);
    assert_eq!(node_box_kind(true, &leaf.id.kind), BoxKind::Leaf);

    let file_fill = box_fill(node_box_kind(false, &file.id.kind), 2, node_box_tint(&file));
    let item_fill = box_fill(node_box_kind(false, &item.id.kind), 2, node_box_tint(&item));
    let leaf_fill = box_fill(node_box_kind(true, &leaf.id.kind), 2, node_box_tint(&leaf));
    assert!(brightness(file_fill) > brightness(item_fill));
    assert!(brightness(item_fill) > brightness(leaf_fill));
}

#[test]
fn renderer_theme_fingerprint_is_stable_and_nonzero() {
    assert_eq!(fingerprint(MONO, SANS), fingerprint(MONO, SANS));
    assert_ne!(fingerprint(MONO, SANS), 0);
}

#[test]
fn fingerprint_depends_on_the_font_families() {
    assert_ne!(fingerprint(MONO, SANS), fingerprint("Menlo", "Helvetica Neue"));
    assert_ne!(fingerprint(MONO, SANS), fingerprint(SANS, MONO));
}

#[test]
fn border_is_lighter_than_fill() {
    // The churn stripe colour at 30% heat, 0x2a2a2e -> 0xb03030.
    let f = 0x522c2f;
    assert!(f != FILL_COLD && f != FILL_HOT);
    let b = border_for(f);
    assert!((b >> 16) & 0xff >= (f >> 16) & 0xff);
    assert!((b >> 8) & 0xff >= (f >> 8) & 0xff);
    assert!(b & 0xff >= f & 0xff);
    assert_ne!(b, f);
}

#[test]
fn border_of_white_stays_white_and_of_black_lifts_by_twelve_percent() {
    assert_eq!(border_for(0xffffff), 0xffffff);
    // 255 * 0.12 = 30.6 -> 31 on each channel.
    assert_eq!(border_for(0x000000), 0x1f1f1f);
}

#[test]
fn syntax_default_is_text_primary() {
    assert_eq!(syntax_color(HighlightKind::Default), TEXT_PRIMARY);
    assert_eq!(syntax_color(HighlightKind::Keyword), 0xc586c0);
}

#[test]
fn depth_fill_ramp_endpoints_midpoint_and_clamp() {
    assert_eq!(depth_fill(0), 0x17171B);
    assert_eq!(depth_fill(8), 0x3C3C46);
    assert_eq!(depth_fill(12), 0x3C3C46); // clamps at level 8
    // t = 0.5 per channel: r,g 23+18.5 -> 42 (0x2a); b 27+21.5 -> 49 (0x31)
    assert_eq!(depth_fill(4), 0x2a2a31);
}

#[test]
fn depth_fill_never_darkens_inward() {
    for level in 0..20u8 {
        let outer = depth_fill(level);
        let inner = depth_fill(level + 1);
        assert!((inner >> 16) & 0xff >= (outer >> 16) & 0xff);
        assert!((inner >> 8) & 0xff >= (outer >> 8) & 0xff);
        assert!(inner & 0xff >= outer & 0xff);
    }
}

#[test]
fn box_fill_leaf_pages_are_editor_black_at_every_depth() {
    assert_eq!(box_fill(BoxKind::Leaf, 0, BoxTint::Normal), CODE_BG);
    assert_eq!(box_fill(BoxKind::Leaf, 5, BoxTint::Normal), CODE_BG);
    assert_eq!(box_fill(BoxKind::Folder, 0, BoxTint::Normal), depth_fill(0));
    assert_eq!(box_fill(BoxKind::Folder, 5, BoxTint::Normal), depth_fill(5));
}

#[test]
fn box_fill_files_differ_from_folders() {
    for level in [0, 3, 8] {
        let folder = box_fill(BoxKind::Folder, level, BoxTint::Normal);
        let file = box_fill(BoxKind::File, level, BoxTint::Normal);
        let item = box_fill(BoxKind::Item, level, BoxTint::Normal);
        assert_ne!(
            file, folder,
            "file and folder fills must differ at level {level}"
        );
        assert_eq!(file, file_fill(level));
        assert_eq!(item, item_fill(level));
    }
}

#[test]
fn leaf_fill_is_darker_than_item_fill() {
    for level in [0, 3, 8] {
        assert!(brightness(leaf_fill(level)) < brightness(item_fill(level)));
    }
}

#[test]
fn box_fill_tints_produce_different_colors_than_normal() {
    let normal = box_fill(BoxKind::Folder, 0, BoxTint::Normal);
    assert_ne!(box_fill(BoxKind::Folder, 0, BoxTint::TypeDef), normal);
    assert_ne!(box_fill(BoxKind::Folder, 0, BoxTint::DocsFolder), normal);
    assert_ne!(box_fill(BoxKind::Folder, 0, BoxTint::TestFolder), normal);
    let leaf_normal = box_fill(BoxKind::Leaf, 0, BoxTint::Normal);
    assert_ne!(box_fill(BoxKind::Leaf, 0, BoxTint::TypeDef), leaf_normal);
    assert_ne!(box_fill(BoxKind::Leaf, 0, BoxTint::DocsFolder), leaf_normal);
    assert_ne!(box_fill(BoxKind::Leaf, 0, BoxTint::TestFolder), leaf_normal);
}

#[test]
fn tinted_fill_border_contract() {
    for kind in [BoxKind::Folder, BoxKind::File, BoxKind::Item] {
        for tint in [
            BoxTint::TypeDef,
            BoxTint::DocsFolder,
            BoxTint::TestFolder,
            BoxTint::FileType(extension_tint("rs")),
            BoxTint::FileType(extension_tint("ts")),
            BoxTint::FileType(extension_tint("py")),
        ] {
            let fill = box_fill(kind, 2, tint);
            let border = border_for(fill);
            assert!((border >> 16) & 0xff >= (fill >> 16) & 0xff);
            assert!((border >> 8) & 0xff >= (fill >> 8) & 0xff);
            assert!(border & 0xff >= fill & 0xff);
            assert_ne!(border, fill);
        }
    }
}

#[test]
fn file_type_three_tier_brightness() {
    for ext in ["rs", "ts", "py", "js", "go"] {
        let tint = BoxTint::FileType(extension_tint(ext));
        let file = box_fill(BoxKind::File, 2, tint);
        let item = box_fill(BoxKind::Item, 2, tint);
        let leaf = box_fill(BoxKind::Leaf, 2, tint);
        assert!(
            brightness(file) > brightness(item),
            "{ext}: file ({file:#x}) must be brighter than item ({item:#x})"
        );
        assert!(
            brightness(item) > brightness(leaf),
            "{ext}: item ({item:#x}) must be brighter than leaf ({leaf:#x})"
        );
    }
}

#[test]
fn extension_tints_cover_aliases_and_fall_back_to_grey() {
    assert_eq!(extension_tint("rs"), 0xc06030);
    assert_eq!(extension_tint("mjs"), extension_tint("js"));
    assert_eq!(extension_tint("hpp"), 0x5060c0);
    assert_eq!(extension_tint("markdown"), extension_tint("md"));
    assert_eq!(extension_tint("unknown"), 0x606068);
    assert_eq!(extension_tint(""), 0x606068);
}

#[test]
fn classify_tint_docs_folder() {
    for name in &["docs", "doc", "documentation"] {
        let n = node(SymbolKind::Folder, name, name);
        assert_eq!(
            node_box_tint(&n),
            BoxTint::DocsFolder,
            "expected DocsFolder for {name}"
        );
    }
}

#[test]
fn classify_tint_test_folder() {
    for name in &["test", "tests", "spec", "specs", "__tests__"] {
        let n = node(SymbolKind::Folder, name, name);
        assert_eq!(
            node_box_tint(&n),
            BoxTint::TestFolder,
            "expected TestFolder for {name}"
        );
    }
}

#[test]
fn classify_tint_items_use_file_extension() {
    let mut n = node(
        SymbolKind::Item {
            label: "struct".to_string(),
        },
        "Foo",
        "Foo",
    );
    n.id.qualified_path = "src/main.rs::Foo".into();
    assert_eq!(node_box_tint(&n), BoxTint::FileType(extension_tint("rs")));
    n.id.qualified_path = "app.ts::Bar".into();
    assert_eq!(node_box_tint(&n), BoxTint::FileType(extension_tint("ts")));
}

#[test]
fn classify_tint_normal_cases() {
    assert_eq!(
        node_box_tint(&node(SymbolKind::Folder, "src", "src")),
        BoxTint::Normal
    );
    assert_eq!(
        node_box_tint(&node(SymbolKind::Item { label: "fn".into() }, "foo", "foo")),
        BoxTint::Normal
    );
    assert_eq!(
        node_box_tint(&node(SymbolKind::File, "main.rs", "main.rs")),
        BoxTint::FileType(extension_tint("rs"))
    );
    assert_eq!(
        node_box_tint(&node(SymbolKind::Chunk, "chunk", "chunk")),
        BoxTint::Normal
    );
}

#[test]
fn tint_uses_the_last_dot_of_the_file_part_only() {
    assert_eq!(
        node_box_tint(&node(SymbolKind::File, "archive.tar.gz", "archive.tar.gz")),
        BoxTint::FileType(extension_tint("gz"))
    );
    let mut n = node(SymbolKind::Item { label: "fn".into() }, "m", "m");
    n.id.qualified_path = "lib/mod.rs::Type::method.name".into();
    assert_eq!(node_box_tint(&n), BoxTint::FileType(extension_tint("rs")));
    assert_eq!(
        node_box_tint(&node(SymbolKind::File, "trailing.", "trailing.")),
        BoxTint::FileType(0x606068)
    );
}
