use outrider::buffers::{collect_file_symbols, BufferLru, MAX_BUFFERS};
use outrider::symbol::{file_path_of, fs_rel_path, SymbolId, SymbolKind, SymbolNode};

fn node(kind: SymbolKind, qual: &str, byte_range: Option<(usize, usize)>, children: Vec<SymbolNode>) -> SymbolNode {
    SymbolNode {
        id: SymbolId { kind, qualified_path: qual.into(), ordinal: 0 },
        name: qual.rsplit(['#', ':']).next().unwrap_or(qual).to_string(),
        byte_range,
        measure: 1,
        churn_count: 0,
        children,
    }
}

fn fn_kind() -> SymbolKind {
    SymbolKind::Item { label: "fn".into() }
}

#[test]
fn file_path_of_splits_at_first_colons() {
    assert_eq!(file_path_of("src/lib.rs::Point::norm"), "src/lib.rs");
    assert_eq!(file_path_of("src/lib.rs"), "src/lib.rs");
    assert_eq!(file_path_of("BIG.md#0"), "BIG.md");
    assert_eq!(file_path_of("dir/f.rs#2"), "dir/f.rs");
}

#[test]
fn collect_file_symbols_maps_items_by_file() {
    let root = node(
        SymbolKind::Folder,
        "",
        None,
        vec![node(
            SymbolKind::File,
            "a.rs",
            Some((0, 40)),
            vec![node(
                SymbolKind::Item { label: "impl".into() },
                "a.rs::T",
                Some((0, 30)),
                vec![node(fn_kind(), "a.rs::T::m", Some((10, 25)), vec![])],
            )],
        )],
    );
    let map = collect_file_symbols(&root);
    assert_eq!(map.len(), 1);
    let got: Vec<(&str, SymbolKind, usize)> = map
        .get("a.rs")
        .unwrap()
        .iter()
        .map(|(id, s)| (id.qualified_path.as_str(), id.kind.clone(), *s))
        .collect();
    assert_eq!(
        got,
        vec![
            ("a.rs::T", SymbolKind::Item { label: "impl".into() }, 0),
            ("a.rs::T::m", fn_kind(), 10)
        ]
    );
}

#[test]
fn collect_file_symbols_anchors_childless_files_at_zero() {
    let root = node(
        SymbolKind::Folder,
        "",
        None,
        vec![
            node(SymbolKind::File, "README.md", Some((0, 120)), vec![]),
            node(
                SymbolKind::File,
                "a.rs",
                Some((0, 40)),
                vec![node(fn_kind(), "a.rs::f", Some((5, 30)), vec![])],
            ),
        ],
    );
    let map = collect_file_symbols(&root);
    let readme = map.get("README.md").unwrap();
    assert_eq!(readme.len(), 1);
    assert_eq!(readme[0].0.kind, SymbolKind::File);
    assert_eq!(readme[0].0.qualified_path, "README.md");
    assert_eq!(readme[0].1, 0);
    let a = map.get("a.rs").unwrap();
    assert_eq!(a.len(), 1);
    assert_eq!(a[0].0.qualified_path, "a.rs::f");
}

#[test]
fn collect_file_symbols_anchors_each_chunk_at_its_start() {
    let root = node(
        SymbolKind::Folder,
        "",
        None,
        vec![node(
            SymbolKind::File,
            "BIG.md",
            Some((0, 300)),
            vec![
                node(SymbolKind::Chunk, "BIG.md#0", Some((0, 100)), vec![]),
                node(SymbolKind::Chunk, "BIG.md#1", Some((100, 300)), vec![]),
            ],
        )],
    );
    let map = collect_file_symbols(&root);
    let got: Vec<(&str, usize)> = map
        .get("BIG.md")
        .unwrap()
        .iter()
        .map(|(id, s)| (id.qualified_path.as_str(), *s))
        .collect();
    assert_eq!(got, vec![("BIG.md#0", 0), ("BIG.md#1", 100)]);
}

#[test]
fn collect_file_symbols_skips_unanchored_nodes_and_misses_unknown_paths() {
    let root = node(
        SymbolKind::Folder,
        "",
        None,
        vec![
            node(SymbolKind::File, "empty.txt", None, vec![]),
            node(
                SymbolKind::Folder,
                "src",
                None,
                vec![node(
                    SymbolKind::File,
                    "src/b.rs",
                    Some((0, 9)),
                    vec![node(fn_kind(), "src/b.rs::g", None, vec![node(fn_kind(), "src/b.rs::g::h", Some((3, 6)), vec![])])],
                )],
            ),
        ],
    );
    let map = collect_file_symbols(&root);
    assert_eq!(map.len(), 2);
    assert!(map.get("empty.txt").unwrap().is_empty());
    let b = map.get("src/b.rs").unwrap();
    assert_eq!(b.len(), 1);
    assert_eq!(b[0].0.qualified_path, "src/b.rs::g::h");
    assert_eq!(b[0].1, 3);
    assert!(map.get("nope.rs").is_none());
}

fn fs_path(root: &str, id: &SymbolId) -> std::path::PathBuf {
    std::path::Path::new(root).join(fs_rel_path(id))
}

#[test]
fn resolve_fs_path_file_node() {
    let id = SymbolId { kind: SymbolKind::File, qualified_path: "src/main.rs".into(), ordinal: 0 };
    assert_eq!(
        fs_path("/home/user/project", &id),
        std::path::PathBuf::from("/home/user/project/src/main.rs")
    );
}

#[test]
fn resolve_fs_path_item_node() {
    let id = SymbolId { kind: fn_kind(), qualified_path: "src/lib.rs::Point::norm".into(), ordinal: 0 };
    assert_eq!(
        fs_path("/home/user/project", &id),
        std::path::PathBuf::from("/home/user/project/src/lib.rs")
    );
}

#[test]
fn resolve_fs_path_chunk_node() {
    let id = SymbolId { kind: SymbolKind::Chunk, qualified_path: "BIG.md#2".into(), ordinal: 0 };
    assert_eq!(fs_path("/repo", &id), std::path::PathBuf::from("/repo/BIG.md"));
}

#[test]
fn resolve_fs_path_folder_node() {
    let id = SymbolId { kind: SymbolKind::Folder, qualified_path: "src/utils".into(), ordinal: 0 };
    assert_eq!(fs_path("/repo", &id), std::path::PathBuf::from("/repo/src/utils"));
}

/// Materializes `path` through the cache: a hit refreshes its recency, a
/// miss reads it (here: makes its text) and caches it.
fn get(lru: &mut BufferLru<String>, path: &str) -> String {
    if !lru.touch(path) {
        lru.insert(path.to_string(), format!("text of {path}"));
    }
    lru.most_recent().unwrap().clone()
}

#[test]
fn lru_evicts_least_recent_beyond_cap() {
    let mut lru = BufferLru::new();
    for i in 0..MAX_BUFFERS {
        get(&mut lru, &format!("f{i}.rs"));
    }
    assert_eq!(lru.len(), MAX_BUFFERS);
    // touch f0 (refresh recency), then add one past the cap
    assert_eq!(get(&mut lru, "f0.rs"), "text of f0.rs");
    get(&mut lru, &format!("f{MAX_BUFFERS}.rs"));
    assert_eq!(lru.len(), MAX_BUFFERS);
    // f1 was least recent and is gone; f0 survived
    assert!(!lru.touch("f1.rs"));
    assert!(lru.touch("f0.rs"));
}

#[test]
fn lru_insert_past_the_cap_returns_the_evicted_entry() {
    let mut lru = BufferLru::new();
    for i in 0..MAX_BUFFERS {
        assert!(lru.insert(format!("f{i}.rs"), i).is_none());
    }
    assert_eq!(lru.insert("new.rs".to_string(), 99), Some(("f0.rs".to_string(), 0)));
    assert_eq!(lru.most_recent(), Some(&99));
}
