use outrider::symbol::{SymbolId, SymbolKind};
use outrider::texture_store::{
    key_from_file_name, normalize_relative_path, validate_file, validate_payload, write_header,
    Fnv1a, Header, InvalidTexture, NoSpace, TextureKey, TexturePayload, TextureStore, HEADER_LEN,
};

fn key(path: &str, source_fingerprint: u64) -> TextureKey {
    TextureKey::new(
        path,
        source_fingerprint,
        &SymbolId {
            kind: SymbolKind::Item { label: "fn".into() },
            qualified_path: format!("{path}::item"),
            ordinal: 0,
        },
        1,
        2,
    )
}

fn payload(bytes: usize) -> TexturePayload {
    assert_eq!(bytes % 4, 0);
    TexturePayload { width: (bytes / 4) as u32, height: 1, bytes: vec![0x5a; bytes] }
}

#[test]
fn source_fingerprint_changes_the_cache_key() {
    assert_ne!(key("src/lib.rs", 11), key("src/lib.rs", 12));
}

#[test]
fn normalized_relative_paths_share_a_cache_key() {
    assert_eq!(key("src\\lib.rs", 11), key("src/lib.rs", 11));
}

#[test]
fn symbol_schema_and_theme_each_change_the_cache_key() {
    let base = key("src/lib.rs", 11);
    let symbol = SymbolId {
        kind: SymbolKind::Item { label: "fn".into() },
        qualified_path: "src/lib.rs::other".into(),
        ordinal: 0,
    };
    assert_ne!(base, TextureKey::new("src/lib.rs", 11, &symbol, 1, 2));
    assert_ne!(
        base,
        TextureKey::new(
            "src/lib.rs",
            11,
            &SymbolId {
                kind: SymbolKind::Item { label: "fn".into() },
                qualified_path: "src/lib.rs::item".into(),
                ordinal: 0,
            },
            2,
            2,
        )
    );
    assert_ne!(
        base,
        TextureKey::new(
            "src/lib.rs",
            11,
            &SymbolId {
                kind: SymbolKind::Item { label: "fn".into() },
                qualified_path: "src/lib.rs::item".into(),
                ordinal: 0,
            },
            1,
            3,
        )
    );
}

#[test]
fn fnv1a_matches_reference_vectors() {
    assert_eq!(Fnv1a::new().finish(), 0xcbf29ce484222325);
    let mut h = Fnv1a::new();
    h.update(b"a");
    assert_eq!(h.finish(), 0xaf63dc4c8601ec8c);
    let mut h = Fnv1a::new();
    h.update(b"foobar");
    assert_eq!(h.finish(), 0x85944171f73967e8);
}

#[test]
fn fnv1a_field_is_length_prefixed() {
    let mut a = Fnv1a::new();
    a.field(b"ab");
    let mut b = Fnv1a::new();
    b.update(&2u64.to_le_bytes());
    b.update(b"ab");
    assert_eq!(a.finish(), b.finish());
}

#[test]
fn normalize_strips_leading_dot_slashes_and_converts_backslashes() {
    let s: String = normalize_relative_path("./.\\src\\lib.rs").into_iter().collect();
    assert_eq!(s, "src/lib.rs");
    let s: String = normalize_relative_path("//a/b").into_iter().collect();
    assert_eq!(s, "a/b");
}

#[test]
fn filename_round_trips_through_key_from_file_name() {
    let k = key("src/lib.rs", 7);
    let name = k.filename();
    assert_eq!(name.len(), 20);
    assert!(name.ends_with(".tex"));
    assert_eq!(name, format!("{:016x}.tex", k.value()));
    assert_eq!(key_from_file_name(&name), Some(k));
    assert_eq!(key_from_file_name("zz.tex"), None);
    assert_eq!(key_from_file_name("00000000000000ff.png"), None);
    assert_eq!(key_from_file_name("00000000000000ff.tex").map(|k| k.value()), Some(255));
    assert_eq!(key_from_file_name("ff.tex"), None);
}

#[test]
fn header_is_32_bytes_little_endian() {
    let h = write_header(2, 3, 24, 0x0102);
    assert_eq!(h.len(), HEADER_LEN);
    assert_eq!(&h[0..8], b"OUTRTX01");
    assert_eq!(&h[8..12], &[2, 0, 0, 0]);
    assert_eq!(&h[12..16], &[3, 0, 0, 0]);
    assert_eq!(&h[16..24], &[24, 0, 0, 0, 0, 0, 0, 0]);
    assert_eq!(&h[24..32], &[2, 1, 0, 0, 0, 0, 0, 0]);
}

#[test]
fn validate_file_accepts_matching_header_and_size() {
    let h = write_header(2, 3, 24, 9);
    let file_bytes = (HEADER_LEN + 24) as u64;
    assert_eq!(
        validate_file(&h, file_bytes, 1024),
        Some(Header { width: 2, height: 3, payload_len: 24, last_access: 9, file_bytes })
    );
    // trailing bytes
    assert_eq!(validate_file(&h, file_bytes + 1, 1024), None);
    // over the allowance
    assert_eq!(validate_file(&h, file_bytes, file_bytes - 1), None);
    // corrupt header
    assert_eq!(validate_file(&[0xff; 12], 12, 1024), None);
    // oversized dimensions
    let wide = write_header(1025, 1, 4100, 0);
    assert_eq!(validate_file(&wide, (HEADER_LEN + 4100) as u64, 1 << 20), None);
}

#[test]
fn validate_payload_checks_dimensions() {
    assert_eq!(validate_payload(&payload(16)), Ok(16));
    let invalid = TexturePayload { width: 1025, height: 1, bytes: vec![0; 1025 * 4] };
    assert_eq!(validate_payload(&invalid), Err(InvalidTexture));
    let short = TexturePayload { width: 2, height: 2, bytes: vec![0; 15] };
    assert_eq!(validate_payload(&short), Err(InvalidTexture));
    let empty = TexturePayload { width: 0, height: 1, bytes: vec![] };
    assert_eq!(validate_payload(&empty), Err(InvalidTexture));
}

#[test]
fn store_index_accounts_replacements_once() {
    let mut s = TextureStore::new("cache/ns".to_string(), 1024);
    let a = key("a.rs", 1);
    s.record(a, 48, 1);
    s.record(a, 52, 2);
    assert_eq!(s.used_bytes(), 52);
    assert_eq!(s.len(), 1);
    s.remove_metadata(a);
    assert_eq!(s.used_bytes(), 0);
    assert_eq!(s.len(), 0);
}

#[test]
fn store_evicts_least_recently_used_first() {
    let entry = (HEADER_LEN + 24) as u64;
    let mut s = TextureStore::new("cache".to_string(), 2 * entry - 1);
    let old = key("old.rs", 1);
    let new = key("new.rs", 1);
    assert_eq!(s.plan_save(&payload(24)), Ok(Some(entry)));
    assert_eq!(s.reservation_victim(entry), Ok(None));
    let t = s.next_access_at(10);
    s.record(old, entry, t);
    assert_eq!(s.reservation_victim(entry), Ok(Some(old)));
    s.remove_metadata(old);
    assert_eq!(s.reservation_victim(entry), Ok(None));
    let t = s.next_access_at(10);
    assert_eq!(t, 11);
    s.record(new, entry, t);
    assert!(s.used_bytes() <= s.max_bytes());
    assert!(s.metadata(&old).is_none());
    assert!(s.metadata(&new).is_some());
}

#[test]
fn store_reservation_without_entries_has_no_space() {
    let s = TextureStore::new("cache".to_string(), 10);
    assert_eq!(s.reservation_victim(11), Err(NoSpace));
    assert_eq!(s.plan_save(&payload(16)), Ok(None));
}

#[test]
fn store_over_budget_victim_is_lru() {
    let mut s = TextureStore::new("cache".to_string(), 100);
    let a = key("a.rs", 1);
    let b = key("b.rs", 1);
    s.record(a, 60, 5);
    s.record(b, 60, 3);
    assert_eq!(s.over_budget_victim(), Some(b));
    s.remove_metadata(b);
    assert_eq!(s.over_budget_victim(), None);
}

#[test]
fn store_clock_is_monotone_and_observes_scanned_stamps() {
    let mut s = TextureStore::new("cache".to_string(), 100);
    let a = key("a.rs", 1);
    s.record_scanned(
        a,
        Header { width: 1, height: 1, payload_len: 4, last_access: 500, file_bytes: 36 },
    );
    assert_eq!(s.next_access_at(100), 501);
    let t1 = s.next_access();
    let t2 = s.next_access();
    assert!(t2 > t1);
    s.clear_index();
    assert_eq!(s.len(), 0);
    assert_eq!(s.used_bytes(), 0);
    s.reset_index();
    assert_eq!(s.next_access_at(0), 1);
}

#[test]
fn store_paths_join_namespace_and_file_name() {
    let s = TextureStore::new("cache/ns".to_string(), 100);
    let k = key("a.rs", 1);
    assert_eq!(s.path(k), format!("cache/ns/{}", k.filename()));
    let s = TextureStore::new("cache/ns/".to_string(), 100);
    assert_eq!(s.path(k), format!("cache/ns/{}", k.filename()));
}

use outrider::texture_store::{has_extension, Removal, ScannedFile};
use std::cell::RefCell;

#[test]
fn reserving_space_deletes_oldest_files_first() {
    let entry = (HEADER_LEN + 16) as u64;
    let mut s = TextureStore::new("ns".to_string(), 2 * entry);
    let (a, b) = (key("a.rs", 1), key("b.rs", 1));
    s.record(a, entry, 5);
    s.record(b, entry, 3);
    let deleted = RefCell::new(Vec::new());
    let remove = |p: &String| {
        deleted.borrow_mut().push(p.clone());
        Removal::Removed
    };
    assert_eq!(s.reserve_physical_space(entry, &remove), Ok(()));
    assert_eq!(deleted.borrow().clone(), vec![s.path(b)]);
    assert!(s.metadata(&a).is_some());
    assert!(s.used_bytes() + entry <= s.max_bytes());
}

#[test]
fn failed_pre_eviction_never_writes_past_the_hard_limit() {
    let entry = (HEADER_LEN + 16) as u64;
    let mut s = TextureStore::new("ns".to_string(), entry);
    let old = key("old.rs", 1);
    s.record(old, entry, 1);
    let remove = |_: &String| Removal::Failed("injected eviction failure".to_string());
    assert_eq!(s.reserve_physical_space(entry, &remove), Err("injected eviction failure".to_string()));
    assert!(s.metadata(&old).is_some());
    assert!(s.used_bytes() <= entry);
}

#[test]
fn reserving_more_than_the_allowance_fails_once_empty() {
    let mut s = TextureStore::new("ns".to_string(), 10);
    s.record(key("a.rs", 1), 5, 1);
    let remove = |_: &String| Removal::Missing;
    assert_eq!(s.reserve_physical_space(11, &remove), Err("unable to reserve texture cache space".to_string()));
    assert_eq!(s.len(), 0);
}

#[test]
fn evict_trims_to_the_allowance() {
    let mut s = TextureStore::new("ns".to_string(), 100);
    s.record(key("a.rs", 1), 60, 1);
    s.record(key("b.rs", 1), 60, 2);
    let remove = |_: &String| Removal::Removed;
    assert_eq!(s.evict(&remove), Ok(()));
    assert_eq!(s.len(), 1);
    assert!(s.metadata(&key("b.rs", 1)).is_some());
    assert_eq!(s.used_bytes(), 60);
}

#[test]
fn rebuild_records_valid_files_and_dooms_the_rest() {
    let a = key("a.rs", 1);
    let b = key("b.rs", 1);
    let files = vec![
        ScannedFile { name: a.filename(), head: write_header(2, 2, 16, 40), file_bytes: (HEADER_LEN + 16) as u64 },
        ScannedFile { name: "x.tmp".to_string(), head: vec![], file_bytes: 3 },
        ScannedFile { name: b.filename(), head: vec![0xff; 12], file_bytes: 12 },
        ScannedFile { name: "notes.txt".to_string(), head: vec![], file_bytes: 3 },
    ];
    let mut s = TextureStore::new("ns".to_string(), 1024);
    s.record(key("stale.rs", 1), 500, 900);
    let doomed = s.rebuild_index(&files);
    assert_eq!(doomed, vec!["x.tmp".to_string(), b.filename()]);
    assert_eq!(s.len(), 1);
    assert_eq!(s.used_bytes(), (HEADER_LEN + 16) as u64);
    assert_eq!(s.metadata(&a).map(|m| m.last_access), Some(40));
    assert_eq!(s.next_access_at(0), 41);
}

#[test]
fn loads_refresh_the_access_stamp() {
    let mut s = TextureStore::new("ns".to_string(), 1024);
    let a = key("a.rs", 1);
    let h = Header { width: 1, height: 1, payload_len: 4, last_access: 7, file_bytes: 36 };
    let access = s.record_load(a, h);
    assert!(access > 7);
    assert_eq!(s.metadata(&a).unwrap().last_access, access);
    assert_eq!(s.used_bytes(), 36);
}

#[test]
fn extensions_follow_path_rules() {
    assert!(has_extension("a.tmp", "tmp"));
    assert!(has_extension("a.b.tmp", "tmp"));
    assert!(!has_extension(".tmp", "tmp"));
    assert!(!has_extension("tmp", "tmp"));
    assert!(!has_extension("a.tmpx", "tmp"));
}

#[test]
fn saving_past_the_limit_evicts_the_old_entry_and_keeps_the_new_one() {
    // room for one 24-byte texture file, not two
    let entry = (HEADER_LEN + 24) as u64;
    let mut s = TextureStore::new("ns".to_string(), 2 * entry - 1);
    let (old, new) = (key("old.rs", 1), key("new.rs", 1));
    let remove = |_: &String| Removal::Removed;
    // save old
    assert_eq!(s.reserve_physical_space(entry, &remove), Ok(()));
    let t = s.next_access_at(1);
    s.record(old, entry, t);
    assert_eq!(s.evict(&remove), Ok(()));
    assert!(s.metadata(&old).is_some());
    // save new: the reservation removes old, and the eviction after the
    // record keeps new
    assert_eq!(s.reserve_physical_space(entry, &remove), Ok(()));
    assert!(s.metadata(&old).is_none());
    let t = s.next_access_at(2);
    s.record(new, entry, t);
    assert_eq!(s.evict(&remove), Ok(()));
    assert!(s.metadata(&new).is_some());
    assert_eq!(s.used_bytes(), entry);
}

#[test]
fn eviction_within_the_allowance_removes_nothing() {
    let mut s = TextureStore::new("ns".to_string(), 100);
    s.record(key("a.rs", 1), 40, 1);
    s.record(key("b.rs", 1), 60, 2);
    let remove = |_: &String| Removal::Failed("must not be called".to_string());
    assert_eq!(s.evict(&remove), Ok(()));
    assert_eq!(s.reserve_physical_space(0, &remove), Ok(()));
    assert_eq!(s.len(), 2);
}

#[test]
fn invalid_loaded_file_is_forgotten_and_valid_one_kept() {
    let mut s = TextureStore::new("cache/ns".to_string(), 1024);
    let a = key("a.rs", 1);
    let b = key("b.rs", 1);
    let body = vec![7u8; 16];
    let mut file = write_header(4, 1, body.len() as u64, 9);
    file.extend_from_slice(&body);
    let file_bytes = file.len() as u64;
    s.record(a, file_bytes, 9);
    s.record(b, file_bytes, 10);
    let header = s.check_loaded_file(a, &file, file_bytes).expect("valid file");
    assert_eq!((header.width, header.height, header.payload_len), (4, 1, 16));
    assert_eq!(s.len(), 2);
    assert_eq!(s.used_bytes(), 2 * file_bytes);
    // A trailing byte makes the size disagree with the header.
    assert_eq!(s.check_loaded_file(b, &file, file_bytes + 1), None);
    assert_eq!(s.len(), 1);
    assert_eq!(s.used_bytes(), file_bytes);
    assert_eq!(s.check_loaded_file(a, &[0xff; 12], 12), None);
    assert_eq!(s.len(), 0);
    assert_eq!(s.used_bytes(), 0);
}

#[test]
fn reserving_past_the_limit_evicts_the_oldest_and_succeeds() {
    let entry = (HEADER_LEN + 24) as u64;
    let mut s = TextureStore::new("ns".to_string(), 2 * entry - 1);
    let old = key("old.rs", 1);
    s.record(old, entry, 1);
    let remove = |_: &String| Removal::Removed;
    assert_eq!(s.reserve_physical_space(entry, &remove), Ok(()));
    assert_eq!(s.len(), 0);
    let new = key("new.rs", 1);
    s.record(new, entry, 2);
    assert_eq!(s.evict(&remove), Ok(()));
    assert_eq!(s.used_bytes(), entry);
    assert!(s.metadata(&new).is_some());
}

#[test]
fn failed_deletion_during_eviction_keeps_the_entry() {
    let mut s = TextureStore::new("ns".to_string(), 100);
    let (a, b) = (key("a.rs", 1), key("b.rs", 1));
    s.record(a, 60, 1);
    s.record(b, 60, 2);
    let remove = |_: &String| Removal::Failed("permission denied".to_string());
    assert_eq!(s.evict(&remove), Err("permission denied".to_string()));
    assert_eq!(s.len(), 2);
    assert_eq!(s.used_bytes(), 120);
}

#[test]
fn removal_answers_are_booked_exactly() {
    let mut s = TextureStore::new("ns".to_string(), 100);
    let (a, b) = (key("a.rs", 1), key("b.rs", 1));
    s.record(a, 30, 1);
    s.record(b, 40, 2);
    assert_eq!(s.apply_removal(a, Removal::Failed("busy".to_string())), Some("busy".to_string()));
    assert_eq!((s.len(), s.used_bytes()), (2, 70));
    assert_eq!(s.apply_removal(a, Removal::Removed), None);
    assert_eq!((s.len(), s.used_bytes()), (1, 40));
    assert_eq!(s.apply_removal(b, Removal::Missing), None);
    assert_eq!((s.len(), s.used_bytes()), (0, 0));
}
