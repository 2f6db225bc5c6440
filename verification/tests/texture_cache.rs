use outrider::rasterize::{DiskDiagnostic, DiskOperation, DiskState};
use outrider::settings::DEFAULT_CACHE_MB;
use outrider::texture_cache::{
    top_by_priority, ClearStep, DiskEvent, DiskStart, Lookup, SendOutcome, TextureCache,
};

const A: u64 = 1;
const B: u64 = 2;
const C: u64 = 3;

fn bake(cache: &mut TextureCache, groups: &Vec<(u64, u64)>, bytes: usize) -> Vec<u64> {
    let batch = cache.take_bake_batch(groups);
    for &id in &batch {
        cache.insert_entry(id, bytes, bytes > 0);
    }
    batch
}

#[test]
fn repeated_request_is_deduplicated_and_priority_is_upgraded() {
    let mut cache = TextureCache::new_memory_only(1024);
    cache.request(A, 10);
    cache.request(A, 100);
    cache.request(B, 50);
    assert_eq!(cache.next_request_ids(), vec![A, B]);
}

#[test]
fn visibility_frame_replaces_stale_priorities_with_current_areas() {
    let (was_large, now_large, offscreen) = (1, 2, 3);
    let mut cache = TextureCache::new_memory_only(1024);
    cache.request(was_large, 1_000);
    cache.request(now_large, 10);
    cache.request(offscreen, 500);
    cache.begin_visibility_frame();
    cache.request(was_large, 5);
    cache.request(now_large, 100);
    assert_eq!(cache.next_request_ids(), vec![now_large, was_large, offscreen]);
}

#[test]
fn grouped_bakes_finish_visible_leaves_from_the_first_file() {
    let (a1, b1, a2, a3, b2) = (10, 20, 11, 12, 21);
    let groups = vec![(a1, 1), (a2, 1), (a3, 1), (b1, 2), (b2, 2)];
    let mut cache = TextureCache::new_memory_only(256 * 1024 * 1024);
    cache.request(a1, 100);
    cache.request(b1, 90);
    cache.request(a2, 80);
    cache.request(a3, 70);
    cache.request(b2, 60);
    let baked = bake(&mut cache, &groups, 1);
    assert!(cache.has_queued());
    assert_eq!(baked, vec![a1, a2, a3, b1]);
    assert_eq!(cache.next_request_ids(), vec![b2]);
}

#[test]
fn group_mates_need_a_positive_priority() {
    let groups = vec![(1, 7), (2, 7), (3, 8)];
    let mut cache = TextureCache::new_memory_only(1024);
    cache.request(1, 10);
    cache.request(2, 0);
    cache.request(3, 5);
    assert_eq!(cache.take_bake_batch(&groups), vec![1, 3, 2]);
}

#[test]
fn image_readiness_rejects_empty_cached_texture() {
    let mut cache = TextureCache::new_memory_only(1024 * 1024);
    cache.insert_entry(A, 0, false);
    assert!(!cache.has_image(A));
    cache.insert_entry(B, 64, true);
    assert!(cache.has_image(B));
}

#[test]
fn live_text_refresh_queues_cached_texture_once() {
    let mut cache = TextureCache::new_memory_only(1024);
    cache.insert_entry(A, 64, true);
    assert!(cache.refresh_from_live_text(A, 100));
    assert_eq!(cache.next_request_ids(), vec![A]);
    assert!(!cache.refresh_from_live_text(A, 100));
}

#[test]
fn invalidating_a_texture_removes_its_renderable_image() {
    let mut cache = TextureCache::new_memory_only(1024 * 1024);
    cache.insert_entry(A, 64, true);
    assert!(cache.invalidate(A));
    assert!(!cache.contains(A));
    assert!(!cache.has_image(A));
    assert_eq!(cache.used_bytes(), 0);
    assert!(!cache.invalidate(A));
}

#[test]
fn replacing_an_entry_does_not_double_count_bytes() {
    let mut cache = TextureCache::new_memory_only(1024);
    cache.insert_entry(A, 100, false);
    let outcome = cache.insert_entry(A, 60, false);
    assert!(outcome.replaced);
    assert_eq!(cache.used_bytes(), 60);
}

#[test]
fn insertion_obeys_memory_limit() {
    let mut cache = TextureCache::new_memory_only(100);
    cache.insert_entry(A, 80, false);
    let outcome = cache.insert_entry(B, 80, false);
    assert!(cache.used_bytes() <= 100);
    assert_eq!(outcome.evicted, vec![A]);
}

#[test]
fn oversized_texture_is_evicted_at_once() {
    let mut cache = TextureCache::new_memory_only(100);
    let outcome = cache.insert_entry(A, 101, true);
    assert_eq!(outcome.evicted, vec![A]);
    assert!(!cache.contains(A));
    assert_eq!(cache.used_bytes(), 0);
}

#[test]
fn cache_bakes_largest_first_within_budget() {
    let mut cache = TextureCache::new_memory_only(256 * 1024 * 1024);
    for i in 0..6u64 {
        assert_eq!(cache.get(i, (i + 1) * 10, false), Lookup::Queued);
    }
    assert!(cache.has_queued());
    bake(&mut cache, &vec![], 64);
    assert!(cache.has_queued(), "6 queued, budget 4 — misses remain");
    for i in 2..6u64 {
        assert_eq!(cache.get(i, 1, false), Lookup::Hit { has_image: true });
    }
    assert_eq!(cache.get(0, 1, false), Lookup::Queued);
    assert_eq!(cache.get(1, 1, false), Lookup::Queued);
    bake(&mut cache, &vec![], 64);
    assert!(!cache.has_queued());
    assert_eq!(cache.get(0, 1, false), Lookup::Hit { has_image: true });
}

#[test]
fn cache_negative_caches_leaves_without_lines() {
    let mut cache = TextureCache::new_memory_only(DEFAULT_CACHE_MB as usize * 1024 * 1024);
    assert_eq!(cache.get(A, 1, false), Lookup::Queued);
    bake(&mut cache, &vec![], 0);
    assert!(!cache.has_queued());
    assert_eq!(cache.get(A, 1, false), Lookup::Hit { has_image: false });
    assert!(!cache.has_queued());
}

#[test]
fn cache_evicts_lru_and_retires_images() {
    let one = 64;
    let mut cache = TextureCache::new_memory_only(usize::MAX);
    cache.get(A, 1, false);
    bake(&mut cache, &vec![], one);
    assert!(cache.set_max_bytes(one).is_empty());
    cache.get(B, 1, false);
    let batch = cache.take_bake_batch(&vec![]);
    assert_eq!(batch, vec![B]);
    let outcome = cache.insert_entry(B, one, true);
    assert_eq!(outcome.evicted, vec![A], "evicted image is retired");
    assert!(matches!(cache.get(B, 1, false), Lookup::Hit { .. }));
    assert_eq!(cache.get(A, 1, false), Lookup::Queued);
}

#[test]
fn cache_hit_refreshes_lru_order() {
    let one = 64;
    let mut cache = TextureCache::new_memory_only(usize::MAX);
    cache.get(A, 1, false);
    bake(&mut cache, &vec![], one);
    cache.get(B, 1, false);
    bake(&mut cache, &vec![], one);
    assert!(matches!(cache.get(A, 1, false), Lookup::Hit { .. }));
    cache.set_max_bytes(2 * one);
    cache.get(C, 1, false);
    bake(&mut cache, &vec![], one);
    assert!(matches!(cache.get(A, 1, false), Lookup::Hit { .. }));
    assert_eq!(cache.get(B, 1, false), Lookup::Queued);
    assert!(matches!(cache.get(C, 1, false), Lookup::Hit { .. }));
}

#[test]
fn worker_open_lifecycle_keeps_empty_cache_pending_until_completion() {
    let mut cache = TextureCache::new_prepared(1024, DiskStart::Started);
    assert!(cache.has_queued());
    cache.apply_disk_result(DiskEvent::OpenComplete);
    assert!(!cache.has_queued());
}

#[test]
fn disk_requests_are_deduplicated_and_keep_upgraded_priority() {
    let mut cache = TextureCache::new_prepared(1024, DiskStart::Started);
    cache.apply_disk_result(DiskEvent::OpenComplete);
    assert_eq!(cache.get(A, 10, true), Lookup::WaitingDisk);
    assert_eq!(cache.get(A, 100, true), Lookup::WaitingDisk);
    assert!(cache.next_request_ids().is_empty(), "disk candidate baked before miss");
    assert_eq!(cache.disk_load_candidates(), vec![A]);
    cache.note_load_sent(A);
    assert!(cache.disk_load_candidates().is_empty(), "duplicate disk load queued");
    cache.request(B, 50);
    cache.apply_disk_result(DiskEvent::Miss { id: A });
    assert_eq!(bake(&mut cache, &vec![], 1), vec![A, B]);
}

#[test]
fn disk_load_promotes_into_memory() {
    let mut cache = TextureCache::new_prepared(100, DiskStart::Started);
    cache.get(A, 5, true);
    cache.note_load_sent(A);
    let outcome = cache.apply_disk_result(DiskEvent::Loaded { id: A, texture: Some((80, true)) });
    assert!(outcome.is_some());
    assert!(cache.has_image(A));
    assert!(cache.disk_load_candidates().is_empty());
    cache.get(B, 5, true);
    cache.apply_disk_result(DiskEvent::Loaded { id: B, texture: Some((80, true)) });
    assert!(cache.used_bytes() <= 100);
    cache.get(C, 5, true);
    cache.apply_disk_result(DiskEvent::Loaded { id: C, texture: None });
    assert_eq!(cache.next_request_ids(), vec![C]);
}

#[test]
fn disconnected_disk_worker_falls_back_to_baking() {
    let mut cache = TextureCache::new_prepared(1024, DiskStart::Started);
    cache.get(A, 10, true);
    assert_eq!(cache.disk_load_candidates(), vec![A]);
    cache.note_load_disconnected(A);
    bake(&mut cache, &vec![], 1);
    assert!(cache.contains(A));
}

#[test]
fn result_disconnect_requeues_inflight_loads_and_clears_lifecycle() {
    let mut cache = TextureCache::new_prepared(1024, DiskStart::Started);
    cache.get(A, 100, true);
    cache.get(B, 50, true);
    cache.note_load_sent(A);
    cache.note_save_sent();
    cache.request_clear_disk_cache();
    assert_eq!(cache.clear_step(), ClearStep::Send);
    cache.note_clear_sent(SendOutcome::Sent);
    cache.handle_disk_disconnect();
    assert!(!cache.can_save());
    bake(&mut cache, &vec![], 1);
    assert!(cache.contains(A));
    assert!(cache.contains(B));
    assert!(!cache.has_queued());
    let diagnostics = cache.drain_disk_diagnostics();
    assert_eq!(
        diagnostics,
        vec![DiskDiagnostic { operation: DiskOperation::Clear, message: "texture cache worker disconnected".into() }]
    );
}

#[test]
fn every_clear_without_a_worker_emits_a_diagnostic() {
    let mut cache = TextureCache::new_memory_only(1024);
    for _ in 0..2 {
        cache.request_clear_disk_cache();
        assert_eq!(cache.clear_step(), ClearStep::Nothing);
    }
    let diagnostics = cache.drain_disk_diagnostics();
    assert_eq!(diagnostics.len(), 2);
    assert!(diagnostics.iter().all(|d| d.operation == DiskOperation::Clear));
    assert!(cache.drain_disk_diagnostics().is_empty());
}

#[test]
fn clear_waits_for_a_pending_worker_start() {
    let mut cache = TextureCache::new_prepared(1024, DiskStart::Deferred);
    cache.request_clear_disk_cache();
    assert_eq!(cache.clear_step(), ClearStep::Nothing);
    assert!(cache.drain_disk_diagnostics().is_empty());
    cache.note_start_retried(DiskStart::Started, true);
    assert_eq!(cache.clear_step(), ClearStep::Send);
    cache.note_clear_sent(SendOutcome::Full);
    assert_eq!(cache.clear_step(), ClearStep::Send);
}

#[test]
fn clear_keeps_cache_pending_until_worker_completion() {
    let mut cache = TextureCache::new_prepared(1024, DiskStart::Started);
    cache.apply_disk_result(DiskEvent::OpenComplete);
    cache.request_clear_disk_cache();
    assert_eq!(cache.clear_step(), ClearStep::Send);
    cache.note_clear_sent(SendOutcome::Sent);
    assert!(cache.has_queued(), "queued clear is still in flight");
    cache.apply_disk_result(DiskEvent::ClearComplete);
    assert!(!cache.has_queued());
}

#[test]
fn save_keeps_cache_pending_until_worker_completion() {
    let mut cache = TextureCache::new_prepared(1024 * 1024, DiskStart::Started);
    cache.apply_disk_result(DiskEvent::OpenComplete);
    assert!(cache.can_save());
    cache.note_save_sent();
    assert!(cache.has_queued(), "queued save is still in flight");
    cache.apply_disk_result(DiskEvent::SaveComplete);
    assert!(!cache.has_queued());
}

#[test]
fn failed_store_open_transitions_disk_state_to_unavailable() {
    let cache = TextureCache::new_prepared(1024, DiskStart::Failed("injected open failure".into()));
    assert_eq!(cache.disk_state(true, DiskState::Preparing), DiskState::Unavailable);
    let mut cache = cache;
    let d = cache.drain_disk_diagnostics();
    assert_eq!(d, vec![DiskDiagnostic { operation: DiskOperation::Open, message: "injected open failure".into() }]);
}

#[test]
fn disk_state_follows_worker_and_slot() {
    let cache = TextureCache::new_prepared(1024, DiskStart::Deferred);
    assert_eq!(cache.disk_state(true, DiskState::Unavailable), DiskState::Preparing);
    let cache = TextureCache::new_prepared(1024, DiskStart::Started);
    assert_eq!(cache.disk_state(true, DiskState::Ready { used_bytes: 7 }), DiskState::Ready { used_bytes: 7 });
    assert_eq!(cache.disk_state(false, DiskState::Ready { used_bytes: 7 }), DiskState::Unavailable);
}

#[test]
fn superseded_cache_reports_once_and_bakes_instead() {
    let mut cache = TextureCache::new_prepared(1024, DiskStart::Started);
    cache.get(A, 3, true);
    cache.handle_disk_superseded(false);
    cache.handle_disk_superseded(false);
    assert!(!cache.can_save());
    assert_eq!(cache.next_request_ids(), vec![A]);
    let d = cache.drain_disk_diagnostics();
    assert_eq!(d.len(), 1);
    assert_eq!(d[0].message, "texture cache superseded by a newer project");
}

#[test]
fn start_timeout_is_reported() {
    let mut cache = TextureCache::new_prepared(1024, DiskStart::Deferred);
    assert!(cache.has_queued());
    cache.note_start_timed_out();
    assert!(!cache.has_queued());
    assert_eq!(
        cache.drain_disk_diagnostics()[0].message,
        "timed out waiting for the previous texture cache worker to retire"
    );
}

#[test]
fn top_by_priority_orders_and_caps() {
    let pairs = vec![(1, 5), (2, 9), (3, 1), (4, 7), (5, 3)];
    assert_eq!(top_by_priority(&pairs, 3), vec![2, 4, 1]);
    assert_eq!(top_by_priority(&pairs, 10).len(), 5);
    assert!(top_by_priority(&vec![], 4).is_empty());
}

#[test]
fn miss_requeues_with_waiting_priority_and_keeps_other_requests() {
    let mut cache = TextureCache::new_prepared(1024, DiskStart::Started);
    cache.apply_disk_result(DiskEvent::OpenComplete);
    assert_eq!(cache.get(A, 100, true), Lookup::WaitingDisk);
    cache.request(B, 50);
    cache.request(C, 200);
    cache.note_load_sent(A);
    cache.apply_disk_result(DiskEvent::Miss { id: A });
    assert_eq!(cache.next_request_ids(), vec![C, A, B]);
    assert!(cache.disk_load_candidates().is_empty());
}

#[test]
fn undecodable_load_requeues_with_waiting_priority() {
    let mut cache = TextureCache::new_prepared(1024, DiskStart::Started);
    cache.apply_disk_result(DiskEvent::OpenComplete);
    cache.get(C, 30, true);
    cache.request(B, 60);
    cache.note_load_sent(C);
    assert!(cache.apply_disk_result(DiskEvent::Loaded { id: C, texture: None }).is_none());
    assert_eq!(cache.next_request_ids(), vec![B, C]);
}

#[test]
fn worker_disconnect_requeues_waiting_loads_with_their_priorities() {
    let mut cache = TextureCache::new_prepared(1024, DiskStart::Started);
    cache.apply_disk_result(DiskEvent::OpenComplete);
    cache.get(A, 100, true);
    cache.get(B, 50, true);
    cache.request(C, 75);
    cache.note_load_sent(A);
    cache.handle_disk_disconnect();
    assert_eq!(cache.next_request_ids(), vec![A, C, B]);
}

#[test]
fn failed_load_send_requeues_with_waiting_priority() {
    let mut cache = TextureCache::new_prepared(1024, DiskStart::Started);
    cache.apply_disk_result(DiskEvent::OpenComplete);
    cache.get(A, 40, true);
    cache.request(B, 10);
    cache.request(C, 90);
    cache.note_load_disconnected(A);
    assert_eq!(cache.next_request_ids(), vec![C, A, B]);
}
