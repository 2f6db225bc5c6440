use outrider::disk_worker::{disk_worker_step, DiskWork};
use outrider::rasterize::{DiskDiagnostic, DiskOperation, DiskState};
use outrider::texture_cache::DiskEvent;

fn step(reported: &mut Vec<(DiskOperation, String)>, cancelled: bool, work: DiskWork) -> Vec<DiskEvent> {
    disk_worker_step(reported, cancelled, work, 0).0
}

fn diag(operation: DiskOperation, message: &str) -> DiskEvent {
    DiskEvent::Diagnostic(DiskDiagnostic { operation, message: message.to_owned() })
}

#[test]
fn cancelled_worker_skips_commands() {
    let mut reported = Vec::new();
    let load = DiskWork::Load { id: 7, found: Some(Ok(Some(Some((64, true))))) };
    assert!(step(&mut reported, true, load).is_empty());
    let clear = DiskWork::Clear { cleared: Some(Err("busy".to_owned())) };
    assert!(step(&mut reported, true, clear).is_empty());
    assert!(reported.is_empty());
}

#[test]
fn opening_completes_even_when_cancelled() {
    let mut reported = Vec::new();
    let r = step(&mut reported, true, DiskWork::Open { opened: Ok(()) });
    assert_eq!(r, vec![DiskEvent::OpenComplete]);
    let r = step(&mut reported, false, DiskWork::Open { opened: Err("denied".to_owned()) });
    assert_eq!(r, vec![diag(DiskOperation::Open, "denied"), DiskEvent::OpenComplete]);
}

#[test]
fn loads_answer_loaded_or_miss() {
    let mut reported = Vec::new();
    let found = DiskWork::Load { id: 3, found: Some(Ok(Some(Some((4096, true))))) };
    assert_eq!(step(&mut reported, false, found), vec![DiskEvent::Loaded { id: 3, texture: Some((4096, true)) }]);
    let undecodable = DiskWork::Load { id: 4, found: Some(Ok(Some(None))) };
    assert_eq!(step(&mut reported, false, undecodable), vec![DiskEvent::Loaded { id: 4, texture: None }]);
    let absent = DiskWork::Load { id: 5, found: Some(Ok(None)) };
    assert_eq!(step(&mut reported, false, absent), vec![DiskEvent::Miss { id: 5 }]);
    let no_store = DiskWork::Load { id: 6, found: None };
    assert_eq!(step(&mut reported, false, no_store), vec![DiskEvent::Miss { id: 6 }]);
    assert!(reported.is_empty());
}

#[test]
fn repeated_load_failure_is_reported_once() {
    let mut reported = Vec::new();
    let fail = |id| DiskWork::Load { id, found: Some(Err("read error".to_owned())) };
    assert_eq!(
        step(&mut reported, false, fail(1)),
        vec![diag(DiskOperation::Load, "read error"), DiskEvent::Miss { id: 1 }]
    );
    assert_eq!(step(&mut reported, false, fail(2)), vec![DiskEvent::Miss { id: 2 }]);
    let save = DiskWork::Save { saved: Some(Err("read error".to_owned())) };
    assert_eq!(
        step(&mut reported, false, save),
        vec![diag(DiskOperation::Save, "read error"), DiskEvent::SaveComplete]
    );
    assert_eq!(reported.len(), 2);
}

#[test]
fn saves_always_complete() {
    let mut reported = Vec::new();
    assert_eq!(step(&mut reported, false, DiskWork::Save { saved: Some(Ok(())) }), vec![DiskEvent::SaveComplete]);
    assert_eq!(step(&mut reported, false, DiskWork::Save { saved: None }), vec![DiskEvent::SaveComplete]);
}

#[test]
fn every_failed_clear_is_reported() {
    let mut reported = Vec::new();
    for _ in 0..2 {
        let clear = DiskWork::Clear { cleared: Some(Err("locked".to_owned())) };
        assert_eq!(
            step(&mut reported, false, clear),
            vec![diag(DiskOperation::Clear, "locked"), DiskEvent::ClearComplete]
        );
    }
    assert!(reported.is_empty());
    assert_eq!(
        step(&mut reported, false, DiskWork::Clear { cleared: None }),
        vec![diag(DiskOperation::Clear, "texture cache unavailable"), DiskEvent::ClearComplete]
    );
    assert_eq!(step(&mut reported, false, DiskWork::Clear { cleared: Some(Ok(())) }), vec![DiskEvent::ClearComplete]);
}

#[test]
fn worker_publishes_usage_after_work_with_a_store() {
    let mut reported = Vec::new();
    let (_, state) = disk_worker_step(&mut reported, false, DiskWork::Open { opened: Ok(()) }, 4096);
    assert_eq!(state, Some(DiskState::Ready { used_bytes: 4096 }));
    let (_, state) = disk_worker_step(&mut reported, true, DiskWork::Open { opened: Err("denied".to_owned()) }, 0);
    assert_eq!(state, Some(DiskState::Unavailable));
    let failed_load = DiskWork::Load { id: 1, found: Some(Err("read error".to_owned())) };
    let (_, state) = disk_worker_step(&mut reported, false, failed_load, 512);
    assert_eq!(state, Some(DiskState::Ready { used_bytes: 512 }));
    let (_, state) = disk_worker_step(&mut reported, false, DiskWork::Save { saved: None }, 512);
    assert_eq!(state, None);
    let (_, state) = disk_worker_step(&mut reported, true, DiskWork::Clear { cleared: Some(Ok(())) }, 0);
    assert_eq!(state, None);
    let (_, state) = disk_worker_step(&mut reported, false, DiskWork::Clear { cleared: Some(Ok(())) }, 0);
    assert_eq!(state, Some(DiskState::Ready { used_bytes: 0 }));
}
