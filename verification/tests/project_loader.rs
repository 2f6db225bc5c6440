use outrider::project_loader::{
    index_load_progress, CancellationToken, ControlEvent, ControlKind, LoadPhase, PollStep,
    ProjectLoader, SnapshotMailbox,
};
use outrider::project_loader::clear_on_terminal;

#[test]
fn newer_load_supersedes_older_result() {
    let mut loader = ProjectLoader::new();
    let first = loader.begin_generation();
    let second = loader.begin_generation();
    assert!(!loader.accepts(first));
    assert!(loader.accepts(second));
}

#[test]
fn packing_start_preview_and_completion_are_observed_in_order() {
    let mut loader = ProjectLoader::new();
    let generation = loader.start("repo".to_string());
    let step = loader.receive(ControlEvent { generation, kind: ControlKind::PackingStarted { total: 1 } });
    let PollStep::Loading(progress) = step else { panic!("packing start was not observable") };
    assert_eq!(progress.phase, LoadPhase::Packing);
    assert_eq!(progress.folder_name, "repo");
    assert_eq!((progress.completed, progress.total), (0, 1));
    assert_eq!(loader.receive(ControlEvent { generation, kind: ControlKind::Preview }), PollStep::Preview);
    assert!(loader.accepts_snapshot(generation));
    assert_eq!(
        loader.receive(ControlEvent { generation, kind: ControlKind::Complete }),
        PollStep::Complete { generation }
    );
    assert!(!loader.is_loading());
}

#[test]
fn stale_generation_rejects_every_control_event_and_snapshot() {
    let mut loader = ProjectLoader::new();
    let stale = loader.start("old".to_string());
    let current = loader.start("new".to_string());
    assert_ne!(stale, current);
    for kind in [
        ControlKind::PackingStarted { total: 3 },
        ControlKind::Preview,
        ControlKind::Complete,
        ControlKind::Failed { preview_delivered: true },
    ] {
        assert_eq!(loader.receive(ControlEvent { generation: stale, kind }), PollStep::Skip);
    }
    assert!(loader.is_loading());
    assert_eq!(loader.receive(ControlEvent { generation: current, kind: ControlKind::Preview }), PollStep::Preview);
    assert!(!loader.accepts_snapshot(stale));
    assert!(loader.accepts_snapshot(current));
}

#[test]
fn snapshots_wait_for_the_preview() {
    let mut loader = ProjectLoader::new();
    let generation = loader.start("repo".to_string());
    assert!(!loader.accepts_snapshot(generation));
}

#[test]
fn failure_and_disconnect_end_the_load() {
    let mut loader = ProjectLoader::new();
    let generation = loader.start("repo".to_string());
    assert_eq!(
        loader.receive(ControlEvent { generation, kind: ControlKind::Failed { preview_delivered: false } }),
        PollStep::Failed { generation, preview_delivered: false }
    );
    assert!(!loader.is_loading());

    let generation = loader.start("repo".to_string());
    loader.receive(ControlEvent { generation, kind: ControlKind::Preview });
    let (g, message, preview_delivered) = loader.disconnected();
    assert_eq!(g, generation);
    assert_eq!(message, "project loading worker disconnected before completion");
    assert!(preview_delivered);
    assert!(!loader.is_loading());
}

#[test]
fn progress_follows_the_indexer_until_packing() {
    let mut loader = ProjectLoader::new();
    assert!(loader.progress(0, 0, 0, 0, 0).is_none());
    let generation = loader.start("repo".to_string());
    let p = loader.progress(5, 9, 1, 3, 7).unwrap();
    assert_eq!((p.phase, p.completed, p.total), (LoadPhase::Parsing, 3, 7));
    loader.receive(ControlEvent { generation, kind: ControlKind::PackingStarted { total: 9 } });
    let p = loader.progress(5, 9, 1, 3, 7).unwrap();
    assert_eq!((p.phase, p.completed, p.total), (LoadPhase::Packing, 5, 9));
}

#[test]
fn index_progress_phases() {
    let p = index_load_progress("f", 0, 4, 9);
    assert_eq!((p.phase, p.completed, p.total), (LoadPhase::Scanning, 0, 0));
    let p = index_load_progress("f", 1, 4, 9);
    assert_eq!((p.phase, p.completed, p.total), (LoadPhase::Parsing, 4, 9));
    let p = index_load_progress("f", 2, 4, 9);
    assert_eq!((p.phase, p.completed, p.total), (LoadPhase::BuildingTree, 9, 9));
    assert_eq!(p.folder_name, "f");
}

#[test]
fn cancellation_token_is_shared_between_clones() {
    let token = CancellationToken::new();
    let other = token.clone();
    assert!(!other.is_cancelled());
    token.cancel();
    assert!(other.is_cancelled());
}

#[test]
fn disconnected_worker_becomes_a_failed_terminal_event() {
    let mut loader = ProjectLoader::new();
    let generation = loader.start("repo".to_string());
    let (failed_generation, message, preview_delivered) = loader.disconnected();
    assert_eq!(failed_generation, generation);
    assert!(message.contains("disconnected"));
    assert!(!preview_delivered);
    assert!(!loader.is_loading());
}

#[test]
fn snapshot_mailbox_keeps_only_the_newest_layout() {
    let mut mailbox: SnapshotMailbox<(u64, f64)> = SnapshotMailbox::new();
    mailbox.publish((7, 1.0));
    mailbox.publish((7, 2.0));
    mailbox.publish((7, 3.0));
    let snapshot = mailbox.take().expect("newest snapshot missing");
    assert_eq!(snapshot, (7, 3.0));
    assert!(mailbox.take().is_none());
}

#[test]
fn terminal_event_wins_over_and_clears_an_occupied_snapshot_mailbox() {
    let mut loader = ProjectLoader::new();
    let generation = loader.start("repo".to_string());
    let mut snapshots: SnapshotMailbox<(u64, f64)> = SnapshotMailbox::new();
    snapshots.publish((generation, 2.0));
    let step = loader.receive(ControlEvent { generation, kind: ControlKind::Complete });
    clear_on_terminal(&step, &mut snapshots);
    assert_eq!(step, PollStep::Complete { generation });
    assert!(snapshots.take().is_none());
    assert!(!loader.is_loading());
}

#[test]
fn snapshots_show_only_after_the_preview_and_only_for_the_current_load() {
    let mut loader = ProjectLoader::new();
    let generation = loader.start("repo".to_string());
    let mut snapshots: SnapshotMailbox<(u64, f64)> = SnapshotMailbox::new();
    snapshots.publish((generation, 1.0));
    // before the preview the snapshot waits
    assert!(loader.take_snapshot(&mut snapshots).is_none());
    loader.receive(ControlEvent { generation, kind: ControlKind::Preview });
    assert_eq!(loader.take_snapshot(&mut snapshots), Some((generation, 1.0)));
    // a stale snapshot is dropped
    snapshots.publish((generation + 100, 3.0));
    assert!(loader.take_snapshot(&mut snapshots).is_none());
    assert!(snapshots.take().is_none());
}
