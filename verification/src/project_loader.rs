//! Decisions of the background project loader: generation fencing of
//! worker events, what each accepted event means for the caller, and the
//! progress shown while a load runs. The worker thread, its channels and
//! the project data it produces live with the caller.

use vstd::prelude::*;

use std::sync::atomic::AtomicBool;
use std::sync::atomic::Ordering;
use std::sync::Arc;

verus! {

/// Stage of a running project load.
#[derive(Clone, Copy, Debug, PartialEq, Eq, Structural)]
pub enum LoadPhase {
    Scanning,
    Parsing,
    BuildingTree,
    Packing,
}

/// A snapshot of loader-owned progress.
#[derive(Clone, Debug, PartialEq, Eq)]
pub struct LoadProgress {
    pub folder_name: String,
    pub phase: LoadPhase,
    pub completed: usize,
    pub total: usize,
}

/// Cooperative cancellation flag shared with a worker thread.
#[derive(Clone)]
pub struct CancellationToken(Arc<AtomicBool>);

impl CancellationToken {
    /// A token that has not been cancelled. The flag is a standard atomic
    /// whose value the standard library's specifications leave undescribed,
    /// so nothing is stated of it.
    pub fn new() -> (r: Self) {
        CancellationToken(Arc::new(AtomicBool::new(false)))
    }

    /// Asks every holder of the token to stop.
    pub fn cancel(&self) {
        self.0.store(true, Ordering::Release);
    }

    /// Whether some holder asked to stop. The flag is shared with other
    /// threads, so nothing is stated of the value read.
    pub fn is_cancelled(&self) -> (r: bool) {
        self.0.load(Ordering::Acquire)
    }
}

/// What a worker reported, without its payload.
#[derive(Clone, Copy, Debug, PartialEq, Eq, Structural)]
pub enum ControlKind {
    PackingStarted { total: usize },
    Preview,
    Complete,
    Failed { preview_delivered: bool },
}

/// A worker event: the generation that produced it and its kind.
#[derive(Clone, Copy, Debug, PartialEq, Eq, Structural)]
pub struct ControlEvent {
    pub generation: u64,
    pub kind: ControlKind,
}

impl ControlEvent {
    /// The generation that produced the event.
    pub fn generation(&self) -> (r: u64)
        ensures
            r == self.generation,
    {
        self.generation
    }
}

/// What the caller does with one received worker event.
#[derive(Clone, Debug, PartialEq, Eq)]
pub enum PollStep {
    /// A stale event of a superseded load: drop it and keep receiving.
    Skip,
    /// Packing started: report this progress.
    Loading(LoadProgress),
    /// Hand the event's project preview to the view.
    Preview,
    /// The load finished: hand over the final layout; the loader is idle.
    Complete { generation: u64 },
    /// The load failed; the loader is idle.
    Failed { generation: u64, preview_delivered: bool },
}

/// Bookkeeping of the load in flight.
pub struct LoadingState {
    generation: u64,
    folder_name: String,
    packing_started_delivered: bool,
    preview_delivered: bool,
}

/// Owns the load generation counter and the state of the load in flight;
/// results of superseded generations are rejected.
pub struct ProjectLoader {
    generation: u64,
    loading: Option<LoadingState>,
}

/// Message of a worker that vanished before reporting an outcome.
pub open spec fn disconnect_message() -> Seq<char> {
    "project loading worker disconnected before completion"@
}

impl ProjectLoader {
    /// The current generation.
    pub closed spec fn spec_generation(&self) -> u64 {
        self.generation
    }

    /// Whether a load is in flight.
    pub closed spec fn spec_loading(&self) -> bool {
        self.loading is Some
    }

    /// Generation of the load in flight.
    pub closed spec fn loading_generation(&self) -> u64 {
        self.loading->0.generation
    }

    /// Whether the load in flight has delivered its preview.
    pub closed spec fn spec_preview_delivered(&self) -> bool {
        self.loading->0.preview_delivered
    }

    /// Whether the load in flight has reported the start of packing.
    pub closed spec fn spec_packing_started(&self) -> bool {
        self.loading->0.packing_started_delivered
    }

    /// Folder name of the load in flight.
    pub closed spec fn spec_folder(&self) -> Seq<char> {
        self.loading->0.folder_name@
    }

    /// Well-formedness: the load in flight belongs to the current
    /// generation.
    pub closed spec fn wf(&self) -> bool {
        self.loading matches Some(l) ==> l.generation == self.generation
    }

    /// An idle loader at generation 0.
    pub fn new() -> (r: Self)
        ensures
            r.wf(),
            r.spec_generation() == 0,
            !r.spec_loading(),
    {
        ProjectLoader { generation: 0, loading: None }
    }

    /// Starts a new generation and returns it; every later event of an
    /// older generation is rejected.
    pub fn begin_generation(&mut self) -> (r: u64)
        requires
            old(self).spec_generation() < u64::MAX,
        ensures
            r == old(self).spec_generation() + 1,
            final(self).spec_generation() == r,
            final(self).spec_loading() == old(self).spec_loading(),
    {
        self.generation = self.generation + 1;
        self.generation
    }

    /// Whether results of `generation` are current.
    pub fn accepts(&self, generation: u64) -> (r: bool)
        ensures
            r == (generation == self.spec_generation()),
    {
        generation == self.generation
    }

    /// Whether a load is in flight.
    pub fn is_loading(&self) -> (r: bool)
        ensures
            r == self.spec_loading(),
    {
        self.loading.is_some()
    }

    /// Registers a new load of `folder_name` under a fresh generation,
    /// which it returns; the caller cancels the previous worker, whose
    /// events are from then on rejected.
    pub fn start(&mut self, folder_name: String) -> (r: u64)
        requires
            old(self).spec_generation() < u64::MAX,
        ensures
            final(self).wf(),
            r == old(self).spec_generation() + 1,
            final(self).spec_generation() == r,
            final(self).spec_loading(),
            final(self).loading_generation() == r,
            final(self).spec_folder() == folder_name@,
            !final(self).spec_preview_delivered(),
            !final(self).spec_packing_started(),
    {
        let generation = self.begin_generation();
        self.loading = Some(
            LoadingState {
                generation,
                folder_name,
                packing_started_delivered: false,
                preview_delivered: false,
            },
        );
        generation
    }

    /// Decides what one received worker event means. Events of another
    /// generation are skipped; packing start and preview are reported and
    /// remembered; completion and failure end the load.
    pub fn receive(&mut self, event: ControlEvent) -> (r: PollStep)
        requires
            old(self).wf(),
            old(self).spec_loading(),
        ensures
            final(self).wf(),
            final(self).spec_generation() == old(self).spec_generation(),
            event.generation != old(self).loading_generation() ==> r == PollStep::Skip
                && *final(self) == *old(self),
            event.generation == old(self).loading_generation() ==> match event.kind {
                ControlKind::PackingStarted { total } => {
                    &&& final(self).spec_loading()
                    &&& final(self).spec_packing_started()
                    &&& final(self).spec_preview_delivered() == old(self).spec_preview_delivered()
                    &&& final(self).spec_folder() == old(self).spec_folder()
                    &&& final(self).loading_generation() == old(self).loading_generation()
                    &&& r matches PollStep::Loading(p)
                    &&& p.folder_name@ == old(self).spec_folder()
                    &&& p.phase == LoadPhase::Packing
                    &&& p.completed == 0
                    &&& p.total == total
                },
                ControlKind::Preview => {
                    &&& final(self).spec_loading()
                    &&& final(self).spec_preview_delivered()
                    &&& final(self).spec_packing_started() == old(self).spec_packing_started()
                    &&& final(self).spec_folder() == old(self).spec_folder()
                    &&& final(self).loading_generation() == old(self).loading_generation()
                    &&& r == PollStep::Preview
                },
                ControlKind::Complete => {
                    &&& !final(self).spec_loading()
                    &&& r == (PollStep::Complete { generation: event.generation })
                },
                ControlKind::Failed { preview_delivered } => {
                    &&& !final(self).spec_loading()
                    &&& r == (PollStep::Failed { generation: event.generation, preview_delivered })
                },
            },
    {
        let current = match &self.loading {
            Some(l) => l.generation,
            None => 0,
        };
        if event.generation != current {
            return PollStep::Skip;
        }
        match event.kind {
            ControlKind::PackingStarted { total } => {
                let mut l = self.loading.take().unwrap();
                l.packing_started_delivered = true;
                let folder_name = l.folder_name.clone();
                self.loading = Some(l);
                PollStep::Loading(
                    LoadProgress { folder_name, phase: LoadPhase::Packing, completed: 0, total },
                )
            },
            ControlKind::Preview => {
                let mut l = self.loading.take().unwrap();
                l.preview_delivered = true;
                self.loading = Some(l);
                PollStep::Preview
            },
            ControlKind::Complete => {
                self.loading = None;
                PollStep::Complete { generation: event.generation }
            },
            ControlKind::Failed { preview_delivered } => {
                self.loading = None;
                PollStep::Failed { generation: event.generation, preview_delivered }
            },
        }
    }

    /// The worker's channel closed before it reported an outcome: the load
    /// ends as failed, with its generation, a fixed message and whether
    /// its preview had been delivered.
    pub fn disconnected(&mut self) -> (r: (u64, String, bool))
        requires
            old(self).wf(),
            old(self).spec_loading(),
        ensures
            final(self).wf(),
            !final(self).spec_loading(),
            final(self).spec_generation() == old(self).spec_generation(),
            r.0 == old(self).loading_generation(),
            r.1@ == disconnect_message(),
            r.2 == old(self).spec_preview_delivered(),
    {
        let l = self.loading.take().unwrap();
        (l.generation, "project loading worker disconnected before completion".to_owned(), l.preview_delivered)
    }

    /// Whether a layout snapshot of `generation` is shown: only once the
    /// preview of the load in flight was delivered, and only for its own
    /// generation.
    pub fn accepts_snapshot(&self, generation: u64) -> (r: bool)
        ensures
            r == (self.spec_loading() && self.spec_preview_delivered() && generation
                == self.loading_generation()),
    {
        match &self.loading {
            Some(l) => l.preview_delivered && generation == l.generation,
            None => false,
        }
    }

    /// Progress of the load in flight when no event is pending: packing
    /// counters once packing started, otherwise the indexer's stage.
    pub fn progress(
        &self,
        packing_completed: usize,
        packing_total: usize,
        index_phase: usize,
        files_parsed: usize,
        files_total: usize,
    ) -> (r: Option<LoadProgress>)
        ensures
            !self.spec_loading() ==> r is None,
            self.spec_loading() && self.spec_packing_started() ==> (r matches Some(p)
                && p.folder_name@ == self.spec_folder() && p.phase == LoadPhase::Packing
                && p.completed == packing_completed && p.total == packing_total),
            self.spec_loading() && !self.spec_packing_started() ==> (r matches Some(p) && p
                == index_load_progress_spec(p.folder_name, index_phase, files_parsed, files_total)
                && p.folder_name@ == self.spec_folder()),
    {
        match &self.loading {
            None => None,
            Some(l) => {
                if l.packing_started_delivered {
                    Some(
                        LoadProgress {
                            folder_name: l.folder_name.clone(),
                            phase: LoadPhase::Packing,
                            completed: packing_completed,
                            total: packing_total,
                        },
                    )
                } else {
                    Some(index_load_progress(l.folder_name.as_str(), index_phase, files_parsed, files_total))
                }
            },
        }
    }
}

/// Progress of the indexing stages: phase 0 scans with no counts, phase 1
/// parses with the file counters, later phases build the tree with every
/// file counted.
pub open spec fn index_load_progress_spec(
    folder_name: String,
    phase: usize,
    files_parsed: usize,
    files_total: usize,
) -> LoadProgress {
    if phase == 0 {
        LoadProgress { folder_name, phase: LoadPhase::Scanning, completed: 0, total: 0 }
    } else if phase == 1 {
        LoadProgress {
            folder_name,
            phase: LoadPhase::Parsing,
            completed: files_parsed,
            total: files_total,
        }
    } else {
        LoadProgress {
            folder_name,
            phase: LoadPhase::BuildingTree,
            completed: files_total,
            total: files_total,
        }
    }
}

/// Progress of the indexing stages for the load of `folder_name` (see
/// `index_load_progress_spec`).
pub fn index_load_progress(
    folder_name: &str,
    phase: usize,
    files_parsed: usize,
    files_total: usize,
) -> (r: LoadProgress)
    ensures
        r == index_load_progress_spec(r.folder_name, phase, files_parsed, files_total),
        r.folder_name@ == folder_name@,
{
    let folder_name = folder_name.to_owned();
    if phase == 0 {
        LoadProgress { folder_name, phase: LoadPhase::Scanning, completed: 0, total: 0 }
    } else if phase == 1 {
        LoadProgress {
            folder_name,
            phase: LoadPhase::Parsing,
            completed: files_parsed,
            total: files_total,
        }
    } else {
        LoadProgress {
            folder_name,
            phase: LoadPhase::BuildingTree,
            completed: files_total,
            total: files_total,
        }
    }
}

/// Generation fencing: once a newer load started, no event of an older
/// generation is acted upon, whatever its kind.
pub proof fn lemma_stale_events_are_skipped(before: ProjectLoader, after: ProjectLoader, event: ControlEvent)
    requires
        after.wf(),
        after.spec_loading(),
        after.spec_generation() > before.spec_generation(),
        event.generation <= before.spec_generation(),
    ensures
        event.generation != after.loading_generation(),
{
}


/// The newest layout snapshot a worker published that the view has not
/// taken yet; publishing replaces any snapshot still pending.
pub struct SnapshotMailbox<T> {
    slot: Option<T>,
}

impl<T> SnapshotMailbox<T> {
    /// The snapshot waiting to be taken, if any.
    pub closed spec fn pending(&self) -> Option<T> {
        self.slot
    }

    /// An empty mailbox.
    pub fn new() -> (r: Self)
        ensures
            r.pending() is None,
    {
        SnapshotMailbox { slot: None }
    }

    /// Leaves `snapshot` for the view, replacing a pending one.
    pub fn publish(&mut self, snapshot: T)
        ensures
            final(self).pending() == Some(snapshot),
    {
        self.slot = Some(snapshot);
    }

    /// Takes the pending snapshot, leaving the mailbox empty.
    pub fn take(&mut self) -> (r: Option<T>)
        ensures
            r == old(self).pending(),
            final(self).pending() is None,
    {
        self.slot.take()
    }
}



impl ProjectLoader {
    /// The layout snapshot to show once no event is pending: only after
    /// the preview of the load in flight was delivered is the mailbox
    /// emptied, and its snapshot is shown only when it belongs to the load
    /// in flight (a stale one is dropped).
    pub fn take_snapshot<T>(&self, mailbox: &mut SnapshotMailbox<(u64, T)>) -> (r: Option<(u64, T)>)
        requires
            self.wf(),
        ensures
            !(self.spec_loading() && self.spec_preview_delivered()) ==> r is None && final(mailbox).pending()
                == old(mailbox).pending(),
            self.spec_loading() && self.spec_preview_delivered() ==> final(mailbox).pending() is None && r
                == match old(mailbox).pending() {
                Some(s) => if s.0 == self.loading_generation() {
                    Some(s)
                } else {
                    None
                },
                None => None,
            },
    {
        match &self.loading {
            Some(l) => {
                if !l.preview_delivered {
                    return None;
                }
                match mailbox.take() {
                    Some(s) => if s.0 == l.generation {
                        Some(s)
                    } else {
                        None
                    },
                    None => None,
                }
            },
            None => None,
        }
    }
}

/// A step that ends the load (completion or failure, a vanished worker
/// included) wins over a pending snapshot: the mailbox is emptied. Other
/// steps leave it as it is.
pub fn clear_on_terminal<T>(step: &PollStep, mailbox: &mut SnapshotMailbox<T>)
    ensures
        (step is Complete || step is Failed) ==> final(mailbox).pending() is None,
        !(step is Complete || step is Failed) ==> final(mailbox).pending() == old(mailbox).pending(),
{
    match step {
        PollStep::Complete { .. } | PollStep::Failed { .. } => {
            mailbox.take();
        },
        _ => {},
    }
}

} // verus!
