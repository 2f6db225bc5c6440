//! Bookkeeping of the in-memory texture cache: which node textures are
//! resident and how many bytes they hold, least-recently-used eviction,
//! the bake queue with its screen-area priorities, and the requests that
//! wait on the disk worker. Nodes are named by handles and priorities are
//! order-preserving integers; the textures themselves, the rasterizer and
//! the worker thread stay with the caller.

use vstd::prelude::*;

use crate::keyed::{find_key, lookup, pairs_map, put, take, unique_keys};
use crate::rasterize::{DiskDiagnostic, DiskOperation, DiskState, BAKES_PER_FRAME};

verus! {

/// What the cache knows of one resident texture.
#[derive(Clone, Copy, Debug, PartialEq, Eq, Structural)]
pub struct CachedTexture {
    /// Bytes the texture occupies.
    pub bytes: usize,
    /// Whether it holds a renderable image (not an empty placeholder).
    pub has_image: bool,
    /// Clock value of its last use.
    pub last_used: u64,
}

/// Total bytes of a list of resident textures.
pub open spec fn total_bytes(s: Seq<(u64, CachedTexture)>) -> int
    decreases s.len(),
{
    if s.len() == 0 {
        0
    } else {
        total_bytes(s.drop_last()) + s.last().1.bytes
    }
}

proof fn lemma_total_bytes_remove(s: Seq<(u64, CachedTexture)>, i: int)
    requires
        0 <= i < s.len(),
    ensures
        total_bytes(s.remove(i)) + s[i].1.bytes == total_bytes(s),
    decreases s.len(),
{
    if i == s.len() - 1 {
        assert(s.remove(i) =~= s.drop_last());
    } else {
        lemma_total_bytes_remove(s.drop_last(), i);
        assert(s.remove(i).drop_last() =~= s.drop_last().remove(i));
        assert(s.remove(i).last() == s.last());
    }
}

proof fn lemma_total_bytes_set(s: Seq<(u64, CachedTexture)>, i: int, e: (u64, CachedTexture))
    requires
        0 <= i < s.len(),
    ensures
        total_bytes(s.update(i, e)) + s[i].1.bytes == total_bytes(s) + e.1.bytes,
    decreases s.len(),
{
    if i == s.len() - 1 {
        assert(s.update(i, e).drop_last() =~= s.drop_last());
    } else {
        lemma_total_bytes_set(s.drop_last(), i, e);
        assert(s.update(i, e).drop_last() =~= s.drop_last().update(i, e));
    }
}

proof fn lemma_total_bytes_nonneg(s: Seq<(u64, CachedTexture)>)
    ensures
        total_bytes(s) >= 0,
        s.len() == 0 ==> total_bytes(s) == 0,
    decreases s.len(),
{
    if s.len() > 0 {
        lemma_total_bytes_nonneg(s.drop_last());
    }
}

/// `after` keeps some of the textures of `before`, unchanged, and every
/// texture that left was last used no later than every one that stayed.
pub open spec fn trimmed_lru(before: Map<u64, CachedTexture>, after: Map<u64, CachedTexture>) -> bool {
    &&& after.dom().subset_of(before.dom())
    &&& forall|k: u64| #[trigger] after.dom().contains(k) ==> after[k] == before[k]
    &&& forall|a: u64, b: u64|
        before.dom().contains(a) && !after.dom().contains(a) && after.dom().contains(b)
            ==> (#[trigger] before[a]).last_used <= (#[trigger] after[b]).last_used
}

/// `v` left between `before` and `after`, and every texture that left was
/// used no later than `v` (it was the last one evicted).
pub open spec fn last_evicted(before: Map<u64, CachedTexture>, after: Map<u64, CachedTexture>, v: u64) -> bool {
    &&& before.dom().contains(v)
    &&& !after.dom().contains(v)
    &&& forall|a: u64|
        before.dom().contains(a) && !after.dom().contains(a) ==> (#[trigger] before[a]).last_used
            <= before[v].last_used
}

/// Eviction stopped as soon as it could: nothing left, or putting the last
/// evicted texture back (on top of the `after_bytes` kept) would exceed the
/// allowance `max` again.
pub open spec fn trimmed_only_while_over(
    before: Map<u64, CachedTexture>,
    after: Map<u64, CachedTexture>,
    after_bytes: int,
    max: int,
) -> bool {
    ||| after == before
    ||| exists|v: u64| #[trigger] last_evicted(before, after, v) && after_bytes + before[v].bytes > max
}

/// What an insertion dropped: whether an older texture of the same node
/// was replaced, and the nodes evicted to stay within the allowance
/// (possibly including the inserted one).
pub struct InsertOutcome {
    pub replaced: bool,
    pub evicted: Vec<u64>,
}

/// How starting the disk worker went.
#[derive(Clone, Debug, PartialEq, Eq)]
pub enum DiskStart {
    /// The worker runs and is opening the store.
    Started,
    /// An older worker still holds the slot; try again later.
    Deferred,
    /// A newer cache took the slot.
    Superseded,
    /// The worker could not be started, or the project namespace could not
    /// be prepared.
    Failed(String),
}

/// A result reported by the disk worker, its payload already turned into
/// a texture by the caller.
#[derive(Clone, Debug, PartialEq, Eq)]
pub enum DiskEvent {
    OpenComplete,
    /// A texture was read; `texture` is its size and whether it holds an
    /// image, or `None` when its pixels could not be turned into one.
    Loaded { id: u64, texture: Option<(usize, bool)> },
    Miss { id: u64 },
    SaveComplete,
    ClearComplete,
    Diagnostic(DiskDiagnostic),
}

/// What to do about a requested clear of the disk cache.
#[derive(Clone, Copy, Debug, PartialEq, Eq, Structural)]
pub enum ClearStep {
    /// No clear is requested, or it waits for the worker to start.
    Nothing,
    /// Send the clear command to the worker.
    Send,
}

/// The outcome of handing a command to the worker's queue.
#[derive(Clone, Copy, Debug, PartialEq, Eq, Structural)]
pub enum SendOutcome {
    Sent,
    Full,
    Disconnected,
}

/// Message of the diagnostic shown when a newer project took the worker.
pub open spec fn superseded_msg() -> Seq<char> {
    "texture cache superseded by a newer project"@
}

/// Message of the diagnostic shown when the worker went away.
pub open spec fn disconnected_msg() -> Seq<char> {
    "texture cache worker disconnected"@
}

/// Message of the diagnostic shown when there is no worker to clear with.
pub open spec fn unavailable_msg() -> Seq<char> {
    "texture cache unavailable"@
}

/// Message of the diagnostic shown when the previous worker never retired.
pub open spec fn start_timeout_msg() -> Seq<char> {
    "timed out waiting for the previous texture cache worker to retire"@
}

/// How a lookup was answered.
#[derive(Clone, Copy, Debug, PartialEq, Eq, Structural)]
pub enum Lookup {
    /// Resident; `has_image` tells whether it can be drawn.
    Hit { has_image: bool },
    /// Not resident; a disk load is pending for it.
    WaitingDisk,
    /// Not resident; queued for baking.
    Queued,
}

/// Bookkeeping of the texture cache of one project.
pub struct TextureCache {
    entries: Vec<(u64, CachedTexture)>,
    clock: u64,
    bytes: usize,
    max_bytes: usize,
    queue: Vec<(u64, u64)>,
    refreshed: Vec<(u64, bool)>,
    waiting_disk: Vec<(u64, u64)>,
    disk_inflight: Vec<(u64, bool)>,
    disk_worker: bool,
    pending_disk_start: bool,
    disk_worker_starting: bool,
    clear_disk_pending: bool,
    clear_disk_inflight: usize,
    pending_disk_saves: usize,
    disk_diagnostics: Vec<DiskDiagnostic>,
    disk_superseded_reported: bool,
}

/// `a` if it is larger, else `b`.
pub open spec fn max_u64(a: u64, b: u64) -> u64 {
    if a > b { a } else { b }
}

/// The map after raising the priority of `k` to at least `p` (inserting
/// it with `p` when absent).
pub open spec fn raise(m: Map<u64, u64>, k: u64, p: u64) -> Map<u64, u64> {
    if m.dom().contains(k) { m.insert(k, max_u64(m[k], p)) } else { m.insert(k, p) }
}

/// The priority a request waits on the disk with (0 when it does not).
pub open spec fn waiting_priority(w: Map<u64, u64>, id: u64) -> u64 {
    if w.dom().contains(id) {
        w[id]
    } else {
        0
    }
}

/// The bake queue `q` after the disk waits `w` go back to it: each waiting
/// request that is not resident (not in `res`) is raised into the queue
/// with its waiting priority; other queued requests keep theirs.
pub open spec fn requeued(q: Map<u64, u64>, w: Map<u64, u64>, res: Set<u64>) -> Map<u64, u64> {
    Map::new(
        |k: u64| q.dom().contains(k) || (w.dom().contains(k) && !res.contains(k)),
        |k: u64|
            if w.dom().contains(k) && !res.contains(k) {
                if q.dom().contains(k) {
                    max_u64(q[k], w[k])
                } else {
                    w[k]
                }
            } else {
                q[k]
            },
    )
}

impl TextureCache {
    /// Resident textures by handle.
    pub closed spec fn resident(&self) -> Map<u64, CachedTexture> {
        pairs_map(self.entries@)
    }

    /// Bake queue: handle to priority.
    pub closed spec fn queued(&self) -> Map<u64, u64> {
        pairs_map(self.queue@)
    }

    /// Requests waiting for a disk load: handle to priority.
    pub closed spec fn waiting(&self) -> Map<u64, u64> {
        pairs_map(self.waiting_disk@)
    }

    /// Handles already refreshed once from live text.
    pub closed spec fn refreshed_ids(&self) -> Set<u64> {
        pairs_map(self.refreshed@).dom()
    }

    /// Handles whose disk load is in flight.
    pub closed spec fn inflight(&self) -> Set<u64> {
        pairs_map(self.disk_inflight@).dom()
    }

    /// Bytes held by resident textures.
    pub closed spec fn spec_bytes(&self) -> int {
        self.bytes as int
    }

    /// The memory allowance.
    pub closed spec fn spec_max(&self) -> int {
        self.max_bytes as int
    }

    /// The use clock.
    pub closed spec fn spec_clock(&self) -> u64 {
        self.clock
    }

    /// Whether a disk worker is attached.
    pub closed spec fn has_worker(&self) -> bool {
        self.disk_worker
    }

    /// Disk bookkeeping: worker attached, start pending, worker opening,
    /// clear requested, clears in flight, saves in flight.
    pub closed spec fn disk_flags(&self) -> (bool, bool, bool, bool, usize, usize) {
        (
            self.disk_worker,
            self.pending_disk_start,
            self.disk_worker_starting,
            self.clear_disk_pending,
            self.clear_disk_inflight,
            self.pending_disk_saves,
        )
    }

    /// Diagnostics not yet drained.
    pub closed spec fn diagnostics(&self) -> Seq<DiskDiagnostic> {
        self.disk_diagnostics@
    }

    /// Whether the superseded diagnostic was already reported.
    pub closed spec fn superseded_reported(&self) -> bool {
        self.disk_superseded_reported
    }

    /// Well-formedness: no handle twice in any table, and the byte count
    /// is the sum over resident textures and within the allowance.
    pub closed spec fn wf(&self) -> bool {
        &&& unique_keys(self.entries@)
        &&& unique_keys(self.queue@)
        &&& unique_keys(self.refreshed@)
        &&& unique_keys(self.waiting_disk@)
        &&& unique_keys(self.disk_inflight@)
        &&& self.bytes as int == total_bytes(self.entries@)
        &&& self.bytes <= self.max_bytes
        &&& forall|i: int| 0 <= i < self.entries@.len() ==> (#[trigger] self.entries@[i]).1.last_used
            <= self.clock
    }

    /// An empty memory-only cache with `max_bytes` of allowance.
    pub fn new_memory_only(max_bytes: usize) -> (r: Self)
        ensures
            r.wf(),
            r.resident() == Map::<u64, CachedTexture>::empty(),
            r.queued() == Map::<u64, u64>::empty(),
            r.waiting() == Map::<u64, u64>::empty(),
            r.refreshed_ids() == Set::<u64>::empty(),
            r.inflight() == Set::<u64>::empty(),
            r.spec_bytes() == 0,
            r.spec_max() == max_bytes,
            r.spec_clock() == 0,
            r.disk_flags() == (false, false, false, false, 0usize, 0usize),
            r.diagnostics().len() == 0,
            !r.superseded_reported(),
    {
        let r = TextureCache {
            entries: Vec::new(),
            clock: 0,
            bytes: 0,
            max_bytes,
            queue: Vec::new(),
            refreshed: Vec::new(),
            waiting_disk: Vec::new(),
            disk_inflight: Vec::new(),
            disk_worker: false,
            pending_disk_start: false,
            disk_worker_starting: false,
            clear_disk_pending: false,
            clear_disk_inflight: 0,
            pending_disk_saves: 0,
            disk_diagnostics: Vec::new(),
            disk_superseded_reported: false,
        };
        assert(r.resident() =~= Map::<u64, CachedTexture>::empty());
        assert(r.queued() =~= Map::<u64, u64>::empty());
        assert(r.waiting() =~= Map::<u64, u64>::empty());
        assert(r.refreshed_ids() =~= Set::<u64>::empty());
        assert(r.inflight() =~= Set::<u64>::empty());
        r
    }

    /// Bytes held by resident textures.
    pub fn used_bytes(&self) -> (r: usize)
        ensures
            r == self.spec_bytes(),
    {
        self.bytes
    }

    /// Whether `id` is resident.
    pub fn contains(&self, id: u64) -> (r: bool)
        requires
            self.wf(),
        ensures
            r == self.resident().dom().contains(id),
    {
        find_key(&self.entries, id).is_some()
    }

    /// Whether `id` is resident with a renderable image.
    pub fn has_image(&self, id: u64) -> (r: bool)
        requires
            self.wf(),
        ensures
            r == (self.resident().dom().contains(id) && self.resident()[id].has_image),
    {
        match lookup(&self.entries, id) {
            Some(e) => e.has_image,
            None => false,
        }
    }

    /// Starts a visibility pass: queued and waiting requests keep their
    /// place but their priorities drop to zero.
    pub fn begin_visibility_frame(&mut self)
        requires
            old(self).wf(),
        ensures
            final(self).wf(),
            final(self).resident() == old(self).resident(),
            final(self).queued().dom() == old(self).queued().dom(),
            forall|k: u64| #[trigger] final(self).queued().dom().contains(k) ==> final(self).queued()[k] == 0,
            final(self).waiting().dom() == old(self).waiting().dom(),
            forall|k: u64| #[trigger] final(self).waiting().dom().contains(k) ==> final(self).waiting()[k] == 0,
            final(self).refreshed_ids() == old(self).refreshed_ids(),
            final(self).inflight() == old(self).inflight(),
            final(self).spec_bytes() == old(self).spec_bytes(),
            final(self).spec_max() == old(self).spec_max(),
            final(self).spec_clock() == old(self).spec_clock(),
            final(self).disk_flags() == old(self).disk_flags(),
            final(self).diagnostics() == old(self).diagnostics(),
            final(self).superseded_reported() == old(self).superseded_reported(),
    {
        zero_priorities(&mut self.queue);
        zero_priorities(&mut self.waiting_disk);
    }

    /// Queues a bake of `id`, keeping the larger of its priorities; a
    /// resident texture is left alone, and a request already waiting on the
    /// disk only has its priority raised there.
    pub fn request(&mut self, id: u64, priority: u64)
        requires
            old(self).wf(),
        ensures
            final(self).wf(),
            old(self).resident().dom().contains(id) ==> final(self).queued() == old(self).queued()
                && final(self).waiting() == old(self).waiting(),
            !old(self).resident().dom().contains(id) && old(self).waiting().dom().contains(id)
                ==> final(self).waiting() == raise(old(self).waiting(), id, priority)
                && final(self).queued() == old(self).queued(),
            !old(self).resident().dom().contains(id) && !old(self).waiting().dom().contains(id)
                ==> final(self).queued() == raise(old(self).queued(), id, priority)
                && final(self).waiting() == old(self).waiting(),
            final(self).resident() == old(self).resident(),
            final(self).refreshed_ids() == old(self).refreshed_ids(),
            final(self).inflight() == old(self).inflight(),
            final(self).spec_bytes() == old(self).spec_bytes(),
            final(self).spec_max() == old(self).spec_max(),
            final(self).spec_clock() == old(self).spec_clock(),
            final(self).disk_flags() == old(self).disk_flags(),
            final(self).diagnostics() == old(self).diagnostics(),
            final(self).superseded_reported() == old(self).superseded_reported(),
    {
        if find_key(&self.entries, id).is_some() {
            return;
        }
        match lookup(&self.waiting_disk, id) {
            Some(p) => {
                put(&mut self.waiting_disk, id, if p > priority { p } else { priority });
            },
            None => {
                let p = match lookup(&self.queue, id) {
                    Some(q) => if q > priority { q } else { priority },
                    None => priority,
                };
                put(&mut self.queue, id, p);
            },
        }
    }

    /// Looks `id` up: a resident texture is marked used and reported; when
    /// a disk load can serve it (`disk_ok`: the cache is current and `id`
    /// has a disk key) and a worker is attached it waits for the disk with
    /// the larger priority; otherwise a bake is requested.
    pub fn get(&mut self, id: u64, priority: u64, disk_ok: bool) -> (r: Lookup)
        requires
            old(self).wf(),
            old(self).spec_clock() < u64::MAX,
        ensures
            final(self).wf(),
            final(self).spec_clock() == old(self).spec_clock() + 1,
            final(self).spec_bytes() == old(self).spec_bytes(),
            final(self).spec_max() == old(self).spec_max(),
            final(self).refreshed_ids() == old(self).refreshed_ids(),
            final(self).inflight() == old(self).inflight(),
            final(self).disk_flags() == old(self).disk_flags(),
            final(self).diagnostics() == old(self).diagnostics(),
            final(self).superseded_reported() == old(self).superseded_reported(),
            old(self).resident().dom().contains(id) ==> {
                &&& r == (Lookup::Hit { has_image: old(self).resident()[id].has_image })
                &&& final(self).resident() == old(self).resident().insert(
                    id,
                    CachedTexture { last_used: final(self).spec_clock(), ..old(self).resident()[id] },
                )
                &&& final(self).queued() == old(self).queued()
                &&& final(self).waiting() == old(self).waiting()
                &&& forall|k: u64| #[trigger] final(self).resident().dom().contains(k) && k != id ==> final(self).resident()[k].last_used
                    < final(self).resident()[id].last_used
            },
            !old(self).resident().dom().contains(id) && disk_ok && old(self).has_worker() ==> {
                &&& r == Lookup::WaitingDisk
                &&& final(self).resident() == old(self).resident()
                &&& final(self).waiting() == raise(old(self).waiting(), id, priority)
                &&& final(self).queued() == old(self).queued()
            },
            !old(self).resident().dom().contains(id) && !(disk_ok && old(self).has_worker()) ==> {
                &&& r == Lookup::Queued
                &&& final(self).resident() == old(self).resident()
                &&& old(self).waiting().dom().contains(id) ==> final(self).waiting() == raise(
                    old(self).waiting(),
                    id,
                    priority,
                ) && final(self).queued() == old(self).queued()
                &&& !old(self).waiting().dom().contains(id) ==> final(self).queued() == raise(
                    old(self).queued(),
                    id,
                    priority,
                ) && final(self).waiting() == old(self).waiting()
            },
    {
        self.clock = self.clock + 1;
        match find_key(&self.entries, id) {
            Some(i) => {
                let (k, e) = self.entries[i];
                let updated = CachedTexture { last_used: self.clock, ..e };
                proof {
                    crate::keyed::lemma_pairs_map_at(self.entries@, i as int);
                    crate::keyed::lemma_pairs_map_update(self.entries@, i as int, updated);
                    lemma_total_bytes_set(self.entries@, i as int, (k, updated));
                }
                let ghost pre = self.entries@;
                self.entries.set(i, (k, updated));
                proof {
                    assert forall|x: u64| #[trigger] self.resident().dom().contains(x) && x != id implies self.resident()[x].last_used
                        < self.resident()[id].last_used by {
                        crate::keyed::lemma_pairs_map_dom(pre, x);
                        let j = choose|j: int| 0 <= j < pre.len() && pre[j].0 == x;
                        crate::keyed::lemma_pairs_map_at(pre, j);
                        assert(pre[j].1.last_used <= self.clock - 1);
                    }
                }
                return Lookup::Hit { has_image: e.has_image };
            },
            None => {},
        }
        if disk_ok && self.disk_worker {
            let p = match lookup(&self.waiting_disk, id) {
                Some(q) => if q > priority { q } else { priority },
                None => priority,
            };
            put(&mut self.waiting_disk, id, p);
            return Lookup::WaitingDisk;
        }
        self.request(id, priority);
        Lookup::Queued
    }

    /// Queues one rebake of `id` the first time live text shows its source
    /// is available (returning `true`); later calls only raise the priority
    /// of a bake still queued.
    pub fn refresh_from_live_text(&mut self, id: u64, priority: u64) -> (r: bool)
        requires
            old(self).wf(),
        ensures
            final(self).wf(),
            r == !old(self).refreshed_ids().contains(id),
            final(self).refreshed_ids() == old(self).refreshed_ids().insert(id),
            r ==> final(self).queued() == raise(old(self).queued(), id, priority),
            !r && old(self).queued().dom().contains(id) ==> final(self).queued() == raise(
                old(self).queued(),
                id,
                priority,
            ),
            !r && !old(self).queued().dom().contains(id) ==> final(self).queued() == old(
                self,
            ).queued(),
            final(self).resident() == old(self).resident(),
            final(self).waiting() == old(self).waiting(),
            final(self).inflight() == old(self).inflight(),
            final(self).spec_bytes() == old(self).spec_bytes(),
            final(self).spec_max() == old(self).spec_max(),
            final(self).spec_clock() == old(self).spec_clock(),
            final(self).disk_flags() == old(self).disk_flags(),
            final(self).diagnostics() == old(self).diagnostics(),
            final(self).superseded_reported() == old(self).superseded_reported(),
    {
        let fresh = find_key(&self.refreshed, id).is_none();
        if fresh {
            put(&mut self.refreshed, id, true);
            let p = match lookup(&self.queue, id) {
                Some(q) => if q > priority { q } else { priority },
                None => priority,
            };
            put(&mut self.queue, id, p);
            assert(self.refreshed_ids() =~= old(self).refreshed_ids().insert(id));
            true
        } else {
            match lookup(&self.queue, id) {
                Some(q) => {
                    put(&mut self.queue, id, if q > priority { q } else { priority });
                },
                None => {},
            }
            assert(old(self).refreshed_ids().insert(id) =~= old(self).refreshed_ids());
            false
        }
    }

    fn lru_index(&self) -> (r: usize)
        requires
            self.entries@.len() > 0,
        ensures
            r < self.entries@.len(),
            forall|j: int| 0 <= j < self.entries@.len() ==> self.entries@[r as int].1.last_used
                <= (#[trigger] self.entries@[j]).1.last_used,
    {
        let mut best: usize = 0;
        let mut i: usize = 1;
        while i < self.entries.len()
            invariant
                1 <= i <= self.entries@.len(),
                best < i,
                forall|j: int| 0 <= j < i ==> self.entries@[best as int].1.last_used
                    <= (#[trigger] self.entries@[j]).1.last_used,
            decreases self.entries.len() - i,
        {
            if self.entries[i].1.last_used < self.entries[best].1.last_used {
                best = i;
            }
            i += 1;
        }
        best
    }

    /// Evicts least recently used textures until the bytes fit the
    /// allowance, appending their nodes to `evicted`.
    fn evict(&mut self, evicted: &mut Vec<u64>)
        requires
            unique_keys(old(self).entries@),
            old(self).bytes as int == total_bytes(old(self).entries@),
            forall|i: int| 0 <= i < old(self).entries@.len() ==> (#[trigger] old(self).entries@[i]).1.last_used
                <= old(self).clock,
        ensures
            unique_keys(final(self).entries@),
            final(self).bytes as int == total_bytes(final(self).entries@),
            final(self).bytes <= final(self).max_bytes,
            forall|i: int| 0 <= i < final(self).entries@.len() ==> (#[trigger] final(self).entries@[i]).1.last_used
                <= final(self).clock,
            trimmed_lru(old(self).resident(), final(self).resident()),
            trimmed_only_while_over(old(self).resident(), final(self).resident(), final(self).bytes as int, final(self).max_bytes as int),
            old(self).bytes <= old(self).max_bytes ==> final(self).entries == old(self).entries && final(evicted)@ == old(evicted)@,
            final(evicted)@.subrange(0, old(evicted)@.len() as int) == old(evicted)@,
            final(evicted)@.len() == old(evicted)@.len() ==> final(self).bytes == old(self).bytes,
            forall|k: u64|
                (exists|j: int| old(evicted)@.len() <= j < final(evicted)@.len() && final(evicted)@[j] == k)
                    <==> (old(self).resident().dom().contains(k) && !final(self).resident().dom().contains(k)),
            final(self).clock == old(self).clock,
            final(self).max_bytes == old(self).max_bytes,
            final(self).queue == old(self).queue,
            final(self).refreshed == old(self).refreshed,
            final(self).waiting_disk == old(self).waiting_disk,
            final(self).disk_inflight == old(self).disk_inflight,
            final(self).disk_worker == old(self).disk_worker,
            final(self).pending_disk_start == old(self).pending_disk_start,
            final(self).disk_worker_starting == old(self).disk_worker_starting,
            final(self).clear_disk_pending == old(self).clear_disk_pending,
            final(self).clear_disk_inflight == old(self).clear_disk_inflight,
            final(self).pending_disk_saves == old(self).pending_disk_saves,
            final(self).disk_diagnostics == old(self).disk_diagnostics,
            final(self).disk_superseded_reported == old(self).disk_superseded_reported,
    {
        let ghost start_map = self.resident();
        let ghost start_ev = evicted@;
        while self.bytes > self.max_bytes
            invariant
                unique_keys(self.entries@),
                self.bytes as int == total_bytes(self.entries@),
                forall|i: int| 0 <= i < self.entries@.len() ==> (#[trigger] self.entries@[i]).1.last_used
                    <= self.clock,
                trimmed_lru(start_map, self.resident()),
                trimmed_only_while_over(start_map, self.resident(), self.bytes as int, self.max_bytes as int),
                old(self).bytes <= old(self).max_bytes ==> self.entries == old(self).entries && evicted@ == start_ev,
                start_map == old(self).resident(),
                start_ev == old(evicted)@,
                evicted@.subrange(0, start_ev.len() as int) == start_ev,
                evicted@.len() >= start_ev.len(),
                evicted@.len() == start_ev.len() ==> self.bytes == old(self).bytes,
                forall|k: u64|
                    (exists|j: int| start_ev.len() <= j < evicted@.len() && evicted@[j] == k)
                        <==> (start_map.dom().contains(k) && !self.resident().dom().contains(k)),
                self.clock == old(self).clock,
                self.max_bytes == old(self).max_bytes,
                self.queue == old(self).queue,
                self.refreshed == old(self).refreshed,
                self.waiting_disk == old(self).waiting_disk,
                self.disk_inflight == old(self).disk_inflight,
                self.disk_worker == old(self).disk_worker,
                self.pending_disk_start == old(self).pending_disk_start,
                self.disk_worker_starting == old(self).disk_worker_starting,
                self.clear_disk_pending == old(self).clear_disk_pending,
                self.clear_disk_inflight == old(self).clear_disk_inflight,
                self.pending_disk_saves == old(self).pending_disk_saves,
                self.disk_diagnostics == old(self).disk_diagnostics,
                self.disk_superseded_reported == old(self).disk_superseded_reported,
            decreases self.entries@.len(),
        {
            proof {
                lemma_total_bytes_nonneg(self.entries@);
            }
            let i = self.lru_index();
            let (k, e) = self.entries[i];
            let ghost pre = self.entries@;
            let ghost pre_map = self.resident();
            proof {
                crate::keyed::lemma_pairs_map_at(pre, i as int);
                crate::keyed::lemma_pairs_map_remove(pre, i as int);
                lemma_total_bytes_remove(pre, i as int);
                lemma_total_bytes_nonneg(pre.remove(i as int));
            }
            self.entries.remove(i);
            self.bytes = self.bytes - e.bytes;
            let ghost ev0 = evicted@;
            evicted.push(k);
            proof {
                assert(self.resident() == pre_map.remove(k));
                assert(pre_map[k] == e);
                assert(start_map.dom().contains(k) && start_map[k] == pre_map[k]);
                assert forall|a: u64| start_map.dom().contains(a) && !self.resident().dom().contains(a)
                    implies (#[trigger] start_map[a]).last_used <= start_map[k].last_used by {
                    if a != k {
                        assert(!pre_map.dom().contains(a));
                    }
                }
                assert(last_evicted(start_map, self.resident(), k));
                assert(trimmed_only_while_over(start_map, self.resident(), self.bytes as int, self.max_bytes as int));
                assert forall|j: int| 0 <= j < self.entries@.len() implies (#[trigger] self.entries@[j]).1.last_used
                    <= self.clock by {
                    let j2 = if j < i { j } else { j + 1 };
                    assert(self.entries@[j] == pre[j2]);
                }
                assert forall|a: u64, b: u64|
                    start_map.dom().contains(a) && !self.resident().dom().contains(a)
                        && self.resident().dom().contains(b) implies (#[trigger] start_map[a]).last_used
                    <= (#[trigger] self.resident()[b]).last_used by {
                    crate::keyed::lemma_pairs_map_dom(pre, b);
                    let jb = choose|jb: int| 0 <= jb < pre.len() && pre[jb].0 == b;
                    crate::keyed::lemma_pairs_map_at(pre, jb);
                    if a != k {
                        assert(!pre_map.dom().contains(a));
                        assert(start_map[a].last_used <= pre_map[k].last_used);
                    }
                }
                assert(evicted@.subrange(0, start_ev.len() as int) =~= ev0.subrange(0, start_ev.len() as int));
                assert forall|x: u64|
                    (exists|j: int| start_ev.len() <= j < evicted@.len() && evicted@[j] == x)
                        <==> (start_map.dom().contains(x) && !self.resident().dom().contains(x)) by {
                    if x == k {
                        assert(evicted@[evicted@.len() - 1] == k);
                    } else {
                        if exists|j: int| start_ev.len() <= j < evicted@.len() && evicted@[j] == x {
                            let j = choose|j: int| start_ev.len() <= j < evicted@.len() && evicted@[j] == x;
                            assert(ev0[j] == x);
                        }
                        if start_map.dom().contains(x) && !self.resident().dom().contains(x) {
                            assert(!pre_map.dom().contains(x));
                            let j = choose|j: int| start_ev.len() <= j < ev0.len() && ev0[j] == x;
                            assert(evicted@[j] == x);
                        }
                    }
                }
            }
        }
    }

    /// Stores the texture of `id` (`bytes` large, with or without an
    /// image) as its most recent use, replacing an older texture of `id`,
    /// then evicts least recently used textures until the bytes fit the
    /// allowance, and no more: nothing is evicted when the total fits, and
    /// the new texture stays unless it alone exceeds the allowance.
    pub fn insert_entry(&mut self, id: u64, bytes: usize, has_image: bool) -> (r: InsertOutcome)
        requires
            old(self).wf(),
            old(self).spec_clock() < u64::MAX,
            old(self).spec_bytes() + bytes <= usize::MAX,
        ensures
            final(self).wf(),
            final(self).spec_clock() == old(self).spec_clock() + 1,
            r.replaced == old(self).resident().dom().contains(id),
            trimmed_lru(
                old(self).resident().insert(
                    id,
                    CachedTexture { bytes, has_image, last_used: final(self).spec_clock() },
                ),
                final(self).resident(),
            ),
            forall|k: u64| r.evicted@.contains(k) <==> (k == id || old(self).resident().dom().contains(k))
                && !final(self).resident().dom().contains(k),
            final(self).spec_bytes() <= final(self).spec_max(),
            r.evicted@.len() == 0 ==> final(self).spec_bytes() == old(self).spec_bytes() - (if r.replaced {
                old(self).resident()[id].bytes as int
            } else {
                0
            }) + bytes,
            trimmed_only_while_over(
                old(self).resident().insert(
                    id,
                    CachedTexture { bytes, has_image, last_used: final(self).spec_clock() },
                ),
                final(self).resident(),
                final(self).spec_bytes(),
                final(self).spec_max(),
            ),
            old(self).spec_bytes() - (if old(self).resident().dom().contains(id) {
                old(self).resident()[id].bytes as int
            } else {
                0
            }) + bytes <= old(self).spec_max() ==> r.evicted@.len() == 0 && final(self).resident()
                == old(self).resident().insert(
                id,
                CachedTexture { bytes, has_image, last_used: final(self).spec_clock() },
            ),
            bytes <= old(self).spec_max() ==> final(self).resident().dom().contains(id),
            final(self).queued() == old(self).queued(),
            final(self).waiting() == old(self).waiting(),
            final(self).refreshed_ids() == old(self).refreshed_ids(),
            final(self).inflight() == old(self).inflight(),
            final(self).spec_max() == old(self).spec_max(),
            final(self).disk_flags() == old(self).disk_flags(),
            final(self).diagnostics() == old(self).diagnostics(),
            final(self).superseded_reported() == old(self).superseded_reported(),
    {
        let ghost old_map = self.resident();
        let mut replaced = false;
        match find_key(&self.entries, id) {
            Some(i) => {
                let ghost pre = self.entries@;
                proof {
                    crate::keyed::lemma_pairs_map_at(pre, i as int);
                    crate::keyed::lemma_pairs_map_remove(pre, i as int);
                    lemma_total_bytes_remove(pre, i as int);
                    lemma_total_bytes_nonneg(pre.remove(i as int));
                }
                let e = self.entries[i].1;
                self.entries.remove(i);
                self.bytes = self.bytes - e.bytes;
                replaced = true;
                assert forall|j: int| 0 <= j < self.entries@.len() implies (#[trigger] self.entries@[j]).1.last_used
                    <= self.clock by {
                    let j2 = if j < i { j } else { j + 1 };
                    assert(self.entries@[j] == pre[j2]);
                }
            },
            None => {
                assert(old_map.remove(id) =~= old_map);
            },
        }
        self.clock = self.clock + 1;
        let entry = CachedTexture { bytes, has_image, last_used: self.clock };
        let ghost pre2 = self.entries@;
        proof {
            crate::keyed::lemma_pairs_map_push(pre2, id, entry);
        }
        self.entries.push((id, entry));
        assert(self.entries@.drop_last() =~= pre2);
        self.bytes = self.bytes + bytes;
        assert forall|j: int| 0 <= j < self.entries@.len() implies (#[trigger] self.entries@[j]).1.last_used
            <= self.clock by {
            if j < pre2.len() {
                assert(self.entries@[j] == pre2[j]);
            }
        }
        assert(self.resident() =~= old_map.insert(id, entry));
        let mut evicted: Vec<u64> = Vec::new();
        let ghost before_evict = self.resident();
        let ghost pre_evict = self.entries@;
        self.evict(&mut evicted);
        proof {
            if bytes <= self.max_bytes && !self.resident().dom().contains(id) {
                assert(self.resident() != before_evict);
                let v = choose|v: u64| #[trigger] last_evicted(before_evict, self.resident(), v)
                    && self.bytes as int + before_evict[v].bytes > self.max_bytes as int;
                assert(before_evict.dom().contains(id) && !self.resident().dom().contains(id));
                assert(before_evict[id].last_used <= before_evict[v].last_used);
                assert(before_evict[id].last_used == self.clock);
                if v != id {
                    assert(old_map.dom().contains(v));
                    crate::keyed::lemma_pairs_map_dom(old(self).entries@, v);
                    let j = choose|j: int| 0 <= j < old(self).entries@.len() && old(self).entries@[j].0 == v;
                    crate::keyed::lemma_pairs_map_at(old(self).entries@, j);
                    assert(old_map[v] == old(self).entries@[j].1);
                    assert(false);
                }
                crate::keyed::lemma_pairs_map_len(self.entries@);
                if self.entries@.len() > 0 {
                    let b = self.entries@[0].0;
                    crate::keyed::lemma_pairs_map_at(self.entries@, 0);
                    assert(self.resident().dom().contains(b));
                    assert(self.resident()[b].last_used <= self.clock - 1) by {
                        assert(before_evict.dom().contains(b));
                        assert(b != id);
                        assert(old_map.dom().contains(b));
                        crate::keyed::lemma_pairs_map_dom(old(self).entries@, b);
                        let j = choose|j: int| 0 <= j < old(self).entries@.len() && old(self).entries@[j].0 == b;
                        crate::keyed::lemma_pairs_map_at(old(self).entries@, j);
                    }
                    assert(false);
                }
                assert(self.entries@ =~= Seq::<(u64, CachedTexture)>::empty());
                assert(false);
            }
        }
        assert forall|k: u64| evicted@.contains(k) <==> (k == id || old_map.dom().contains(k))
            && !self.resident().dom().contains(k) by {
            assert(before_evict.dom().contains(k) == (k == id || old_map.dom().contains(k)));
            assert((exists|j: int| 0 <= j < evicted@.len() && evicted@[j] == k) <==> (
            before_evict.dom().contains(k) && !self.resident().dom().contains(k)));
            if evicted@.contains(k) {
                let j = choose|j: int| 0 <= j < evicted@.len() && evicted@[j] == k;
                assert(0 <= j < evicted@.len() && evicted@[j] == k);
            }
            if (k == id || old_map.dom().contains(k)) && !self.resident().dom().contains(k) {
                let j = choose|j: int| 0 <= j < evicted@.len() && evicted@[j] == k;
                assert(evicted@.contains(k));
            }
        }
        InsertOutcome { replaced, evicted }
    }

    /// Drops the texture of `id` so it is rebuilt; returns whether one was
    /// resident.
    pub fn invalidate(&mut self, id: u64) -> (r: bool)
        requires
            old(self).wf(),
        ensures
            final(self).wf(),
            r == old(self).resident().dom().contains(id),
            final(self).resident() == old(self).resident().remove(id),
            final(self).spec_bytes() == old(self).spec_bytes() - if r {
                old(self).resident()[id].bytes as int
            } else {
                0
            },
            final(self).queued() == old(self).queued(),
            final(self).waiting() == old(self).waiting(),
            final(self).refreshed_ids() == old(self).refreshed_ids(),
            final(self).inflight() == old(self).inflight(),
            final(self).spec_max() == old(self).spec_max(),
            final(self).spec_clock() == old(self).spec_clock(),
            final(self).disk_flags() == old(self).disk_flags(),
            final(self).diagnostics() == old(self).diagnostics(),
            final(self).superseded_reported() == old(self).superseded_reported(),
    {
        match find_key(&self.entries, id) {
            Some(i) => {
                let ghost pre = self.entries@;
                proof {
                    crate::keyed::lemma_pairs_map_at(pre, i as int);
                    crate::keyed::lemma_pairs_map_remove(pre, i as int);
                    lemma_total_bytes_remove(pre, i as int);
                    lemma_total_bytes_nonneg(pre.remove(i as int));
                }
                let e = self.entries[i].1;
                self.entries.remove(i);
                self.bytes = self.bytes - e.bytes;
                assert forall|j: int| 0 <= j < self.entries@.len() implies (#[trigger] self.entries@[j]).1.last_used
                    <= self.clock by {
                    let j2 = if j < i { j } else { j + 1 };
                    assert(self.entries@[j] == pre[j2]);
                }
                true
            },
            None => {
                assert(old(self).resident().remove(id) =~= old(self).resident());
                false
            },
        }
    }

    /// The highest-priority queued bakes, at most `BAKES_PER_FRAME`, in
    /// descending priority (see `top_by_priority`).
    pub fn next_request_ids(&self) -> (r: Vec<u64>)
        requires
            self.wf(),
        ensures
            r@.len() == if self.queued().dom().len() < BAKES_PER_FRAME {
                self.queued().dom().len() as int
            } else {
                BAKES_PER_FRAME as int
            },
            r@.no_duplicates(),
            forall|j: int| 0 <= j < r@.len() ==> self.queued().dom().contains(#[trigger] r@[j]),
            forall|i: int, j: int| 0 <= i < j < r@.len() ==> self.queued()[#[trigger] r@[i]] >= self.queued()[#[trigger] r@[j]],
            forall|k: u64, j: int|
                self.queued().dom().contains(k) && !r@.contains(k) && 0 <= j < r@.len() ==> #[trigger] self.queued()[k]
                    <= self.queued()[#[trigger] r@[j]],
    {
        proof {
            crate::keyed::lemma_pairs_map_len(self.queue@);
        }
        top_by_priority(&self.queue, BAKES_PER_FRAME)
    }

    /// Takes this frame's bakes off the queue: up to `BAKES_PER_FRAME`
    /// requests. The first is a highest-priority request; after a leading
    /// pick of some file group, the group's remaining requests with a
    /// positive priority come next, highest first, and only when none is
    /// left does the next highest request overall lead (so visible leaves
    /// of one source file are baked together; see `follows_leader`).
    /// `groups` gives the file group of the handles that have one.
    pub fn take_bake_batch(&mut self, groups: &Vec<(u64, u64)>) -> (r: Vec<u64>)
        requires
            old(self).wf(),
            unique_keys(groups@),
        ensures
            final(self).wf(),
            r@.no_duplicates(),
            forall|j: int| 0 <= j < r@.len() ==> old(self).queued().dom().contains(#[trigger] r@[j]),
            r@.len() == if old(self).queued().dom().len() < BAKES_PER_FRAME {
                old(self).queued().dom().len() as int
            } else {
                BAKES_PER_FRAME as int
            },
            final(self).queued() == without(old(self).queued(), r@),
            r@.len() > 0 ==> leader_pick(old(self).queued(), r@, 0),
            forall|j: int| 0 < j < r@.len() ==> #[trigger] follows_leader(old(self).queued(), pairs_map(groups@), r@, j),
            forall|j: int| 0 <= j < r@.len() ==> leader_pick(old(self).queued(), r@, j) || mate_pick(
                old(self).queued(),
                pairs_map(groups@),
                r@,
                j,
            ),
            final(self).resident() == old(self).resident(),
            final(self).waiting() == old(self).waiting(),
            final(self).refreshed_ids() == old(self).refreshed_ids(),
            final(self).inflight() == old(self).inflight(),
            final(self).spec_bytes() == old(self).spec_bytes(),
            final(self).spec_max() == old(self).spec_max(),
            final(self).spec_clock() == old(self).spec_clock(),
            final(self).disk_flags() == old(self).disk_flags(),
            final(self).diagnostics() == old(self).diagnostics(),
            final(self).superseded_reported() == old(self).superseded_reported(),
    {
        let ghost q0 = self.queued();
        let ghost gm = pairs_map(groups@);
        proof {
            crate::keyed::lemma_pairs_map_len(self.queue@);
        }
        let mut picked: Vec<u64> = Vec::new();
        assert(without(q0, picked@) =~= q0);
        let mut leader_group: Option<u64> = None;
        while picked.len() < BAKES_PER_FRAME && self.queue.len() > 0
            invariant
                self.wf(),
                unique_keys(groups@),
                gm == pairs_map(groups@),
                q0 == old(self).queued(),
                q0.dom().finite(),
                q0.dom().len() == old(self).queue@.len(),
                self.queued() == without(q0, picked@),
                self.queue@.len() + picked@.len() == q0.dom().len(),
                picked@.len() <= BAKES_PER_FRAME,
                picked@.no_duplicates(),
                forall|j: int| 0 <= j < picked@.len() ==> q0.dom().contains(#[trigger] picked@[j]),
                picked@.len() > 0 ==> leader_pick(q0, picked@, 0),
                forall|j: int| 0 <= j < picked@.len() ==> leader_pick(q0, picked@, j) || mate_pick(q0, gm, picked@, j),
                leader_group matches Some(g) ==> exists|i: int| 0 <= i < picked@.len() && gm.dom().contains(#[trigger] picked@[i]) && gm[picked@[i]] == g,
                forall|j: int| 0 < j < picked@.len() ==> #[trigger] follows_leader(q0, gm, picked@, j),
                picked@.len() > 0 ==> 0 <= leader_at(q0, gm, picked@, picked@.len() - 1) < picked@.len(),
                picked@.len() > 0 ==> leader_group == group_of(gm, picked@[leader_at(q0, gm, picked@, picked@.len() - 1)]),
                self.entries == old(self).entries,
                self.clock == old(self).clock,
                self.bytes == old(self).bytes,
                self.max_bytes == old(self).max_bytes,
                self.refreshed == old(self).refreshed,
                self.waiting_disk == old(self).waiting_disk,
                self.disk_inflight == old(self).disk_inflight,
                self.disk_worker == old(self).disk_worker,
                self.pending_disk_start == old(self).pending_disk_start,
                self.disk_worker_starting == old(self).disk_worker_starting,
                self.clear_disk_pending == old(self).clear_disk_pending,
                self.clear_disk_inflight == old(self).clear_disk_inflight,
                self.pending_disk_saves == old(self).pending_disk_saves,
                self.disk_diagnostics == old(self).disk_diagnostics,
                self.disk_superseded_reported == old(self).disk_superseded_reported,
            decreases self.queue@.len(),
        {
            let filter = if picked.len() == 0 { None } else { leader_group };
            let ghost qs = self.queue@;
            let ghost cur = self.queued();
            let ghost pk = picked@;
            let found = best_candidate(&self.queue, groups, filter);
            let (i, is_leader) = match found {
                Some(i) => (i, filter.is_none()),
                None => {
                    match best_candidate(&self.queue, groups, None) {
                        Some(i) => (i, true),
                        None => {
                            proof {
                                assert(batch_candidate(qs[0], gm, None::<u64>));
                            }
                            (0, true)
                        },
                    }
                },
            };
            let (k, p) = self.queue[i];
            proof {
                crate::keyed::lemma_pairs_map_at(qs, i as int);
                crate::keyed::lemma_pairs_map_len(qs);
            }
            take(&mut self.queue, k);
            picked.push(k);
            proof {
                crate::keyed::lemma_pairs_map_len(self.queue@);
                let n = pk.len() as int;
                assert(picked@.take(n) =~= pk);
                assert(picked@[n] == k);
                assert(cur.dom().contains(k));
                assert(q0.dom().contains(k) && !pk.contains(k));
                assert(q0[k] == p);
                assert(self.queued() =~= without(q0, picked@));
                assert forall|a: int, b: int| 0 <= a < picked@.len() && 0 <= b < picked@.len() && a != b implies picked@[a] != picked@[b] by {
                    if a < n && b < n {
                        assert(picked@[a] == pk[a] && picked@[b] == pk[b]);
                    } else if a < n {
                        assert(picked@[a] == pk[a]);
                    } else {
                        assert(picked@[b] == pk[b]);
                    }
                }
                assert forall|j: int| 0 <= j < picked@.len() implies q0.dom().contains(#[trigger] picked@[j]) by {
                    if j < n {
                        assert(picked@[j] == pk[j]);
                    }
                }
                // what is still queued is a pair of `qs`
                assert forall|x: u64| q0.dom().contains(x) && !pk.contains(x) implies exists|j: int| 0 <= j < qs.len() && qs[j].0 == x && qs[j].1 == #[trigger] q0[x] by {
                    assert(cur.dom().contains(x));
                    crate::keyed::lemma_pairs_map_dom(qs, x);
                    let j = choose|j: int| 0 <= j < qs.len() && qs[j].0 == x;
                    crate::keyed::lemma_pairs_map_at(qs, j);
                }
                if is_leader {
                    assert forall|x: u64| #[trigger] q0.dom().contains(x) && !picked@.take(n).contains(x) implies q0[x] <= q0[picked@[n]] by {
                        let j = choose|j: int| 0 <= j < qs.len() && qs[j].0 == x && qs[j].1 == q0[x];
                        assert(batch_candidate(qs[j], gm, None::<u64>));
                    }
                    assert(leader_pick(q0, picked@, n));
                } else {
                    let g = filter->0;
                    assert(batch_candidate(qs[i as int], gm, Some(g)));
                    let wi = choose|wi: int| 0 <= wi < pk.len() && gm.dom().contains(#[trigger] pk[wi]) && gm[pk[wi]] == g;
                    assert(picked@[wi] == pk[wi]);
                    assert forall|x: u64| #[trigger] q0.dom().contains(x) && !picked@.take(n).contains(x) && gm.dom().contains(x)
                        && gm[x] == gm[picked@[n]] && q0[x] > 0 implies q0[x] <= q0[picked@[n]] by {
                        let j = choose|j: int| 0 <= j < qs.len() && qs[j].0 == x && qs[j].1 == q0[x];
                        assert(batch_candidate(qs[j], gm, Some(g)));
                    }
                    assert(mate_pick(q0, gm, picked@, n));
                }
                assert forall|j: int| 0 <= j < picked@.len() implies leader_pick(q0, picked@, j) || mate_pick(q0, gm, picked@, j) by {
                    if j < n {
                        assert(picked@.take(j) =~= pk.take(j));
                        assert(picked@[j] == pk[j]);
                        if leader_pick(q0, pk, j) {
                            assert forall|x: u64| #[trigger] q0.dom().contains(x) && !picked@.take(j).contains(x) implies q0[x] <= q0[picked@[j]] by {
                                assert(q0.dom().contains(x) && !pk.take(j).contains(x));
                            }
                        }
                        if mate_pick(q0, gm, pk, j) {
                            assert forall|x: u64| #[trigger] q0.dom().contains(x) && !picked@.take(j).contains(x) && gm.dom().contains(x)
                                && gm[x] == gm[picked@[j]] && q0[x] > 0 implies q0[x] <= q0[picked@[j]] by {
                                assert(q0.dom().contains(x) && !pk.take(j).contains(x));
                            }
                            let wi = choose|wi: int| 0 <= wi < j && gm.dom().contains(#[trigger] pk[wi]) && gm[pk[wi]] == gm[pk[j]];
                            assert(picked@[wi] == pk[wi]);
                        }
                    }
                }
                if n > 0 {
                    assert(picked@.take(0) =~= pk.take(0));
                    assert(picked@[0] == pk[0]);
                }
                // the grouping rule
                assert forall|j: int| 0 < j < n implies #[trigger] follows_leader(q0, gm, picked@, j) by {
                    lemma_follows_leader_push(q0, gm, pk, k, j);
                }
                if n > 0 {
                    lemma_leader_at_push(q0, gm, pk, k, n - 1);
                    let l = leader_at(q0, gm, pk, n - 1);
                    assert(picked@[l] == pk[l]);
                    assert(picked@.take(n) =~= pk);
                    match filter {
                        Some(g) => {
                            assert(group_of(gm, picked@[l]) == Some(g));
                            if is_leader {
                                if group_remains(q0, gm, picked@, n, g) {
                                    let x = choose|x: u64| #[trigger] q0.dom().contains(x) && !picked@.take(n).contains(x)
                                        && gm.dom().contains(x) && gm[x] == g && q0[x] > 0;
                                    let j = choose|j: int| 0 <= j < qs.len() && qs[j].0 == x && qs[j].1 == q0[x];
                                    assert(batch_candidate(qs[j], gm, Some(g)));
                                    assert(false);
                                }
                                assert(follows_leader(q0, gm, picked@, n));
                                assert(leader_at(q0, gm, picked@, n) == n);
                            } else {
                                assert(batch_candidate(qs[i as int], gm, Some(g)));
                                assert(group_remains(q0, gm, picked@, n, g));
                                assert(group_pick(q0, gm, picked@, n, g));
                                assert(follows_leader(q0, gm, picked@, n));
                                assert(leader_at(q0, gm, picked@, n) == l);
                            }
                        },
                        None => {
                            assert(group_of(gm, picked@[l]) is None);
                            assert(follows_leader(q0, gm, picked@, n));
                            assert(leader_at(q0, gm, picked@, n) == n);
                        },
                    }
                }
            }
            if is_leader {
                leader_group = lookup(groups, k);
                proof {
                    if leader_group is Some {
                        assert(gm.dom().contains(picked@[pk.len() as int]));
                    }
                }
            } else {
                proof {
                    let g = leader_group->0;
                    let wi = choose|wi: int| 0 <= wi < pk.len() && gm.dom().contains(#[trigger] pk[wi]) && gm[pk[wi]] == g;
                    assert(picked@[wi] == pk[wi]);
                }
            }
        }
        picked
    }

    /// A cache for a freshly loaded project whose disk worker start went
    /// as `start` says: a started worker is opening; a deferred start is
    /// retried later; a failure is reported as an open diagnostic.
    pub fn new_prepared(max_bytes: usize, start: DiskStart) -> (r: Self)
        ensures
            r.wf(),
            r.resident() == Map::<u64, CachedTexture>::empty(),
            r.queued() == Map::<u64, u64>::empty(),
            r.waiting() == Map::<u64, u64>::empty(),
            r.spec_bytes() == 0,
            r.spec_max() == max_bytes,
            r.spec_clock() == 0,
            !r.superseded_reported(),
            match start {
                DiskStart::Started => r.disk_flags() == (true, false, true, false, 0usize, 0usize)
                    && r.diagnostics().len() == 0,
                DiskStart::Deferred => r.disk_flags() == (false, true, false, false, 0usize, 0usize)
                    && r.diagnostics().len() == 0,
                DiskStart::Superseded => r.disk_flags() == (false, false, false, false, 0usize, 0usize)
                    && r.diagnostics().len() == 0,
                DiskStart::Failed(m) => r.disk_flags() == (false, false, false, false, 0usize, 0usize)
                    && r.diagnostics() == seq![DiskDiagnostic { operation: DiskOperation::Open, message: m }],
            },
    {
        let mut c = Self::new_memory_only(max_bytes);
        match start {
            DiskStart::Started => {
                c.disk_worker = true;
                c.disk_worker_starting = true;
            },
            DiskStart::Deferred => {
                c.pending_disk_start = true;
            },
            DiskStart::Superseded => {},
            DiskStart::Failed(message) => {
                c.disk_diagnostics.push(DiskDiagnostic { operation: DiskOperation::Open, message });
                assert(c.disk_diagnostics@ =~= seq![DiskDiagnostic { operation: DiskOperation::Open, message }]);
            },
        }
        c
    }

    /// Asks for the disk cache to be cleared at the next opportunity.
    pub fn request_clear_disk_cache(&mut self)
        ensures
            final(self).disk_flags() == (old(self).disk_flags().0, old(self).disk_flags().1, old(self).disk_flags().2, true, old(self).disk_flags().4, old(self).disk_flags().5),
            final(self).wf() == old(self).wf(),
            final(self).resident() == old(self).resident(),
            final(self).queued() == old(self).queued(),
            final(self).waiting() == old(self).waiting(),
            final(self).inflight() == old(self).inflight(),
            final(self).diagnostics() == old(self).diagnostics(),
    {
        self.clear_disk_pending = true;
    }

    /// Hands over the diagnostics collected so far.
    pub fn drain_disk_diagnostics(&mut self) -> (r: Vec<DiskDiagnostic>)
        ensures
            r@ == old(self).diagnostics(),
            final(self).diagnostics().len() == 0,
            final(self).wf() == old(self).wf(),
            final(self).resident() == old(self).resident(),
            final(self).queued() == old(self).queued(),
            final(self).waiting() == old(self).waiting(),
            final(self).inflight() == old(self).inflight(),
            final(self).disk_flags() == old(self).disk_flags(),
    {
        let mut out: Vec<DiskDiagnostic> = Vec::new();
        std::mem::swap(&mut out, &mut self.disk_diagnostics);
        out
    }

    /// State of the disk cache as shown to the user: unavailable once a
    /// newer cache took the worker (`is_newest` false); without a worker,
    /// preparing while a start is pending, else unavailable; with one, what
    /// the worker reports (`worker_state`).
    pub fn disk_state(&self, is_newest: bool, worker_state: DiskState) -> (r: DiskState)
        ensures
            r == if !is_newest {
                DiskState::Unavailable
            } else if !self.disk_flags().0 {
                if self.disk_flags().1 { DiskState::Preparing } else { DiskState::Unavailable }
            } else {
                worker_state
            },
    {
        if !is_newest {
            return DiskState::Unavailable;
        }
        if !self.disk_worker {
            return if self.pending_disk_start { DiskState::Preparing } else { DiskState::Unavailable };
        }
        worker_state
    }

    /// Whether a baked texture may be offered to the disk worker.
    pub fn can_save(&self) -> (r: bool)
        ensures
            r == self.disk_flags().0,
    {
        self.disk_worker
    }

    /// Records that a save was handed to the worker.
    pub fn note_save_sent(&mut self)
        ensures
            final(self).disk_flags() == (old(self).disk_flags().0, old(self).disk_flags().1, old(self).disk_flags().2, old(self).disk_flags().3, old(self).disk_flags().4, old(self).disk_flags().5.saturating_add(1)),
            final(self).wf() == old(self).wf(),
            final(self).resident() == old(self).resident(),
            final(self).queued() == old(self).queued(),
            final(self).waiting() == old(self).waiting(),
            final(self).inflight() == old(self).inflight(),
            final(self).diagnostics() == old(self).diagnostics(),
    {
        self.pending_disk_saves = self.pending_disk_saves.saturating_add(1);
    }

    /// Moves every request waiting on the disk back to the bake queue
    /// (keeping the larger priority) and forgets the loads in flight.
    fn requeue_waiting(&mut self)
        requires
            old(self).wf(),
        ensures
            final(self).wf(),
            final(self).waiting() == Map::<u64, u64>::empty(),
            final(self).inflight() == Set::<u64>::empty(),
            final(self).resident() == old(self).resident(),
            final(self).queued() == requeued(old(self).queued(), old(self).waiting(), old(self).resident().dom()),
            final(self).refreshed_ids() == old(self).refreshed_ids(),
            final(self).spec_bytes() == old(self).spec_bytes(),
            final(self).spec_max() == old(self).spec_max(),
            final(self).spec_clock() == old(self).spec_clock(),
            final(self).disk_flags() == old(self).disk_flags(),
            final(self).diagnostics() == old(self).diagnostics(),
            final(self).superseded_reported() == old(self).superseded_reported(),
    {
        let mut waiting: Vec<(u64, u64)> = Vec::new();
        std::mem::swap(&mut waiting, &mut self.waiting_disk);
        self.disk_inflight = Vec::new();
        let ghost w = waiting@;
        let ghost q0 = self.queued();
        assert(self.waiting() =~= Map::<u64, u64>::empty());
        assert(self.inflight() =~= Set::<u64>::empty());
        let mut i: usize = 0;
        assert(pairs_map(w.take(0)) =~= Map::<u64, u64>::empty());
        assert(self.queued() =~= requeued(q0, pairs_map(w.take(0)), self.resident().dom()));
        while i < waiting.len()
            invariant
                self.wf(),
                w == waiting@,
                unique_keys(w),
                i <= w.len(),
                self.waiting() == Map::<u64, u64>::empty(),
                self.inflight() == Set::<u64>::empty(),
                self.resident() == old(self).resident(),
                q0 == old(self).queued(),
                self.queued() == requeued(q0, pairs_map(w.take(i as int)), self.resident().dom()),
                self.refreshed_ids() == old(self).refreshed_ids(),
                self.spec_bytes() == old(self).spec_bytes(),
                self.spec_max() == old(self).spec_max(),
                self.spec_clock() == old(self).spec_clock(),
                self.disk_flags() == old(self).disk_flags(),
                self.diagnostics() == old(self).diagnostics(),
                self.superseded_reported() == old(self).superseded_reported(),
            decreases w.len() - i,
        {
            let (id, p) = waiting[i];
            let ghost qb = self.queued();
            let ghost wi = pairs_map(w.take(i as int));
            proof {
                crate::keyed::lemma_pairs_map_dom(w.take(i as int), id);
                if wi.dom().contains(id) {
                    let j = choose|j: int| 0 <= j < w.take(i as int).len() && w.take(i as int)[j].0 == id;
                    assert(w[j].0 == w[i as int].0);
                }
            }
            self.request(id, p);
            assert(w.take(i + 1).drop_last() =~= w.take(i as int));
            assert(w.take(i + 1).last() == w[i as int]);
            assert(pairs_map(w.take(i + 1)) == wi.insert(id, p));
            assert(self.queued() =~= requeued(q0, pairs_map(w.take(i + 1)), self.resident().dom()));
            i += 1;
        }
        assert(w.take(w.len() as int) =~= w);
    }

    /// A newer cache took the disk worker (`is_newest` false): the worker
    /// and any pending start are dropped, disk waits go back to the bake
    /// queue, in-flight disk work is forgotten, and the first time this
    /// happens a diagnostic says so. Nothing changes while this cache is
    /// current.
    pub fn handle_disk_superseded(&mut self, is_newest: bool)
        requires
            old(self).wf(),
        ensures
            final(self).wf(),
            is_newest ==> *final(self) == *old(self),
            !is_newest ==> {
                &&& final(self).disk_flags() == (false, false, false, false, 0usize, 0usize)
                &&& final(self).waiting() == Map::<u64, u64>::empty()
                &&& final(self).inflight() == Set::<u64>::empty()
                &&& final(self).queued() == requeued(old(self).queued(), old(self).waiting(), old(self).resident().dom())
                &&& final(self).resident() == old(self).resident()
                &&& final(self).superseded_reported()
                &&& final(self).diagnostics() == if old(self).superseded_reported() {
                    old(self).diagnostics()
                } else {
                    old(self).diagnostics().push(DiskDiagnostic { operation: DiskOperation::Open, message: final(self).diagnostics().last().message })
                }
                &&& !old(self).superseded_reported() ==> final(self).diagnostics().last().message@ == superseded_msg()
            },
    {
        if is_newest {
            return;
        }
        self.pending_disk_start = false;
        self.disk_worker = false;
        self.requeue_waiting();
        self.disk_worker_starting = false;
        self.clear_disk_pending = false;
        self.clear_disk_inflight = 0;
        self.pending_disk_saves = 0;
        if !self.disk_superseded_reported {
            self.disk_superseded_reported = true;
            self.disk_diagnostics.push(DiskDiagnostic {
                operation: DiskOperation::Open,
                message: "texture cache superseded by a newer project".to_owned(),
            });
        }
    }

    /// The worker's result channel closed: disk waits go back to the bake
    /// queue, a clear that was requested or in flight is reported as
    /// failed, and all disk bookkeeping is dropped with the worker.
    pub fn handle_disk_disconnect(&mut self)
        requires
            old(self).wf(),
        ensures
            final(self).wf(),
            final(self).disk_flags() == (false, old(self).disk_flags().1, false, false, 0usize, 0usize),
            final(self).waiting() == Map::<u64, u64>::empty(),
            final(self).inflight() == Set::<u64>::empty(),
            final(self).queued() == requeued(old(self).queued(), old(self).waiting(), old(self).resident().dom()),
            final(self).resident() == old(self).resident(),
            final(self).superseded_reported() == old(self).superseded_reported(),
            final(self).diagnostics() == if old(self).disk_flags().3 || old(self).disk_flags().4 > 0 {
                old(self).diagnostics().push(DiskDiagnostic { operation: DiskOperation::Clear, message: final(self).diagnostics().last().message })
            } else {
                old(self).diagnostics()
            },
            old(self).disk_flags().3 || old(self).disk_flags().4 > 0 ==> final(self).diagnostics().last().message@ == disconnected_msg(),
    {
        self.requeue_waiting();
        if self.clear_disk_pending || self.clear_disk_inflight > 0 {
            self.disk_diagnostics.push(DiskDiagnostic {
                operation: DiskOperation::Clear,
                message: "texture cache worker disconnected".to_owned(),
            });
        }
        self.disk_worker_starting = false;
        self.clear_disk_pending = false;
        self.clear_disk_inflight = 0;
        self.pending_disk_saves = 0;
        self.disk_worker = false;
    }

    /// Applies one worker result: the open finished; a loaded texture
    /// becomes resident (or, when it could not be decoded, is queued for
    /// baking); a miss is queued for baking with the priority it waited on
    /// the disk with, every other queued request keeping its own; saves and
    /// clears in flight are counted down; diagnostics are collected.
    pub fn apply_disk_result(&mut self, event: DiskEvent) -> (r: Option<InsertOutcome>)
        requires
            old(self).wf(),
            old(self).spec_clock() < u64::MAX,
            event matches DiskEvent::Loaded { texture: Some((b, _)), .. } ==> old(self).spec_bytes() + b <= usize::MAX,
        ensures
            final(self).wf(),
            match event {
                DiskEvent::OpenComplete => r is None && final(self).disk_flags() == (old(self).disk_flags().0, old(self).disk_flags().1, false, old(self).disk_flags().3, old(self).disk_flags().4, old(self).disk_flags().5)
                    && final(self).resident() == old(self).resident() && final(self).queued() == old(self).queued()
                    && final(self).waiting() == old(self).waiting(),
                DiskEvent::Loaded { id, texture } => {
                    &&& !final(self).inflight().contains(id)
                    &&& !final(self).waiting().dom().contains(id)
                    &&& final(self).inflight() == old(self).inflight().remove(id)
                    &&& final(self).waiting() == old(self).waiting().remove(id)
                    &&& final(self).disk_flags() == old(self).disk_flags()
                    &&& match texture {
                        Some((b, img)) => (r matches Some(o) && o.replaced == old(self).resident().dom().contains(id))
                            && final(self).spec_clock() == old(self).spec_clock() + 1
                            && final(self).spec_bytes() <= final(self).spec_max()
                            && trimmed_lru(
                            old(self).resident().insert(id, (CachedTexture { bytes: b, has_image: img, last_used: final(self).spec_clock() })),
                            final(self).resident(),
                        ),
                        None => r is None && final(self).resident() == old(self).resident() && (old(self).resident().dom().contains(id) || final(self).queued().dom().contains(id))
                            && final(self).queued() == (if old(self).resident().dom().contains(id) {
                                old(self).queued()
                            } else {
                                raise(old(self).queued(), id, waiting_priority(old(self).waiting(), id))
                            }),
                    }
                    &&& texture is Some ==> final(self).queued() == old(self).queued()
                },
                DiskEvent::Miss { id } => r is None && !final(self).inflight().contains(id)
                    && !final(self).waiting().dom().contains(id)
                    && final(self).inflight() == old(self).inflight().remove(id)
                    && final(self).waiting() == old(self).waiting().remove(id)
                    && final(self).resident() == old(self).resident()
                    && (old(self).resident().dom().contains(id) || final(self).queued().dom().contains(id))
                    && final(self).queued() == (if old(self).resident().dom().contains(id) {
                        old(self).queued()
                    } else {
                        raise(old(self).queued(), id, waiting_priority(old(self).waiting(), id))
                    })
                    && final(self).disk_flags() == old(self).disk_flags(),
                DiskEvent::SaveComplete => r is None && (final(self).disk_flags() == (old(self).disk_flags().0, old(self).disk_flags().1, old(self).disk_flags().2, old(self).disk_flags().3, old(self).disk_flags().4, (old(self).disk_flags().5 - 1) as usize) || (old(self).disk_flags().5 == 0 && final(self).disk_flags() == old(self).disk_flags())),
                DiskEvent::ClearComplete => r is None && (final(self).disk_flags() == (old(self).disk_flags().0, old(self).disk_flags().1, old(self).disk_flags().2, old(self).disk_flags().3, (old(self).disk_flags().4 - 1) as usize, old(self).disk_flags().5) || (old(self).disk_flags().4 == 0 && final(self).disk_flags() == old(self).disk_flags())),
                DiskEvent::Diagnostic(d) => r is None && final(self).diagnostics() == old(self).diagnostics().push(d)
                    && final(self).disk_flags() == old(self).disk_flags(),
            },
            !(event is Loaded || event is Miss) ==> {
                &&& final(self).resident() == old(self).resident()
                &&& final(self).queued() == old(self).queued()
                &&& final(self).waiting() == old(self).waiting()
                &&& final(self).inflight() == old(self).inflight()
            },
            !(event matches DiskEvent::Loaded { texture: Some(_), .. }) ==> final(self).spec_clock() == old(self).spec_clock()
                && final(self).spec_bytes() == old(self).spec_bytes(),
            !(event is Diagnostic) ==> final(self).diagnostics() == old(self).diagnostics(),
            final(self).spec_max() == old(self).spec_max(),
            final(self).refreshed_ids() == old(self).refreshed_ids(),
            final(self).superseded_reported() == old(self).superseded_reported(),
    {
        match event {
            DiskEvent::OpenComplete => {
                self.disk_worker_starting = false;
                None
            },
            DiskEvent::Loaded { id, texture } => {
                take(&mut self.disk_inflight, id);
                let priority = match take(&mut self.waiting_disk, id) {
                    Some(p) => p,
                    None => 0,
                };
                match texture {
                    Some((bytes, has_image)) => Some(self.insert_entry(id, bytes, has_image)),
                    None => {
                        self.request(id, priority);
                        None
                    },
                }
            },
            DiskEvent::Miss { id } => {
                take(&mut self.disk_inflight, id);
                let priority = match take(&mut self.waiting_disk, id) {
                    Some(p) => p,
                    None => 0,
                };
                self.request(id, priority);
                None
            },
            DiskEvent::SaveComplete => {
                self.pending_disk_saves = self.pending_disk_saves.saturating_sub(1);
                None
            },
            DiskEvent::ClearComplete => {
                self.clear_disk_inflight = self.clear_disk_inflight.saturating_sub(1);
                None
            },
            DiskEvent::Diagnostic(d) => {
                self.disk_diagnostics.push(d);
                None
            },
        }
    }

    /// The disk loads to hand to the worker this frame: the
    /// highest-priority waiting requests not already in flight, at most
    /// `BAKES_PER_FRAME`, in descending priority; when fewer are picked,
    /// every such request is among them.
    pub fn disk_load_candidates(&self) -> (r: Vec<u64>)
        requires
            self.wf(),
        ensures
            r@.len() <= BAKES_PER_FRAME,
            r@.no_duplicates(),
            forall|j: int| 0 <= j < r@.len() ==> self.waiting().dom().contains(#[trigger] r@[j]) && !self.inflight().contains(r@[j]),
            forall|i: int, j: int| 0 <= i < j < r@.len() ==> self.waiting()[#[trigger] r@[i]] >= self.waiting()[#[trigger] r@[j]],
            forall|k: u64, j: int|
                self.waiting().dom().contains(k) && !self.inflight().contains(k) && !r@.contains(k) && 0 <= j < r@.len() ==> #[trigger] self.waiting()[k]
                    <= self.waiting()[#[trigger] r@[j]],
            r@.len() < BAKES_PER_FRAME ==> forall|k: u64| #[trigger] self.waiting().dom().contains(k)
                && !self.inflight().contains(k) ==> r@.contains(k),
    {
        let mut candidates: Vec<(u64, u64)> = Vec::new();
        let ghost wd = self.waiting_disk@;
        let mut i: usize = 0;
        assert(pairs_map(wd.take(0)).dom() =~= Set::<u64>::empty());
        while i < self.waiting_disk.len()
            invariant
                self.wf(),
                wd == self.waiting_disk@,
                i <= wd.len(),
                unique_keys(candidates@),
                forall|k: u64| #[trigger] pairs_map(candidates@).dom().contains(k) <==> pairs_map(wd.take(i as int)).dom().contains(k) && !self.inflight().contains(k),
                forall|k: u64| #[trigger] pairs_map(candidates@).dom().contains(k) ==> pairs_map(candidates@)[k] == self.waiting()[k],
            decreases wd.len() - i,
        {
            let (id, p) = self.waiting_disk[i];
            proof {
                crate::keyed::lemma_pairs_map_at(wd, i as int);
                assert(wd.take(i + 1).drop_last() =~= wd.take(i as int));
                assert(wd.take(i + 1).last() == wd[i as int]);
                crate::keyed::lemma_pairs_map_dom(wd.take(i as int), id);
                if pairs_map(wd.take(i as int)).dom().contains(id) {
                    let j = choose|j: int| 0 <= j < wd.take(i as int).len() && wd.take(i as int)[j].0 == id;
                    assert(wd[j].0 == wd[i as int].0);
                }
            }
            if find_key(&self.disk_inflight, id).is_none() {
                proof {
                    crate::keyed::lemma_pairs_map_push(candidates@, id, p);
                }
                candidates.push((id, p));
            }
            i += 1;
        }
        assert(wd.take(wd.len() as int) =~= wd);
        let r = top_by_priority(&candidates, BAKES_PER_FRAME);
        proof {
            assert forall|k: u64| pairs_map(candidates@).dom().contains(k) <==> self.waiting().dom().contains(k) && !self.inflight().contains(k) by {}
        }
        r
    }

    /// Records that a disk load of `id` was handed to the worker.
    pub fn note_load_sent(&mut self, id: u64)
        requires
            old(self).wf(),
        ensures
            final(self).wf(),
            final(self).inflight() == old(self).inflight().insert(id),
            final(self).waiting() == old(self).waiting(),
            final(self).queued() == old(self).queued(),
            final(self).resident() == old(self).resident(),
            final(self).disk_flags() == old(self).disk_flags(),
            final(self).diagnostics() == old(self).diagnostics(),
    {
        put(&mut self.disk_inflight, id, true);
        assert(self.inflight() =~= old(self).inflight().insert(id));
    }

    /// Handing a disk load of `id` to the worker failed because the worker
    /// is gone: the request goes back to the bake queue with its priority.
    pub fn note_load_disconnected(&mut self, id: u64)
        requires
            old(self).wf(),
        ensures
            final(self).wf(),
            !final(self).waiting().dom().contains(id),
            final(self).waiting() == old(self).waiting().remove(id),
            old(self).resident().dom().contains(id) || final(self).queued().dom().contains(id),
            !old(self).resident().dom().contains(id) ==> final(self).queued() == raise(
                old(self).queued(),
                id,
                waiting_priority(old(self).waiting(), id),
            ),
            old(self).resident().dom().contains(id) ==> final(self).queued() == old(self).queued(),
            final(self).resident() == old(self).resident(),
            final(self).inflight() == old(self).inflight(),
            final(self).disk_flags() == old(self).disk_flags(),
            final(self).diagnostics() == old(self).diagnostics(),
    {
        let priority = match take(&mut self.waiting_disk, id) {
            Some(p) => p,
            None => 0,
        };
        self.request(id, priority);
    }

    /// What to do about a requested clear: nothing without a request;
    /// without a worker, wait for a pending start or report the cache
    /// unavailable (dropping the request); with one, send it.
    pub fn clear_step(&mut self) -> (r: ClearStep)
        requires
            old(self).wf(),
        ensures
            final(self).wf(),
            final(self).resident() == old(self).resident(),
            final(self).queued() == old(self).queued(),
            final(self).waiting() == old(self).waiting(),
            final(self).inflight() == old(self).inflight(),
            !old(self).disk_flags().3 ==> r == ClearStep::Nothing && *final(self) == *old(self),
            old(self).disk_flags().3 && !old(self).disk_flags().0 && old(self).disk_flags().1 ==> r == ClearStep::Nothing && *final(self) == *old(self),
            old(self).disk_flags().3 && !old(self).disk_flags().0 && !old(self).disk_flags().1 ==> {
                &&& r == ClearStep::Nothing
                &&& !final(self).disk_flags().3
                &&& final(self).diagnostics() == old(self).diagnostics().push(DiskDiagnostic { operation: DiskOperation::Clear, message: final(self).diagnostics().last().message })
                &&& final(self).diagnostics().last().message@ == unavailable_msg()
            },
            old(self).disk_flags().3 && old(self).disk_flags().0 ==> r == ClearStep::Send && *final(self) == *old(self),
    {
        if !self.clear_disk_pending {
            return ClearStep::Nothing;
        }
        if !self.disk_worker {
            if self.pending_disk_start {
                return ClearStep::Nothing;
            }
            self.clear_disk_pending = false;
            self.disk_diagnostics.push(DiskDiagnostic {
                operation: DiskOperation::Clear,
                message: "texture cache unavailable".to_owned(),
            });
            return ClearStep::Nothing;
        }
        ClearStep::Send
    }

    /// How sending the clear command went: once sent it is in flight; a
    /// full queue keeps it requested; a vanished worker drops it with a
    /// diagnostic.
    pub fn note_clear_sent(&mut self, outcome: SendOutcome)
        requires
            old(self).wf(),
        ensures
            final(self).wf(),
            final(self).resident() == old(self).resident(),
            final(self).queued() == old(self).queued(),
            final(self).waiting() == old(self).waiting(),
            outcome == SendOutcome::Sent ==> final(self).disk_flags() == (old(self).disk_flags().0, old(self).disk_flags().1, old(self).disk_flags().2, false, old(self).disk_flags().4.saturating_add(1), old(self).disk_flags().5)
                && final(self).diagnostics() == old(self).diagnostics(),
            outcome == SendOutcome::Full ==> *final(self) == *old(self),
            outcome == SendOutcome::Disconnected ==> final(self).disk_flags() == (old(self).disk_flags().0, old(self).disk_flags().1, old(self).disk_flags().2, false, old(self).disk_flags().4, old(self).disk_flags().5)
                && final(self).diagnostics() == old(self).diagnostics().push(DiskDiagnostic { operation: DiskOperation::Clear, message: final(self).diagnostics().last().message })
                && final(self).diagnostics().last().message@ == disconnected_msg(),
    {
        match outcome {
            SendOutcome::Sent => {
                self.clear_disk_pending = false;
                self.clear_disk_inflight = self.clear_disk_inflight.saturating_add(1);
            },
            SendOutcome::Full => {},
            SendOutcome::Disconnected => {
                self.clear_disk_pending = false;
                self.disk_diagnostics.push(DiskDiagnostic {
                    operation: DiskOperation::Clear,
                    message: "texture cache worker disconnected".to_owned(),
                });
            },
        }
    }

    /// The retry window for a deferred worker start ran out: the start is
    /// abandoned with a diagnostic.
    pub fn note_start_timed_out(&mut self)
        requires
            old(self).wf(),
        ensures
            final(self).wf(),
            final(self).disk_flags() == (old(self).disk_flags().0, false, old(self).disk_flags().2, old(self).disk_flags().3, old(self).disk_flags().4, old(self).disk_flags().5),
            final(self).diagnostics() == old(self).diagnostics().push(DiskDiagnostic { operation: DiskOperation::Open, message: final(self).diagnostics().last().message }),
            final(self).diagnostics().last().message@ == start_timeout_msg(),
            final(self).resident() == old(self).resident(),
            final(self).queued() == old(self).queued(),
            final(self).waiting() == old(self).waiting(),
    {
        self.pending_disk_start = false;
        self.disk_diagnostics.push(DiskDiagnostic {
            operation: DiskOperation::Open,
            message: "timed out waiting for the previous texture cache worker to retire".to_owned(),
        });
    }

    /// A retried worker start went as `start` says (`is_newest`: whether
    /// this cache still owns the worker slot): a started worker is attached
    /// and opening; a deferred start stays pending; losing the slot is
    /// handled as supersession; a failure is reported.
    pub fn note_start_retried(&mut self, start: DiskStart, is_newest: bool)
        requires
            old(self).wf(),
            old(self).disk_flags().1,
        ensures
            final(self).wf(),
            start == DiskStart::Started ==> final(self).disk_flags() == (true, false, true, old(self).disk_flags().3, old(self).disk_flags().4, old(self).disk_flags().5)
                && final(self).diagnostics() == old(self).diagnostics(),
            start == DiskStart::Deferred ==> *final(self) == *old(self),
            (start matches DiskStart::Failed(m) ==> final(self).disk_flags() == (old(self).disk_flags().0, false, old(self).disk_flags().2, old(self).disk_flags().3, old(self).disk_flags().4, old(self).disk_flags().5)
                && final(self).diagnostics() == old(self).diagnostics().push(DiskDiagnostic { operation: DiskOperation::Open, message: m })),
            start == DiskStart::Superseded && !is_newest ==> final(self).disk_flags() == (false, false, false, false, 0usize, 0usize),
    {
        match start {
            DiskStart::Started => {
                self.pending_disk_start = false;
                self.disk_worker = true;
                self.disk_worker_starting = true;
            },
            DiskStart::Deferred => {},
            DiskStart::Superseded => {
                self.pending_disk_start = false;
                self.handle_disk_superseded(is_newest);
            },
            DiskStart::Failed(message) => {
                self.pending_disk_start = false;
                self.disk_diagnostics.push(DiskDiagnostic { operation: DiskOperation::Open, message });
            },
        }
    }

    /// Changes the memory allowance, evicting least recently used textures
    /// (returned) until the bytes fit it.
    pub fn set_max_bytes(&mut self, max_bytes: usize) -> (r: Vec<u64>)
        requires
            old(self).wf(),
        ensures
            final(self).wf(),
            final(self).spec_max() == max_bytes,
            trimmed_lru(old(self).resident(), final(self).resident()),
            trimmed_only_while_over(old(self).resident(), final(self).resident(), final(self).spec_bytes(), max_bytes as int),
            old(self).spec_bytes() <= max_bytes ==> r@.len() == 0 && final(self).resident() == old(self).resident(),
            forall|k: u64| r@.contains(k) <==> old(self).resident().dom().contains(k) && !final(self).resident().dom().contains(k),
            final(self).queued() == old(self).queued(),
            final(self).waiting() == old(self).waiting(),
            final(self).spec_clock() == old(self).spec_clock(),
            final(self).disk_flags() == old(self).disk_flags(),
            final(self).diagnostics() == old(self).diagnostics(),
    {
        self.max_bytes = max_bytes;
        let mut evicted: Vec<u64> = Vec::new();
        let ghost before = self.resident();
        self.evict(&mut evicted);
        assert forall|k: u64| evicted@.contains(k) <==> before.dom().contains(k) && !self.resident().dom().contains(k) by {
            assert((exists|j: int| 0 <= j < evicted@.len() && evicted@[j] == k) <==> (before.dom().contains(k) && !self.resident().dom().contains(k)));
            if evicted@.contains(k) {
                let j = choose|j: int| 0 <= j < evicted@.len() && evicted@[j] == k;
                assert(0 <= j < evicted@.len() && evicted@[j] == k);
            }
        }
        evicted
    }

    /// Whether any work is outstanding: queued bakes, disk waits, a worker
    /// being started or opened, or clears and saves in flight.
    pub fn has_queued(&self) -> (r: bool)
        requires
            self.wf(),
        ensures
            r == (self.queued().dom() != Set::<u64>::empty() || self.waiting().dom() != Set::<
                u64,
            >::empty() || self.disk_flags().2 || self.disk_flags().1 || self.disk_flags().3
                || self.disk_flags().4 > 0 || self.disk_flags().5 > 0),
    {
        proof {
            lemma_nonempty_dom(self.queue@);
            lemma_nonempty_dom(self.waiting_disk@);
        }
        self.queue.len() > 0 || self.waiting_disk.len() > 0 || self.disk_worker_starting
            || self.pending_disk_start || self.clear_disk_pending || self.clear_disk_inflight > 0
            || self.pending_disk_saves > 0
    }
}

/// Up to `n` keys of the pairs `s` in descending order of their values:
/// every key left out has a value no larger than any key picked, and when
/// fewer than `n` are picked, none is left out.
pub fn top_by_priority(s: &Vec<(u64, u64)>, n: usize) -> (r: Vec<u64>)
    requires
        unique_keys(s@),
    ensures
        r@.len() == if s@.len() < n { s@.len() as int } else { n as int },
        r@.no_duplicates(),
        forall|j: int| 0 <= j < r@.len() ==> pairs_map(s@).dom().contains(#[trigger] r@[j]),
        forall|i: int, j: int| 0 <= i < j < r@.len() ==> pairs_map(s@)[#[trigger] r@[i]] >= pairs_map(s@)[#[trigger] r@[j]],
        forall|k: u64, j: int|
            pairs_map(s@).dom().contains(k) && !r@.contains(k) && 0 <= j < r@.len() ==> #[trigger] pairs_map(s@)[k]
                <= pairs_map(s@)[#[trigger] r@[j]],
        r@.len() < n ==> forall|k: u64| #[trigger] pairs_map(s@).dom().contains(k) ==> r@.contains(k),
{
    let mut rest: Vec<(u64, u64)> = Vec::new();
    let mut c: usize = 0;
    while c < s.len()
        invariant
            c <= s@.len(),
            rest@ == s@.take(c as int),
        decreases s.len() - c,
    {
        rest.push(s[c]);
        assert(s@.take(c + 1) =~= s@.take(c as int).push(s@[c as int]));
        c += 1;
    }
    assert(s@.take(s.len() as int) =~= s@);
    let mut sel: Vec<(u64, u64)> = Vec::new();
    while sel.len() < n && rest.len() > 0
        invariant
            unique_keys(s@),
            unique_keys(rest@),
            unique_keys(sel@),
            forall|a: int, b: int| 0 <= a < rest@.len() && 0 <= b < sel@.len() ==> (#[trigger] rest@[a]).0 != (#[trigger] sel@[b]).0,
            forall|a: int| 0 <= a < rest@.len() ==> s@.contains(#[trigger] rest@[a]),
            forall|a: int| 0 <= a < sel@.len() ==> s@.contains(#[trigger] sel@[a]),
            forall|a: int| 0 <= a < s@.len() ==> rest@.contains(#[trigger] s@[a]) || sel@.contains(s@[a]),
            rest@.len() + sel@.len() == s@.len(),
            forall|a: int, b: int| 0 <= a < rest@.len() && 0 <= b < sel@.len() ==> (#[trigger] rest@[a]).1 <= (#[trigger] sel@[b]).1,
            forall|a: int, b: int| 0 <= a < b < sel@.len() ==> (#[trigger] sel@[a]).1 >= (#[trigger] sel@[b]).1,
            sel@.len() <= n,
        decreases rest@.len(),
    {
        let mut m: usize = 0;
        let mut i: usize = 1;
        while i < rest.len()
            invariant
                1 <= i <= rest@.len(),
                m < i,
                forall|j: int| 0 <= j < i ==> (#[trigger] rest@[j]).1 <= rest@[m as int].1,
            decreases rest.len() - i,
        {
            if rest[i].1 > rest[m].1 {
                m = i;
            }
            i += 1;
        }
        let ghost r0 = rest@;
        let ghost s0 = sel@;
        let x = rest[m];
        rest.remove(m);
        sel.push(x);
        proof {
            assert forall|a: int| 0 <= a < rest@.len() implies rest@[a] == r0[if a < m { a } else { a + 1 }] by {}
            assert(sel@.drop_last() =~= s0);
            assert forall|a: int, b: int| 0 <= a < rest@.len() && 0 <= b < rest@.len() && a != b implies rest@[a].0 != rest@[b].0 by {
                let a2 = if a < m { a } else { a + 1 };
                let b2 = if b < m { b } else { b + 1 };
                assert(rest@[a] == r0[a2] && rest@[b] == r0[b2]);
            }
            assert forall|a: int, b: int| 0 <= a < sel@.len() && 0 <= b < sel@.len() && a != b implies sel@[a].0 != sel@[b].0 by {
                if a < s0.len() && b < s0.len() {
                    assert(sel@[a] == s0[a] && sel@[b] == s0[b]);
                } else if a < s0.len() {
                    assert(sel@[a] == s0[a]);
                    assert(sel@[b] == r0[m as int]);
                } else {
                    assert(sel@[b] == s0[b]);
                    assert(sel@[a] == r0[m as int]);
                }
            }
            assert forall|a: int, b: int| 0 <= a < rest@.len() && 0 <= b < sel@.len() implies (#[trigger] rest@[a]).0 != (#[trigger] sel@[b]).0 by {
                let a2 = if a < m { a } else { a + 1 };
                assert(rest@[a] == r0[a2]);
                if b < s0.len() {
                    assert(sel@[b] == s0[b]);
                } else {
                    assert(sel@[b] == r0[m as int]);
                }
            }
            assert forall|a: int| 0 <= a < rest@.len() implies s@.contains(#[trigger] rest@[a]) by {
                let a2 = if a < m { a } else { a + 1 };
                assert(rest@[a] == r0[a2]);
            }
            assert forall|a: int| 0 <= a < sel@.len() implies s@.contains(#[trigger] sel@[a]) by {
                if a < s0.len() {
                    assert(sel@[a] == s0[a]);
                } else {
                    assert(sel@[a] == r0[m as int]);
                }
            }
            assert forall|a: int| 0 <= a < s@.len() implies rest@.contains(#[trigger] s@[a]) || sel@.contains(s@[a]) by {
                if r0.contains(s@[a]) {
                    let j = choose|j: int| 0 <= j < r0.len() && r0[j] == s@[a];
                    if j == m {
                        assert(sel@[sel@.len() - 1] == s@[a]);
                    } else if j < m {
                        assert(rest@[j] == s@[a]);
                    } else {
                        assert(rest@[j - 1] == s@[a]);
                    }
                } else {
                    let j = choose|j: int| 0 <= j < s0.len() && s0[j] == s@[a];
                    assert(sel@[j] == s@[a]);
                }
            }
            assert forall|a: int, b: int| 0 <= a < rest@.len() && 0 <= b < sel@.len() implies (#[trigger] rest@[a]).1 <= (#[trigger] sel@[b]).1 by {
                let a2 = if a < m { a } else { a + 1 };
                assert(rest@[a] == r0[a2]);
                if b < s0.len() {
                    assert(sel@[b] == s0[b]);
                } else {
                    assert(sel@[b] == r0[m as int]);
                }
            }
            assert forall|a: int, b: int| 0 <= a < b < sel@.len() implies (#[trigger] sel@[a]).1 >= (#[trigger] sel@[b]).1 by {
                assert(sel@[a] == s0[a]);
                if b < s0.len() {
                    assert(sel@[b] == s0[b]);
                } else {
                    assert(sel@[b] == r0[m as int]);
                }
            }
        }
    }
    let mut out: Vec<u64> = Vec::new();
    let mut j: usize = 0;
    while j < sel.len()
        invariant
            j <= sel@.len(),
            out@.len() == j,
            forall|a: int| 0 <= a < j ==> out@[a] == (#[trigger] sel@[a]).0,
        decreases sel.len() - j,
    {
        out.push(sel[j].0);
        j += 1;
    }
    proof {
        assert forall|a: int| 0 <= a < sel@.len() implies pairs_map(s@).dom().contains((#[trigger] sel@[a]).0)
            && pairs_map(s@)[sel@[a].0] == sel@[a].1 by {
            crate::keyed::lemma_pairs_map_member(s@, sel@[a]);
        }
        assert forall|a: int, b: int| 0 <= a < out@.len() && 0 <= b < out@.len() && a != b implies out@[a] != out@[b] by {
            assert(out@[a] == sel@[a].0 && out@[b] == sel@[b].0);
        }
        assert forall|j: int| 0 <= j < out@.len() implies pairs_map(s@).dom().contains(#[trigger] out@[j]) by {
            assert(out@[j] == sel@[j].0);
        }
        assert forall|a: int, b: int| 0 <= a < b < out@.len() implies pairs_map(s@)[#[trigger] out@[a]] >= pairs_map(s@)[#[trigger] out@[b]] by {
            assert(out@[a] == sel@[a].0 && out@[b] == sel@[b].0);
        }
        assert forall|k: u64, j: int|
            pairs_map(s@).dom().contains(k) && !out@.contains(k) && 0 <= j < out@.len() implies #[trigger] pairs_map(s@)[k]
                <= pairs_map(s@)[#[trigger] out@[j]] by {
            crate::keyed::lemma_pairs_map_dom(s@, k);
            let i = choose|i: int| 0 <= i < s@.len() && s@[i].0 == k;
            crate::keyed::lemma_pairs_map_at(s@, i);
            if sel@.contains(s@[i]) {
                let b = choose|b: int| 0 <= b < sel@.len() && sel@[b] == s@[i];
                assert(out@[b] == k);
            } else {
                assert(rest@.contains(s@[i]));
                let a = choose|a: int| 0 <= a < rest@.len() && rest@[a] == s@[i];
                assert(rest@[a].1 <= sel@[j].1);
                assert(out@[j] == sel@[j].0);
            }
        }
        if out@.len() < n {
            assert(rest@.len() == 0);
            assert forall|k: u64| #[trigger] pairs_map(s@).dom().contains(k) implies out@.contains(k) by {
                crate::keyed::lemma_pairs_map_dom(s@, k);
                let i = choose|i: int| 0 <= i < s@.len() && s@[i].0 == k;
                assert(!rest@.contains(s@[i]));
                let b = choose|b: int| 0 <= b < sel@.len() && sel@[b] == s@[i];
                assert(out@[b] == k);
            }
        }
    }
    out
}

/// Whether pair `x` passes the batch filter: any pair when `group` is
/// `None`, else pairs of that group with a positive priority.
pub open spec fn batch_candidate(x: (u64, u64), groups: Map<u64, u64>, group: Option<u64>) -> bool {
    match group {
        None => true,
        Some(g) => x.1 > 0 && groups.dom().contains(x.0) && groups[x.0] == g,
    }
}

/// The position of a highest-priority pair passing the batch filter.
fn best_candidate(q: &Vec<(u64, u64)>, groups: &Vec<(u64, u64)>, group: Option<u64>) -> (r: Option<usize>)
    requires
        unique_keys(groups@),
    ensures
        match r {
            Some(i) => i < q@.len() && batch_candidate(q@[i as int], pairs_map(groups@), group)
                && forall|j: int| 0 <= j < q@.len() && batch_candidate(#[trigger] q@[j], pairs_map(groups@), group)
                    ==> q@[j].1 <= q@[i as int].1,
            None => forall|j: int| 0 <= j < q@.len() ==> !batch_candidate(#[trigger] q@[j], pairs_map(groups@), group),
        },
{
    let mut best: Option<usize> = None;
    let mut i: usize = 0;
    while i < q.len()
        invariant
            i <= q@.len(),
            unique_keys(groups@),
            match best {
                Some(b) => b < i && batch_candidate(q@[b as int], pairs_map(groups@), group) && forall|j: int|
                    0 <= j < i && batch_candidate(#[trigger] q@[j], pairs_map(groups@), group) ==> q@[j].1 <= q@[b as int].1,
                None => forall|j: int| 0 <= j < i ==> !batch_candidate(#[trigger] q@[j], pairs_map(groups@), group),
            },
        decreases q.len() - i,
    {
        let (k, p) = q[i];
        let ok = match group {
            None => true,
            Some(g) => p > 0 && match lookup(groups, k) {
                Some(h) => h == g,
                None => false,
            },
        };
        if ok {
            match best {
                Some(b) => {
                    if p > q[b].1 {
                        best = Some(i);
                    }
                },
                None => {
                    best = Some(i);
                },
            }
        }
        i += 1;
    }
    best
}

/// Whether pick `j` of `picked` was a highest-priority request among those
/// not picked before it.
pub open spec fn leader_pick(q: Map<u64, u64>, picked: Seq<u64>, j: int) -> bool {
    forall|k: u64| #[trigger] q.dom().contains(k) && !picked.take(j).contains(k) ==> q[k] <= q[picked[j]]
}

/// Whether pick `j` of `picked` shares the group of an earlier pick, has a
/// positive priority, and is a highest-priority request of that group
/// with positive priority among those not picked before it.
pub open spec fn mate_pick(q: Map<u64, u64>, groups: Map<u64, u64>, picked: Seq<u64>, j: int) -> bool {
    &&& groups.dom().contains(picked[j])
    &&& q[picked[j]] > 0
    &&& exists|i: int| 0 <= i < j && groups.dom().contains(#[trigger] picked[i]) && groups[picked[i]] == groups[picked[j]]
    &&& forall|k: u64| #[trigger] q.dom().contains(k) && !picked.take(j).contains(k) && groups.dom().contains(k)
        && groups[k] == groups[picked[j]] && q[k] > 0 ==> q[k] <= q[picked[j]]
}

/// The group of request `k`, if it has one.
pub open spec fn group_of(groups: Map<u64, u64>, k: u64) -> Option<u64> {
    if groups.dom().contains(k) {
        Some(groups[k])
    } else {
        None
    }
}

/// Whether, before pick `j`, a request of group `g` with positive priority
/// is still queued.
pub open spec fn group_remains(q: Map<u64, u64>, groups: Map<u64, u64>, picked: Seq<u64>, j: int, g: u64) -> bool {
    exists|k: u64|
        #[trigger] q.dom().contains(k) && !picked.take(j).contains(k) && groups.dom().contains(k)
            && groups[k] == g && q[k] > 0
}

/// Position of the leading pick in force after pick `j`: a pick leads
/// unless the group of the pick leading before it still had a queued
/// request with positive priority.
pub open spec fn leader_at(q: Map<u64, u64>, groups: Map<u64, u64>, picked: Seq<u64>, j: int) -> int
    decreases j,
{
    if j <= 0 {
        0
    } else {
        let l = leader_at(q, groups, picked, j - 1);
        match group_of(groups, picked[l]) {
            Some(g) => if group_remains(q, groups, picked, j, g) {
                l
            } else {
                j
            },
            None => j,
        }
    }
}

/// Whether pick `j` is a highest request of group `g` with positive
/// priority among those not picked before it.
pub open spec fn group_pick(q: Map<u64, u64>, groups: Map<u64, u64>, picked: Seq<u64>, j: int, g: u64) -> bool {
    &&& groups.dom().contains(picked[j])
    &&& groups[picked[j]] == g
    &&& q[picked[j]] > 0
    &&& forall|k: u64|
        #[trigger] q.dom().contains(k) && !picked.take(j).contains(k) && groups.dom().contains(k)
            && groups[k] == g && q[k] > 0 ==> q[k] <= q[picked[j]]
}

/// The grouping rule for pick `j`: while the leading pick's group still
/// has a queued request with positive priority, the pick is the highest
/// such request of that group; otherwise it is a highest request overall.
pub open spec fn follows_leader(q: Map<u64, u64>, groups: Map<u64, u64>, picked: Seq<u64>, j: int) -> bool {
    let l = leader_at(q, groups, picked, j - 1);
    match group_of(groups, picked[l]) {
        Some(g) => if group_remains(q, groups, picked, j, g) {
            group_pick(q, groups, picked, j, g)
        } else {
            leader_pick(q, picked, j)
        },
        None => leader_pick(q, picked, j),
    }
}

proof fn lemma_leader_at_push(q: Map<u64, u64>, groups: Map<u64, u64>, s: Seq<u64>, k: u64, j: int)
    requires
        0 <= j < s.len(),
    ensures
        leader_at(q, groups, s.push(k), j) == leader_at(q, groups, s, j),
        0 <= leader_at(q, groups, s, j) <= j,
    decreases j,
{
    if j > 0 {
        lemma_leader_at_push(q, groups, s, k, j - 1);
        assert(s.push(k).take(j) =~= s.take(j));
        let l = leader_at(q, groups, s, j - 1);
        assert(s.push(k)[l] == s[l]);
    }
}

proof fn lemma_follows_leader_push(q: Map<u64, u64>, groups: Map<u64, u64>, s: Seq<u64>, k: u64, j: int)
    requires
        0 < j < s.len(),
    ensures
        follows_leader(q, groups, s.push(k), j) == follows_leader(q, groups, s, j),
{
    lemma_leader_at_push(q, groups, s, k, j - 1);
    let t = s.push(k);
    assert(t.take(j) =~= s.take(j));
    let l = leader_at(q, groups, s, j - 1);
    assert(t[l] == s[l]);
    assert(t[j] == s[j]);
}

/// `q` without the keys in `picked`.
pub open spec fn without(q: Map<u64, u64>, picked: Seq<u64>) -> Map<u64, u64> {
    q.restrict(q.dom().filter(|k: u64| !picked.contains(k)))
}

proof fn lemma_nonempty_dom<V>(s: Seq<(u64, V)>)
    ensures
        (s.len() > 0) == (pairs_map(s).dom() != Set::<u64>::empty()),
{
    if s.len() > 0 {
        crate::keyed::lemma_pairs_map_dom(s, s[0].0);
        assert(pairs_map(s).dom().contains(s[0].0));
        assert(!Set::<u64>::empty().contains(s[0].0));
    } else {
        assert(pairs_map(s).dom() =~= Set::<u64>::empty());
    }
}

fn zero_priorities(v: &mut Vec<(u64, u64)>)
    requires
        unique_keys(old(v)@),
    ensures
        unique_keys(final(v)@),
        pairs_map(final(v)@).dom() == pairs_map(old(v)@).dom(),
        forall|k: u64| #[trigger] pairs_map(final(v)@).dom().contains(k) ==> pairs_map(final(v)@)[k] == 0,
{
    let mut i: usize = 0;
    while i < v.len()
        invariant
            i <= v@.len(),
            v@.len() == old(v)@.len(),
            unique_keys(v@),
            forall|j: int| 0 <= j < v@.len() ==> (#[trigger] v@[j]).0 == old(v)@[j].0,
            forall|j: int| 0 <= j < i ==> (#[trigger] v@[j]).1 == 0,
        decreases v.len() - i,
    {
        let k = v[i].0;
        proof {
            crate::keyed::lemma_pairs_map_update(v@, i as int, 0u64);
        }
        v.set(i, (k, 0));
        i += 1;
    }
    assert forall|k: u64| pairs_map(v@).dom().contains(k) <==> pairs_map(old(v)@).dom().contains(k) by {
        crate::keyed::lemma_pairs_map_dom(v@, k);
        crate::keyed::lemma_pairs_map_dom(old(v)@, k);
        if pairs_map(old(v)@).dom().contains(k) {
            let j = choose|j: int| 0 <= j < old(v)@.len() && old(v)@[j].0 == k;
            assert(v@[j].0 == k);
        }
    }
    assert(pairs_map(v@).dom() =~= pairs_map(old(v)@).dom());
    assert forall|k: u64| #[trigger] pairs_map(v@).dom().contains(k) implies pairs_map(v@)[k] == 0 by {
        crate::keyed::lemma_pairs_map_dom(v@, k);
        let j = choose|j: int| 0 <= j < v@.len() && v@[j].0 == k;
        crate::keyed::lemma_pairs_map_at(v@, j);
    }
}

} // verus!
