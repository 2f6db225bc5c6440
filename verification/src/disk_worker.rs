//! The decisions of the disk worker thread: for each piece of work it
//! carried out (opening the store, then the commands it is sent), which
//! results go back to the texture cache. The thread, its channels and the
//! store's file work stay with the caller, which performs the work and
//! hands its outcome here as plain values.

use vstd::prelude::*;

use crate::rasterize::{DiskDiagnostic, DiskOperation, DiskState};
use crate::texture_cache::DiskEvent;

verus! {

/// A piece of work the worker carried out, with what the store answered.
/// An answer of `None` stands for "there is no store" (it could not be
/// opened); an `Err` carries the failure's message.
pub enum DiskWork {
    /// The store was opened, or failed to open.
    Open { opened: Result<(), String> },
    /// A texture was looked up: `Ok(Some(texture))` found one (its size and
    /// whether it holds an image, or `None` when its pixels could not be
    /// turned into an image), `Ok(None)` found none.
    Load { id: u64, found: Option<Result<Option<Option<(usize, bool)>>, String>> },
    /// A texture was saved.
    Save { saved: Option<Result<(), String>> },
    /// The store was emptied.
    Clear { cleared: Option<Result<(), String>> },
}

/// Whether a failure of `op` with message `m` was reported already.
pub open spec fn was_reported(reported: Seq<(DiskOperation, String)>, op: DiskOperation, m: Seq<char>) -> bool {
    exists|i: int| 0 <= i < reported.len() && reported[i].0 == op && (#[trigger] reported[i]).1@ == m
}

/// The diagnostic event for a failure of `op` with message `m`.
pub open spec fn diagnostic(op: DiskOperation, m: String) -> DiskEvent {
    DiskEvent::Diagnostic(DiskDiagnostic { operation: op, message: m })
}

/// A failure of `op` with message `m` followed by `tail`: the failure is
/// reported (and remembered) only the first time it is seen, then `tail`
/// is sent either way.
pub open spec fn once_then(
    before: Seq<(DiskOperation, String)>,
    after: Seq<(DiskOperation, String)>,
    events: Seq<DiskEvent>,
    op: DiskOperation,
    m: String,
    tail: DiskEvent,
) -> bool {
    if was_reported(before, op, m@) {
        after == before && events == seq![tail]
    } else {
        after == before.push((op, m)) && events == seq![diagnostic(op, m), tail]
    }
}

/// Whether the work had a store to do it with.
pub open spec fn had_store(work: DiskWork) -> bool {
    match work {
        DiskWork::Open { opened } => opened is Ok,
        DiskWork::Load { found, .. } => found is Some,
        DiskWork::Save { saved } => saved is Some,
        DiskWork::Clear { cleared } => cleared is Some,
    }
}

/// The state the worker publishes after a piece of work, if any: after
/// opening, ready with the store's usage or unavailable; after a command
/// it carried out with a store, ready with the usage the store reports
/// (`used_bytes`); otherwise nothing changes.
pub open spec fn published_state(cancelled: bool, work: DiskWork, used_bytes: u64) -> Option<DiskState> {
    if work is Open {
        Some(if had_store(work) { DiskState::Ready { used_bytes } } else { DiskState::Unavailable })
    } else if !cancelled && had_store(work) {
        Some(DiskState::Ready { used_bytes })
    } else {
        None
    }
}

/// Message of the diagnostic sent when a clear finds no store.
pub open spec fn unavailable_msg() -> Seq<char> {
    "texture cache unavailable"@
}

/// The results for a piece of work `work` (see `disk_worker_step`), with
/// the failures reported before and after it.
pub open spec fn replies(
    before: Seq<(DiskOperation, String)>,
    after: Seq<(DiskOperation, String)>,
    cancelled: bool,
    work: DiskWork,
    r: Seq<DiskEvent>,
) -> bool {
    if cancelled && !(work is Open) {
        r == Seq::<DiskEvent>::empty() && after == before
    } else {
        match work {
            DiskWork::Open { opened } => match opened {
                Ok(()) => r == seq![DiskEvent::OpenComplete] && after == before,
                Err(m) => once_then(before, after, r, DiskOperation::Open, m, DiskEvent::OpenComplete),
            },
            DiskWork::Load { id, found } => match found {
                Some(Ok(Some(texture))) => r == seq![DiskEvent::Loaded { id, texture }] && after == before,
                Some(Err(m)) => once_then(before, after, r, DiskOperation::Load, m, DiskEvent::Miss { id }),
                _ => r == seq![DiskEvent::Miss { id }] && after == before,
            },
            DiskWork::Save { saved } => match saved {
                Some(Err(m)) => once_then(before, after, r, DiskOperation::Save, m, DiskEvent::SaveComplete),
                _ => r == seq![DiskEvent::SaveComplete] && after == before,
            },
            DiskWork::Clear { cleared } => after == before && match cleared {
                Some(Ok(())) => r == seq![DiskEvent::ClearComplete],
                Some(Err(m)) => r == seq![diagnostic(DiskOperation::Clear, m), DiskEvent::ClearComplete],
                None => r.len() == 2 && r[1] == DiskEvent::ClearComplete && (r[0] matches DiskEvent::Diagnostic(d)
                    && d.operation == DiskOperation::Clear && d.message@ == unavailable_msg()),
            },
        }
    }
}

/// Whether a failure of `op` with message `m` is among `reported`.
fn already_reported(reported: &Vec<(DiskOperation, String)>, op: DiskOperation, m: &String) -> (r: bool)
    ensures
        r == was_reported(reported@, op, m@),
{
    let mut i: usize = 0;
    while i < reported.len()
        invariant
            i <= reported@.len(),
            forall|j: int| 0 <= j < i ==> !(reported@[j].0 == op && (#[trigger] reported@[j]).1@ == m@),
        decreases reported@.len() - i,
    {
        if reported[i].0 == op && reported[i].1 == *m {
            return true;
        }
        i = i + 1;
    }
    false
}

/// Sends the failure of `op` with message `m` unless it was reported
/// already, then `tail`.
fn report_once_then(
    reported: &mut Vec<(DiskOperation, String)>,
    op: DiskOperation,
    m: String,
    tail: DiskEvent,
) -> (r: Vec<DiskEvent>)
    ensures
        once_then(old(reported)@, final(reported)@, r@, op, m, tail),
{
    let mut events: Vec<DiskEvent> = Vec::new();
    let ghost m0 = m;
    let ghost t0 = tail;
    if !already_reported(reported, op, &m) {
        let message = m.clone();
        reported.push((op, m));
        events.push(DiskEvent::Diagnostic(DiskDiagnostic { operation: op, message }));
        events.push(tail);
        assert(events@ =~= seq![diagnostic(op, m0), t0]);
    } else {
        events.push(tail);
        assert(events@ =~= seq![t0]);
    }
    events
}

/// The results the worker sends back for one piece of work, in order
/// (see `replies`), and the state it then publishes (see
/// `published_state`; `used_bytes` is the store's usage after the work).
/// While the worker is cancelled its commands are skipped and send
/// nothing (the opening is not a command). Otherwise: an opening ends with
/// `OpenComplete`, after the failure when it failed; a load sends the
/// texture it found as `Loaded`, and `Miss` when it found none, when there
/// is no store, or after its failure; a save ends with `SaveComplete`,
/// after its failure when it failed; a clear ends with `ClearComplete`,
/// after a diagnostic when it failed or when there is no store. Open, load
/// and save failures are reported once per operation and message, however
/// often they recur (`reported` remembers them); every failed clear is
/// reported.
pub fn disk_worker_step(
    reported: &mut Vec<(DiskOperation, String)>,
    cancelled: bool,
    work: DiskWork,
    used_bytes: u64,
) -> (out: (Vec<DiskEvent>, Option<DiskState>))
    ensures
        out.1 == published_state(cancelled, work, used_bytes),
        replies(old(reported)@, final(reported)@, cancelled, work, out.0@),
{
    let state = match &work {
        DiskWork::Open { opened } => Some(
            match opened {
                Ok(()) => DiskState::Ready { used_bytes },
                Err(_) => DiskState::Unavailable,
            },
        ),
        DiskWork::Load { found: Some(_), .. } | DiskWork::Save { saved: Some(_) } | DiskWork::Clear { cleared: Some(_) } => if cancelled {
            None
        } else {
            Some(DiskState::Ready { used_bytes })
        },
        _ => None,
    };
    let events = disk_worker_events(reported, cancelled, work);
    (events, state)
}

/// The results for one piece of work (see `disk_worker_step`).
fn disk_worker_events(reported: &mut Vec<(DiskOperation, String)>, cancelled: bool, work: DiskWork) -> (r: Vec<DiskEvent>)
    ensures
        replies(old(reported)@, final(reported)@, cancelled, work, r@),
{
    let is_open = match &work {
        DiskWork::Open { .. } => true,
        _ => false,
    };
    if cancelled && !is_open {
        let none: Vec<DiskEvent> = Vec::new();
        assert(none@ =~= Seq::<DiskEvent>::empty());
        return none;
    }
    match work {
        DiskWork::Open { opened } => match opened {
            Ok(()) => one(DiskEvent::OpenComplete),
            Err(m) => report_once_then(reported, DiskOperation::Open, m, DiskEvent::OpenComplete),
        },
        DiskWork::Load { id, found } => match found {
            Some(Ok(Some(texture))) => one(DiskEvent::Loaded { id, texture }),
            Some(Err(m)) => report_once_then(reported, DiskOperation::Load, m, DiskEvent::Miss { id }),
            _ => one(DiskEvent::Miss { id }),
        },
        DiskWork::Save { saved } => match saved {
            Some(Err(m)) => report_once_then(reported, DiskOperation::Save, m, DiskEvent::SaveComplete),
            _ => one(DiskEvent::SaveComplete),
        },
        DiskWork::Clear { cleared } => match cleared {
            Some(Ok(())) => one(DiskEvent::ClearComplete),
            Some(Err(m)) => {
                let ghost m0 = m;
                let r = vec![
                    DiskEvent::Diagnostic(DiskDiagnostic { operation: DiskOperation::Clear, message: m }),
                    DiskEvent::ClearComplete,
                ];
                assert(r@ =~= seq![diagnostic(DiskOperation::Clear, m0), DiskEvent::ClearComplete]);
                r
            },
            None => {
                let message = "texture cache unavailable".to_owned();
                proof {
                    reveal_strlit("texture cache unavailable");
                }
                vec![
                    DiskEvent::Diagnostic(DiskDiagnostic { operation: DiskOperation::Clear, message }),
                    DiskEvent::ClearComplete,
                ]
            },
        },
    }
}

/// The single result `e`.
fn one(e: DiskEvent) -> (r: Vec<DiskEvent>)
    ensures
        r@ == seq![e],
{
    let ghost e0 = e;
    let mut r: Vec<DiskEvent> = Vec::new();
    r.push(e);
    assert(r@ =~= seq![e0]);
    r
}

} // verus!
