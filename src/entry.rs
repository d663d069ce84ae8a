//! The result slot of a cache entry, and what the worker does to it when a
//! request completes.
use vstd::prelude::*;
use crate::error::RedoError;
use crate::worker::{after_request, step, WorkerAction, WorkerState};

verus! {

/// The mutable part of a cache entry that waits for a page image. It lives
/// under the entry's lock.
pub struct EntrySlot {
    pub page_image: Option<bytes::Bytes>,
    pub apply_pending: bool,
}

impl EntrySlot {
    /// A slot with no image and no request outstanding.
    pub fn new() -> (r: EntrySlot)
        ensures
            r.page_image is None,
            !r.apply_pending,
    {
        EntrySlot { page_image: None, apply_pending: false }
    }

    /// The owner queues a request for this entry.
    pub fn mark_pending(&mut self)
        ensures
            final(self).apply_pending,
            final(self).page_image == old(self).page_image,
    {
        self.apply_pending = true;
    }

    /// The worker takes the queued request into service.
    pub fn begin_service(&mut self)
        ensures
            !final(self).apply_pending,
            final(self).page_image == old(self).page_image,
    {
        self.apply_pending = false;
    }
}

/// The slot after a request completes with `outcome`: the request is no
/// longer pending, and the image is replaced on success and kept otherwise.
pub open spec fn published(slot: EntrySlot, outcome: Result<bytes::Bytes, RedoError>) -> EntrySlot {
    EntrySlot {
        page_image: match outcome {
            Ok(img) => Some(img),
            Err(_) => slot.page_image,
        },
        apply_pending: false,
    }
}

/// Stores the outcome of a request into its entry. Returns whether a new page
/// image was produced, which the caller counts.
pub fn publish_result(slot: &mut EntrySlot, outcome: Result<bytes::Bytes, RedoError>) -> (r: bool)
    ensures
        *final(slot) == published(*old(slot), outcome),
        r == outcome is Ok,
{
    slot.apply_pending = false;
    match outcome {
        Ok(img) => {
            slot.page_image = Some(img);
            true
        },
        Err(_) => false,
    }
}

/// What the worker learns from one completed request.
pub struct Completion {
    /// A new page image was stored.
    pub produced: bool,
    /// Keep the process or replace it.
    pub action: WorkerAction,
    /// The worker's state for the next request.
    pub next: WorkerState,
}

/// Completes one request: publishes `outcome` into the entry and decides, by
/// the recycling policy, whether the process that served it serves the next.
pub fn complete_request(slot: &mut EntrySlot, outcome: Result<bytes::Bytes, RedoError>, s: WorkerState) -> (r: Completion)
    requires
        s.wf(),
        s.instance < u64::MAX,
    ensures
        *final(slot) == published(*old(slot), outcome),
        r.produced == outcome is Ok,
        (r.action, r.next) == step(s, outcome is Ok),
        r.next.wf(),
{
    let ok = outcome.is_ok();
    let produced = publish_result(slot, outcome);
    let (action, next) = after_request(s, ok);
    Completion { produced, action, next }
}

} // verus!
