//! Notifications of an undo manager: each stack change becomes an event
//! with an identifier of its own.
use vstd::prelude::*;

verus! {

/// Hands out event identifiers 1, 2, 3, ..., wrapping around after the
/// largest `u64`.
pub struct EventIdGenerator {
    next: u64,
}

impl View for EventIdGenerator {
    type V = u64;

    closed spec fn view(&self) -> u64 {
        self.next
    }
}

/// The identifier handed out after `id`.
pub open spec fn next_id(id: u64) -> u64 {
    if id == u64::MAX {
        0
    } else {
        (id + 1) as u64
    }
}

impl EventIdGenerator {
    /// A generator whose first identifier is 1.
    pub fn new() -> (r: EventIdGenerator)
        ensures
            r@ == 1,
    {
        EventIdGenerator { next: 1 }
    }
}

/// The next event identifier.
pub fn generate_event_id(ids: &mut EventIdGenerator) -> (r: u64)
    ensures
        r == old(ids)@,
        final(ids)@ == next_id(old(ids)@),
{
    let id = ids.next;
    ids.next = if id == u64::MAX { 0 } else { id + 1 };
    id
}

/// An undo-stack notification for the host.
#[derive(Clone, Debug, PartialEq, Eq)]
pub struct NifUndoEvent {
    pub id: u64,
    pub origin: Option<String>,
    pub changed_types: Vec<String>,
}

/// The notification of one stack change, under a fresh identifier.
pub fn undo_event(ids: &mut EventIdGenerator, origin: Option<String>) -> (r: NifUndoEvent)
    ensures
        r.id == old(ids)@,
        final(ids)@ == next_id(old(ids)@),
        r.origin == origin,
        r.changed_types@.len() == 0,
{
    let id = generate_event_id(ids);
    NifUndoEvent { id, origin, changed_types: Vec::new() }
}

/// Options of an undo manager.
#[derive(Clone, Copy, Debug, PartialEq, Eq, Structural)]
pub struct NifUndoOptions {
    /// Changes closer together than this many milliseconds form one undo step.
    pub capture_timeout: u64,
}

pub const DEFAULT_CAPTURE_TIMEOUT: u64 = 500;

impl NifUndoOptions {
    /// The options used when none are given.
    pub fn default_options() -> (r: NifUndoOptions)
        ensures
            r.capture_timeout == DEFAULT_CAPTURE_TIMEOUT,
    {
        NifUndoOptions { capture_timeout: DEFAULT_CAPTURE_TIMEOUT }
    }
}

} // verus!
