//! Presence states shared alongside a document: the local peer's state, the
//! states of remote peers, and their binary updates.
use vstd::prelude::*;

use crate::error::Error;
use crate::layout::{awareness_update_ok, awareness_update_safe};
use crate::native::{
    awareness_apply, awareness_apply_with, awareness_clean_local, awareness_client,
    awareness_local, awareness_remove, awareness_set_local, awareness_states, awareness_update_all,
    awareness_update_of, decode_awareness_update_v1, decodes_awareness_update_v1,
    encode_awareness_update_v1, new_awareness, parse_any, parses_as_any,
};

verus! {

/// The presence states of the peers of one document.
pub struct NifAwareness {
    awareness: yrs::sync::Awareness,
}

/// The clients that one update added, changed or removed.
#[derive(Clone, Debug, PartialEq, Eq)]
pub struct NifAwarenessUpdateSummary {
    pub added: Vec<u64>,
    pub updated: Vec<u64>,
    pub removed: Vec<u64>,
}

/// The clients of `states` that hold a state, in order.
pub open spec fn present_ids(states: Seq<(u64, Option<String>)>) -> Seq<u64>
    decreases states.len(),
{
    if states.len() == 0 {
        Seq::empty()
    } else {
        let last = states.last();
        present_ids(states.drop_last()) + if last.1 is Some { seq![last.0] } else { Seq::empty() }
    }
}

/// The clients of `states` whose state reads as a JSON value, in order.
pub open spec fn parsed_ids(states: Seq<(u64, Option<String>)>) -> Seq<u64>
    decreases states.len(),
{
    if states.len() == 0 {
        Seq::empty()
    } else {
        let last = states.last();
        parsed_ids(states.drop_last()) + if last.1 matches Some(d) && parses_as_any(d@) {
            seq![last.0]
        } else {
            Seq::empty()
        }
    }
}

/// The clients of a list of (client, value) pairs.
pub open spec fn clients_of(states: Seq<(u64, yrs::Any)>) -> Seq<u64> {
    states.map_values(|p: (u64, yrs::Any)| p.0)
}

/// The clients of `states` that hold a state.
pub fn present_clients(states: &Vec<(u64, Option<String>)>) -> (r: Vec<u64>)
    ensures
        r@ == present_ids(states@),
{
    let mut r: Vec<u64> = Vec::new();
    let mut i: usize = 0;
    while i < states.len()
        invariant
            i <= states@.len(),
            r@ == present_ids(states@.subrange(0, i as int)),
        decreases states@.len() - i,
    {
        assert(states@.subrange(0, i + 1).drop_last() =~= states@.subrange(0, i as int));
        if states[i].1.is_some() {
            r.push(states[i].0);
        }
        i = i + 1;
    }
    assert(states@.subrange(0, i as int) =~= states@);
    r
}

/// The states of `states` that read as JSON values, with their clients.
pub fn parsed_states(states: &Vec<(u64, Option<String>)>) -> (r: Vec<(u64, yrs::Any)>)
    ensures
        clients_of(r@) == parsed_ids(states@),
{
    let mut r: Vec<(u64, yrs::Any)> = Vec::new();
    let mut i: usize = 0;
    while i < states.len()
        invariant
            i <= states@.len(),
            clients_of(r@) == parsed_ids(states@.subrange(0, i as int)),
        decreases states@.len() - i,
    {
        assert(states@.subrange(0, i + 1).drop_last() =~= states@.subrange(0, i as int));
        if let Some(json) = &states[i].1 {
            if let Some(value) = parse_any(json.as_str()) {
                let ghost before = r@;
                r.push((states[i].0, value));
                assert(clients_of(r@) =~= clients_of(before) + seq![states@[i as int].0]);
            }
        }
        i = i + 1;
    }
    assert(states@.subrange(0, i as int) =~= states@);
    r
}

/// The presence states of `doc`, starting empty.
pub fn awareness_new(doc: &yrs::Doc) -> (r: NifAwareness) {
    NifAwareness { awareness: new_awareness(doc) }
}

impl NifAwareness {
    /// The yrs awareness itself.
    pub fn native(&self) -> &yrs::sync::Awareness {
        &self.awareness
    }
}

/// The local peer's client id.
pub fn awareness_client_id(a: &NifAwareness) -> u64 {
    awareness_client(&a.awareness)
}

/// The clients that hold a state.
pub fn awareness_get_client_ids(a: &NifAwareness) -> Vec<u64> {
    let states = awareness_states(&a.awareness);
    present_clients(&states)
}

/// The states that read as JSON values, with their clients.
pub fn awareness_get_states(a: &NifAwareness) -> Vec<(u64, yrs::Any)> {
    let states = awareness_states(&a.awareness);
    parsed_states(&states)
}

/// The local peer's state, if set.
pub fn awareness_get_local_state(a: &NifAwareness) -> Option<yrs::Any> {
    awareness_local(&a.awareness)
}

/// Replaces the local peer's state.
pub fn awareness_set_local_state(a: &NifAwareness, state: yrs::Any) -> (r: Result<(), Error>)
    ensures
        r matches Err(e) ==> e is Awareness,
{
    match awareness_set_local(&a.awareness, state) {
        Ok(()) => Ok(()),
        Err(e) => Err(Error::Awareness(e)),
    }
}

/// Clears the local peer's state.
pub fn awareness_clean_local_state(a: &NifAwareness) {
    awareness_clean_local(&a.awareness)
}

/// Encodes the states of `clients`, or of every client holding one.
pub fn awareness_encode_update_v1(a: &NifAwareness, clients: Option<Vec<u64>>) -> (r: Result<Vec<u8>, Error>)
    ensures
        r matches Err(e) ==> e is Awareness,
{
    let update = match clients {
        Some(ids) => awareness_update_of(&a.awareness, ids),
        None => awareness_update_all(&a.awareness),
    };
    match update {
        Ok(u) => Ok(encode_awareness_update_v1(&u)),
        Err(e) => Err(Error::Awareness(e)),
    }
}

/// Applies an encoded awareness update, handing `origin`, if any, to the
/// observers.
pub fn awareness_apply_update_v1(a: &NifAwareness, update: &[u8], origin: Option<&[u8]>) -> (r: Result<(), Error>)
    ensures
        !awareness_update_safe(update@) ==> r matches Err(Error::MalformedPayload),
        awareness_update_safe(update@) && !decodes_awareness_update_v1(update@)
            ==> r matches Err(Error::Encoding(_)),
        r matches Err(e) ==> e == Error::MalformedPayload || e is Encoding || e is Awareness,
        awareness_update_safe(update@) ==> !(r matches Err(Error::MalformedPayload)),
        decodes_awareness_update_v1(update@) ==> !(r matches Err(Error::Encoding(_))),
{
    if !awareness_update_ok(update) {
        return Err(Error::MalformedPayload);
    }
    let u = match decode_awareness_update_v1(update) {
        Ok(u) => u,
        Err(e) => return Err(Error::Encoding(e)),
    };
    let applied = match origin {
        Some(o) => awareness_apply_with(&a.awareness, u, o),
        None => awareness_apply(&a.awareness, u),
    };
    match applied {
        Ok(()) => Ok(()),
        Err(e) => Err(Error::Awareness(e)),
    }
}

/// Marks each of `clients` as gone.
pub fn awareness_remove_states(a: &NifAwareness, clients: &Vec<u64>) {
    let mut i: usize = 0;
    while i < clients.len()
        invariant
            i <= clients@.len(),
        decreases clients@.len() - i,
    {
        awareness_remove(&a.awareness, clients[i]);
        i = i + 1;
    }
}

} // verus!
