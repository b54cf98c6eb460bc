//! Undo and redo over a chosen set of shared types.
use vstd::prelude::*;

use crate::error::{Error, SharedKind};
use crate::native::{
    undo_can_redo, undo_can_undo, undo_exclude_origin, undo_expand_scope, undo_include_origin,
    undo_reset, undo_try_redo, undo_try_undo,
};
use crate::shared_type::{
    resolution_error, resolve_array, resolve_map, resolve_text, resolve_xml_element,
    resolve_xml_fragment, resolve_xml_text, BranchView, SharedTypeId,
};
use crate::transaction::NifDoc;

verus! {

/// An undo manager of one document, with the scopes handed to it through
/// this library.
pub struct NifUndoManager {
    manager: yrs::UndoManager,
    scopes: Ghost<Seq<BranchView>>,
}

/// A shared type an undo manager can track: every kind but weak links.
pub open spec fn undo_scope_kind(kind: SharedKind) -> bool {
    kind != SharedKind::YWeakLink
}

impl NifUndoManager {
    /// Wraps a yrs undo manager made for `scope`. (yrs registers the
    /// manager's observers with `unwrap`, which fails while another
    /// transaction holds the document, so the host makes the manager.)
    pub fn from_native(manager: yrs::UndoManager, scope: &SharedTypeId) -> (r: NifUndoManager)
        ensures
            r.scopes() == Seq::<BranchView>::empty().push(scope.branch@),
    {
        let scopes = Ghost(Seq::empty().push(scope.branch@));
        NifUndoManager { manager, scopes }
    }

    /// The scopes handed to this manager, in order.
    pub closed spec fn scopes(&self) -> Seq<BranchView> {
        self.scopes@
    }

    /// The yrs undo manager itself.
    pub fn native(&mut self) -> &mut yrs::UndoManager {
        &mut self.manager
    }
}

/// Tracks `scope` too: on success the scope is added to the scopes ones; a
/// scope that cannot be resolved (deleted, or the document held by an
/// explicit transaction) gives its error and changes nothing.
pub fn undo_manager_expand_scope(m: &mut NifUndoManager, doc: &NifDoc<'_>, scope: &SharedTypeId) -> (r: Result<(), Error>)
    requires
        undo_scope_kind(scope.kind),
    ensures
        r matches Err(e) ==> resolution_error(e, scope),
        r is Ok ==> final(m).scopes() == old(m).scopes().push(scope.branch@),
        r is Err ==> final(m).scopes() == old(m).scopes(),
        doc@.live ==> r matches Err(Error::Transaction),
{
    match scope.kind {
        SharedKind::YText => undo_expand_scope(&mut m.manager, &resolve_text(doc, None, scope)?),
        SharedKind::YArray => undo_expand_scope(&mut m.manager, &resolve_array(doc, None, scope)?),
        SharedKind::YMap => undo_expand_scope(&mut m.manager, &resolve_map(doc, None, scope)?),
        SharedKind::YXmlFragment => undo_expand_scope(&mut m.manager, &resolve_xml_fragment(doc, None, scope)?),
        SharedKind::YXmlElement => undo_expand_scope(&mut m.manager, &resolve_xml_element(doc, None, scope)?),
        SharedKind::YXmlText => undo_expand_scope(&mut m.manager, &resolve_xml_text(doc, None, scope)?),
        SharedKind::YWeakLink => {
            proof {
                assert(false);
            }
        },
    }
    m.scopes = Ghost(m.scopes@.push(scope.branch@));
    Ok(())
}

/// Tracks changes made under `origin`.
pub fn undo_manager_include_origin(m: &mut NifUndoManager, origin: &[u8]) {
    undo_include_origin(&mut m.manager, origin)
}

/// Stops tracking changes made under `origin`.
pub fn undo_manager_exclude_origin(m: &mut NifUndoManager, origin: &[u8]) {
    undo_exclude_origin(&mut m.manager, origin)
}

/// Reverts the last step, if there is one; `Ok(false)` when there is none
/// or it changed nothing. Fails with a transaction conflict, rather than
/// waiting, while another transaction holds the document.
pub fn undo_manager_undo(m: &mut NifUndoManager) -> (r: Result<bool, Error>)
    ensures
        r matches Err(e) ==> e == Error::Transaction,
{
    if undo_can_undo(&m.manager) {
        match undo_try_undo(&mut m.manager) {
            Ok(changed) => Ok(changed),
            Err(_) => Err(Error::Transaction),
        }
    } else {
        Ok(false)
    }
}

/// Reapplies the last reverted step, if there is one, as
/// [`undo_manager_undo`] does.
pub fn undo_manager_redo(m: &mut NifUndoManager) -> (r: Result<bool, Error>)
    ensures
        r matches Err(e) ==> e == Error::Transaction,
{
    if undo_can_redo(&m.manager) {
        match undo_try_redo(&mut m.manager) {
            Ok(changed) => Ok(changed),
            Err(_) => Err(Error::Transaction),
        }
    } else {
        Ok(false)
    }
}

/// Ends the current step: the next change starts a new one.
pub fn undo_manager_stop_capturing(m: &mut NifUndoManager) {
    undo_reset(&mut m.manager)
}

} // verus!
