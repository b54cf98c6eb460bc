//! Stable identities of shared types. A handle names a branch of the
//! document tree by its logical coordinates (a root name, or the id of the
//! item that created a nested type), never by address, and is resolved anew
//! inside each transaction.
use vstd::prelude::*;

use crate::error::{Error, SharedKind};
use crate::native::resolve_hook;
use crate::transaction::{read_scope, uses_token, NifDoc, ReadTransaction, TransactionResource};

verus! {

/// The logical coordinates of a branch.
#[derive(Clone, Debug, PartialEq, Eq)]
pub enum BranchIdent {
    /// A root-level shared type, by name.
    Root(String),
    /// A nested shared type, by the id (client, clock) of the item holding it.
    Nested(u64, u32),
}

/// What a [`BranchIdent`] says.
pub enum BranchView {
    Root(Seq<char>),
    Nested(u64, u32),
}

impl View for BranchIdent {
    type V = BranchView;

    open spec fn view(&self) -> BranchView {
        match self {
            BranchIdent::Root(name) => BranchView::Root(name@),
            BranchIdent::Nested(client, clock) => BranchView::Nested(*client, *clock),
        }
    }
}

/// A transaction-independent handle on a shared type.
#[derive(Clone, Debug, PartialEq, Eq)]
pub struct SharedTypeId {
    pub kind: SharedKind,
    pub branch: BranchIdent,
}

/// A failure that only resolution or acquisition can cause.
pub open spec fn resolution_error(e: Error, handle: &SharedTypeId) -> bool {
    e == Error::Transaction || e == Error::Deleted(handle.kind)
}

impl SharedTypeId {
    /// The handle of the root-level shared type `name` of the given kind.
    pub fn root(kind: SharedKind, name: &str) -> (r: SharedTypeId)
        ensures
            r.kind == kind,
            r.branch@ == BranchView::Root(name@),
    {
        SharedTypeId { kind, branch: BranchIdent::Root(name.to_owned()) }
    }

    /// The handle of a nested shared type created by item (client, clock).
    pub fn nested(kind: SharedKind, client: u64, clock: u32) -> (r: SharedTypeId)
        ensures
            r.kind == kind,
            r.branch@ == BranchView::Nested(client, clock),
    {
        SharedTypeId { kind, branch: BranchIdent::Nested(client, clock) }
    }

    /// A copy of this handle.
    pub fn clone_id(&self) -> (r: SharedTypeId)
        ensures
            r.kind == self.kind,
            r.branch@ == self.branch@,
    {
        let branch = match &self.branch {
            BranchIdent::Root(name) => BranchIdent::Root(name.clone()),
            BranchIdent::Nested(client, clock) => BranchIdent::Nested(*client, *clock),
        };
        SharedTypeId { kind: self.kind, branch }
    }

    /// The error reported when this handle no longer resolves.
    pub fn deleted_error(&self) -> (r: Error)
        ensures
            r == Error::Deleted(self.kind),
    {
        Error::Deleted(self.kind)
    }

    /// Turns the outcome of a resolution into the live branch, or the
    /// deleted-reference error of this handle.
    pub fn found<S>(&self, found: Option<S>) -> (r: Result<S, Error>)
        ensures
            found matches Some(b) ==> r == Ok::<S, Error>(b),
            found is None ==> r == Err::<S, Error>(Error::Deleted(self.kind)),
    {
        match found {
            Some(b) => Ok(b),
            None => Err(self.deleted_error()),
        }
    }
}

/// `Some` when `handle` resolves inside `txn` to a live shared type of its kind.
fn resolves_with(handle: &SharedTypeId, scope: &ReadTransaction<'_, '_>) -> (r: Option<()>)
{
    match scope {
        ReadTransaction::ReadWrite(t) => match handle.kind {
            SharedKind::YText => resolve_hook::<yrs::TextRef, _>(&handle.branch, *t).map(|_found| ()),
            SharedKind::YArray => resolve_hook::<yrs::ArrayRef, _>(&handle.branch, *t).map(|_found| ()),
            SharedKind::YMap => resolve_hook::<yrs::MapRef, _>(&handle.branch, *t).map(|_found| ()),
            SharedKind::YXmlFragment => resolve_hook::<yrs::XmlFragmentRef, _>(&handle.branch, *t).map(|_found| ()),
            SharedKind::YXmlElement => resolve_hook::<yrs::XmlElementRef, _>(&handle.branch, *t).map(|_found| ()),
            SharedKind::YXmlText => resolve_hook::<yrs::XmlTextRef, _>(&handle.branch, *t).map(|_found| ()),
            SharedKind::YWeakLink => resolve_hook::<yrs::WeakRef<yrs::branch::BranchPtr>, _>(&handle.branch, *t).map(|_found| ()),
        },
        ReadTransaction::ReadOnly(t) => match handle.kind {
            SharedKind::YText => resolve_hook::<yrs::TextRef, _>(&handle.branch, t).map(|_found| ()),
            SharedKind::YArray => resolve_hook::<yrs::ArrayRef, _>(&handle.branch, t).map(|_found| ()),
            SharedKind::YMap => resolve_hook::<yrs::MapRef, _>(&handle.branch, t).map(|_found| ()),
            SharedKind::YXmlFragment => resolve_hook::<yrs::XmlFragmentRef, _>(&handle.branch, t).map(|_found| ()),
            SharedKind::YXmlElement => resolve_hook::<yrs::XmlElementRef, _>(&handle.branch, t).map(|_found| ()),
            SharedKind::YXmlText => resolve_hook::<yrs::XmlTextRef, _>(&handle.branch, t).map(|_found| ()),
            SharedKind::YWeakLink => resolve_hook::<yrs::WeakRef<yrs::branch::BranchPtr>, _>(&handle.branch, t).map(|_found| ()),
        },
    }
}

/// Resolves `handle` inside `current`'s transaction, or a read-only one of its
/// own: `Ok` while its shared type is alive, the deleted-reference error of
/// the handle once it has been removed.
pub fn get_ref(doc: &NifDoc<'_>, current: Option<TransactionResource>, handle: &SharedTypeId) -> (r: Result<(), Error>)
    ensures
        r matches Err(e) ==> e == Error::Transaction || e == Error::Deleted(handle.kind),
        uses_token(doc@, current) ==> !(r matches Err(Error::Transaction)),
        !uses_token(doc@, current) && doc@.live ==> r matches Err(Error::Transaction),
{
    let scope = read_scope(doc, current)?;
    handle.found(resolves_with(handle, &scope))
}

/// The live text that `handle` points at, found inside `current`'s
/// transaction or a read-only one of its own.
pub fn resolve_text(doc: &NifDoc<'_>, current: Option<TransactionResource>, handle: &SharedTypeId) -> (r: Result<yrs::TextRef, Error>)
    requires
        handle.kind == SharedKind::YText,
    ensures
        r matches Err(e) ==> e == Error::Transaction || e == Error::Deleted(handle.kind),
        uses_token(doc@, current) ==> !(r matches Err(Error::Transaction)),
        !uses_token(doc@, current) && doc@.live ==> r matches Err(Error::Transaction),
{
    let found = match read_scope(doc, current)? {
        ReadTransaction::ReadWrite(t) => resolve_hook::<yrs::TextRef, _>(&handle.branch, t),
        ReadTransaction::ReadOnly(t) => resolve_hook::<yrs::TextRef, _>(&handle.branch, &t),
    };
    handle.found(found)
}

/// The live array that `handle` points at, found inside `current`'s
/// transaction or a read-only one of its own.
pub fn resolve_array(doc: &NifDoc<'_>, current: Option<TransactionResource>, handle: &SharedTypeId) -> (r: Result<yrs::ArrayRef, Error>)
    requires
        handle.kind == SharedKind::YArray,
    ensures
        r matches Err(e) ==> e == Error::Transaction || e == Error::Deleted(handle.kind),
        uses_token(doc@, current) ==> !(r matches Err(Error::Transaction)),
        !uses_token(doc@, current) && doc@.live ==> r matches Err(Error::Transaction),
{
    let found = match read_scope(doc, current)? {
        ReadTransaction::ReadWrite(t) => resolve_hook::<yrs::ArrayRef, _>(&handle.branch, t),
        ReadTransaction::ReadOnly(t) => resolve_hook::<yrs::ArrayRef, _>(&handle.branch, &t),
    };
    handle.found(found)
}

/// The live map that `handle` points at, found inside `current`'s
/// transaction or a read-only one of its own.
pub fn resolve_map(doc: &NifDoc<'_>, current: Option<TransactionResource>, handle: &SharedTypeId) -> (r: Result<yrs::MapRef, Error>)
    requires
        handle.kind == SharedKind::YMap,
    ensures
        r matches Err(e) ==> e == Error::Transaction || e == Error::Deleted(handle.kind),
        uses_token(doc@, current) ==> !(r matches Err(Error::Transaction)),
        !uses_token(doc@, current) && doc@.live ==> r matches Err(Error::Transaction),
{
    let found = match read_scope(doc, current)? {
        ReadTransaction::ReadWrite(t) => resolve_hook::<yrs::MapRef, _>(&handle.branch, t),
        ReadTransaction::ReadOnly(t) => resolve_hook::<yrs::MapRef, _>(&handle.branch, &t),
    };
    handle.found(found)
}

/// The live xml fragment that `handle` points at, found inside `current`'s
/// transaction or a read-only one of its own.
pub fn resolve_xml_fragment(doc: &NifDoc<'_>, current: Option<TransactionResource>, handle: &SharedTypeId) -> (r: Result<yrs::XmlFragmentRef, Error>)
    requires
        handle.kind == SharedKind::YXmlFragment,
    ensures
        r matches Err(e) ==> e == Error::Transaction || e == Error::Deleted(handle.kind),
        uses_token(doc@, current) ==> !(r matches Err(Error::Transaction)),
        !uses_token(doc@, current) && doc@.live ==> r matches Err(Error::Transaction),
{
    let found = match read_scope(doc, current)? {
        ReadTransaction::ReadWrite(t) => resolve_hook::<yrs::XmlFragmentRef, _>(&handle.branch, t),
        ReadTransaction::ReadOnly(t) => resolve_hook::<yrs::XmlFragmentRef, _>(&handle.branch, &t),
    };
    handle.found(found)
}

/// The live xml element that `handle` points at, found inside `current`'s
/// transaction or a read-only one of its own.
pub fn resolve_xml_element(doc: &NifDoc<'_>, current: Option<TransactionResource>, handle: &SharedTypeId) -> (r: Result<yrs::XmlElementRef, Error>)
    requires
        handle.kind == SharedKind::YXmlElement,
    ensures
        r matches Err(e) ==> e == Error::Transaction || e == Error::Deleted(handle.kind),
        uses_token(doc@, current) ==> !(r matches Err(Error::Transaction)),
        !uses_token(doc@, current) && doc@.live ==> r matches Err(Error::Transaction),
{
    let found = match read_scope(doc, current)? {
        ReadTransaction::ReadWrite(t) => resolve_hook::<yrs::XmlElementRef, _>(&handle.branch, t),
        ReadTransaction::ReadOnly(t) => resolve_hook::<yrs::XmlElementRef, _>(&handle.branch, &t),
    };
    handle.found(found)
}

/// The live xml text that `handle` points at, found inside `current`'s
/// transaction or a read-only one of its own.
pub fn resolve_xml_text(doc: &NifDoc<'_>, current: Option<TransactionResource>, handle: &SharedTypeId) -> (r: Result<yrs::XmlTextRef, Error>)
    requires
        handle.kind == SharedKind::YXmlText,
    ensures
        r matches Err(e) ==> e == Error::Transaction || e == Error::Deleted(handle.kind),
        uses_token(doc@, current) ==> !(r matches Err(Error::Transaction)),
        !uses_token(doc@, current) && doc@.live ==> r matches Err(Error::Transaction),
{
    let found = match read_scope(doc, current)? {
        ReadTransaction::ReadWrite(t) => resolve_hook::<yrs::XmlTextRef, _>(&handle.branch, t),
        ReadTransaction::ReadOnly(t) => resolve_hook::<yrs::XmlTextRef, _>(&handle.branch, &t),
    };
    handle.found(found)
}

} // verus!
