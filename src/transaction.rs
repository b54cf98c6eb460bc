//! The document handle and its transaction slot.
//!
//! A [`NifDoc`] holds at most one explicit read-write transaction at a time,
//! opened by [`doc_begin_transaction`] and named by the token it hands out.
//! Each operation either works in that transaction (when given its live
//! token) or in a transaction of its own, opened for the call and committed
//! when the call ends.
//!
//! Isolation: an operation given the live token sees the pending writes of
//! the open transaction. An operation without it, while an explicit
//! transaction is open, fails at once with a transaction conflict: it neither
//! sees the pending writes nor waits for the commit.
use vstd::prelude::*;

use crate::doc::{perform, WriteOp, op_error, op_ok};
use crate::error::Error;
use crate::native::{try_transact, try_transact_mut, try_transact_mut_with};
use crate::undo_observer::next_id;

verus! {

/// Names an explicit transaction of one document handle. Once the
/// transaction is committed the token is inert: operations given it work in
/// a transaction of their own.
#[derive(Clone, Copy, Debug, PartialEq, Eq, Structural)]
pub struct TransactionResource {
    pub id: u64,
}

/// The document handle: the document, and its slot for one explicit
/// read-write transaction.
pub struct NifDoc<'d> {
    doc: &'d yrs::Doc,
    slot: Option<yrs::TransactionMut<'d>>,
    open: u64,
    next: u64,
    origin: Ghost<Option<Seq<u8>>>,
    opened: Ghost<nat>,
}

/// What a [`NifDoc`] holds.
pub struct DocView {
    /// An explicit transaction is open.
    pub live: bool,
    /// The token id of the open (or last) explicit transaction.
    pub open: u64,
    /// The id the next explicit transaction gets.
    pub next: u64,
    /// The origin the open (or last) explicit transaction was opened with.
    pub origin: Option<Seq<u8>>,
    /// How many transactions of their own operations have opened.
    pub opened: nat,
}

impl<'d> View for NifDoc<'d> {
    type V = DocView;

    closed spec fn view(&self) -> DocView {
        DocView {
            live: self.slot is Some,
            open: self.open,
            next: self.next,
            origin: self.origin@,
            opened: self.opened@,
        }
    }
}

/// `current` names the open explicit transaction of a handle in state `d`.
pub open spec fn uses_token(d: DocView, current: Option<TransactionResource>) -> bool {
    d.live && (current matches Some(t) && t.id == d.open)
}

impl<'d> NifDoc<'d> {
    /// A handle on `doc` with no explicit transaction; the first token is 1.
    pub fn new(doc: &'d yrs::Doc) -> (r: NifDoc<'d>)
        ensures
            !r@.live,
            r@.next == 1,
            r@.opened == 0,
    {
        NifDoc { doc, slot: None, open: 0, next: 1, origin: Ghost(None), opened: Ghost(0) }
    }

    /// The yrs document itself.
    pub fn native(&self) -> &'d yrs::Doc {
        self.doc
    }

    /// The open explicit transaction, if any.
    pub closed spec fn token_txn(&self) -> Option<yrs::TransactionMut<'d>> {
        self.slot
    }

    /// Whether `token` names the open explicit transaction.
    pub fn is_live(&self, token: TransactionResource) -> (r: bool)
        ensures
            r == uses_token(self@, Some(token)),
    {
        self.slot.is_some() && token.id == self.open
    }
}

/// Opens the explicit transaction of `doc`, carrying `origin` when given.
/// While one is open this fails with a transaction conflict and changes
/// nothing; it fails the same way, changing nothing, when yrs finds the
/// document held elsewhere.
pub fn doc_begin_transaction(doc: &mut NifDoc<'_>, origin: Option<&[u8]>) -> (r: Result<TransactionResource, Error>)
    ensures
        old(doc)@.live ==> (r matches Err(Error::Transaction) && final(doc)@ == old(doc)@),
        r matches Err(e) ==> e == Error::Transaction && final(doc)@ == old(doc)@,
        r matches Ok(t) ==> !old(doc)@.live && t.id == old(doc)@.next && final(doc)@ == (DocView {
            live: true,
            open: t.id,
            next: next_id(old(doc)@.next),
            origin: match origin { Some(o) => Some(o@), None => None },
            opened: old(doc)@.opened,
        }),
{
    if doc.slot.is_some() {
        return Err(Error::Transaction);
    }
    let acquired = match origin {
        Some(o) => try_transact_mut_with(doc.doc, o),
        None => try_transact_mut(doc.doc),
    };
    match acquired {
        Ok(txn) => {
            let id = doc.next;
            doc.slot = Some(txn);
            doc.open = id;
            doc.next = if id == u64::MAX { 0 } else { id + 1 };
            doc.origin = Ghost(match origin { Some(o) => Some(o@), None => None });
            Ok(TransactionResource { id })
        },
        Err(_) => Err(Error::Transaction),
    }
}

/// Commits the explicit transaction named by `token` (yrs commits a
/// transaction as it is dropped). Committing a token that is not live,
/// again or never opened, does nothing.
pub fn commit_transaction(doc: &mut NifDoc<'_>, token: TransactionResource)
    ensures
        uses_token(old(doc)@, Some(token)) ==> final(doc)@ == (DocView { live: false, ..old(doc)@ }),
        !uses_token(old(doc)@, Some(token)) ==> final(doc)@ == old(doc)@,
{
    if doc.slot.is_some() && token.id == doc.open {
        doc.slot = None;
    }
}

/// Performs `op` in the transaction `current` names, or in one of its own.
/// - With the live token: in the open transaction; no transaction is opened
///   and the token stays live.
/// - Without it, while an explicit transaction is open: a transaction
///   conflict, and nothing happens.
/// - With no explicit transaction open (a committed token included): in a
///   transaction of its own, committed when the call ends; a conflict when
///   yrs finds the document held elsewhere.
pub fn write_op(doc: &mut NifDoc<'_>, current: Option<TransactionResource>, op: WriteOp) -> (r: Result<(), Error>)
    requires
        op_ok(&op),
    ensures
        r matches Err(e) ==> e == Error::Transaction || op_error(e, &op),
        uses_token(old(doc)@, current) ==> final(doc)@ == old(doc)@ && !(r matches Err(Error::Transaction)),
        !uses_token(old(doc)@, current) && old(doc)@.live ==> (final(doc)@ == old(doc)@
            && r matches Err(Error::Transaction)),
        !old(doc)@.live ==> final(doc)@ == (DocView { opened: final(doc)@.opened, ..old(doc)@ }),
        !old(doc)@.live && r is Ok ==> final(doc)@.opened == old(doc)@.opened + 1,
{
    let in_token = match current {
        Some(t) => doc.slot.is_some() && t.id == doc.open,
        None => false,
    };
    if in_token {
        match &mut doc.slot {
            Some(txn) => perform(txn, op),
            None => Err(Error::Transaction),
        }
    } else if doc.slot.is_some() {
        Err(Error::Transaction)
    } else {
        match try_transact_mut(doc.doc) {
            Ok(mut txn) => {
                doc.opened = Ghost(doc.opened@ + 1);
                perform(&mut txn, op)
            },
            Err(_) => Err(Error::Transaction),
        }
    }
}

/// The transaction a read works in: the open explicit one, or a read-only
/// one of its own.
pub enum ReadTransaction<'a, 'd> {
    ReadWrite(&'a yrs::TransactionMut<'d>),
    ReadOnly(yrs::Transaction<'d>),
}

/// Chooses the transaction for a read, as [`write_op`] does: with the live token
/// the open explicit transaction itself, so that its pending writes are
/// seen; without it, while one is open, a transaction conflict; otherwise a
/// read-only transaction of its own, or a conflict when yrs refuses it.
pub fn read_scope<'a, 'd>(doc: &'a NifDoc<'d>, current: Option<TransactionResource>) -> (r: Result<ReadTransaction<'a, 'd>, Error>)
    ensures
        r matches Err(e) ==> e == Error::Transaction,
        uses_token(doc@, current) ==> (r matches Ok(ReadTransaction::ReadWrite(t)) && doc.token_txn() == Some(*t)),
        !uses_token(doc@, current) && doc@.live ==> r matches Err(Error::Transaction),
        !doc@.live ==> !(r matches Ok(ReadTransaction::ReadWrite(_))),
{
    let in_token = match current {
        Some(t) => doc.slot.is_some() && t.id == doc.open,
        None => false,
    };
    if in_token {
        match &doc.slot {
            Some(txn) => Ok(ReadTransaction::ReadWrite(txn)),
            None => Err(Error::Transaction),
        }
    } else if doc.slot.is_some() {
        Err(Error::Transaction)
    } else {
        match try_transact(doc.doc) {
            Ok(txn) => Ok(ReadTransaction::ReadOnly(txn)),
            Err(_) => Err(Error::Transaction),
        }
    }
}

} // verus!
