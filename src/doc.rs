//! Documents: creation, root shared types, updates and their encodings.
use vstd::prelude::*;

use crate::error::{Error, SharedKind};
use crate::layout::{count_safe, state_vector_v1_ok, v2_layout_ok, v2_layout_safe};
use crate::native::{
    apply_update as integrate_update, decode_state_vector_v1, decode_state_vector_v2,
    decodes_state_vector_v1, decodes_state_vector_v2, doc_with_options as new_doc_with,
    empty_state_vector, encode_diff_v1, encode_diff_v2, encode_state_vector_v1 as sv_bytes_v1,
    encode_state_vector_v2 as sv_bytes_v2, map_insert, map_remove, new_doc, random_guid,
    resolve_hook, root_array_in, root_map_in, root_text_in, root_xml_fragment_in, state_vector_of,
};
use crate::shared_type::{BranchView, SharedTypeId};
use crate::transaction::{
    read_scope, uses_token, write_op, DocView, NifDoc, ReadTransaction, TransactionResource,
};

verus! {

/// How text offsets and lengths are counted.
#[derive(Clone, Copy, Debug, PartialEq, Eq, Structural)]
pub enum NifOffsetKind {
    Bytes,
    Utf16,
}

/// Options of a new document.
#[derive(Clone, Debug)]
pub struct NifOptions {
    /// Identifier of this peer; must be unique among collaborating peers.
    pub client_id: u64,
    /// Globally unique identifier of the document; random when absent.
    pub guid: Option<String>,
    /// Collection the document belongs to.
    pub collection_id: Option<String>,
    pub offset_kind: NifOffsetKind,
    /// Whether commits skip garbage-collecting deleted items.
    pub skip_gc: bool,
    /// Whether a sub-document loads automatically.
    pub auto_load: bool,
    /// Whether the provider should sync the document now.
    pub should_load: bool,
}

/// The yrs offset kind of an offset kind.
pub fn native_offset_kind(k: NifOffsetKind) -> (r: yrs::OffsetKind)
    ensures
        k == NifOffsetKind::Bytes ==> r == yrs::OffsetKind::Bytes,
        k == NifOffsetKind::Utf16 ==> r == yrs::OffsetKind::Utf16,
{
    match k {
        NifOffsetKind::Bytes => yrs::OffsetKind::Bytes,
        NifOffsetKind::Utf16 => yrs::OffsetKind::Utf16,
    }
}

/// The offset kind of a yrs offset kind.
pub fn offset_kind_from_native(k: yrs::OffsetKind) -> (r: NifOffsetKind)
    ensures
        k == yrs::OffsetKind::Bytes ==> r == NifOffsetKind::Bytes,
        k == yrs::OffsetKind::Utf16 ==> r == NifOffsetKind::Utf16,
{
    match k {
        yrs::OffsetKind::Bytes => NifOffsetKind::Bytes,
        yrs::OffsetKind::Utf16 => NifOffsetKind::Utf16,
    }
}

/// A new empty document with default options.
pub fn doc_new() -> yrs::Doc {
    new_doc()
}

/// A new empty document with the given options; a random identifier stands
/// in for a missing one.
pub fn doc_with_options(options: NifOptions) -> yrs::Doc {
    let guid = match options.guid {
        Some(g) => g,
        None => random_guid(),
    };
    new_doc_with(
        options.client_id,
        guid,
        options.collection_id,
        native_offset_kind(options.offset_kind),
        options.skip_gc,
        options.auto_load,
        options.should_load,
    )
}

/// A change to a document.
pub enum WriteOp {
    /// Integrate a decoded update.
    Update(yrs::Update),
    /// Set a key of a map.
    MapInsert(SharedTypeId, String, yrs::Any),
    /// Remove a key of a map.
    MapRemove(SharedTypeId, String),
    /// Create the root shared type of that kind and name, if missing.
    Root(SharedKind, String),
}

/// The kinds a change applies to: maps for map edits; text, array, map or
/// XML fragment for roots.
pub open spec fn op_ok(op: &WriteOp) -> bool {
    match op {
        WriteOp::Update(_) => true,
        WriteOp::MapInsert(h, _, _) => h.kind == SharedKind::YMap,
        WriteOp::MapRemove(h, _) => h.kind == SharedKind::YMap,
        WriteOp::Root(k, _) => *k == SharedKind::YText || *k == SharedKind::YArray
            || *k == SharedKind::YMap || *k == SharedKind::YXmlFragment,
    }
}

/// The errors a change itself can give: yrs refusing an update, or the
/// deleted-reference error of a map that no longer resolves.
pub open spec fn op_error(e: Error, op: &WriteOp) -> bool {
    match op {
        WriteOp::Update(_) => e is Update,
        WriteOp::MapInsert(h, _, _) => e == Error::Deleted(h.kind),
        WriteOp::MapRemove(h, _) => e == Error::Deleted(h.kind),
        WriteOp::Root(_, _) => false,
    }
}

/// The outcome of integrating an update, as a bridge error.
pub fn update_outcome(applied: Result<(), yrs::error::UpdateError>) -> (r: Result<(), Error>)
    ensures
        applied is Ok <==> r is Ok,
        applied matches Err(u) ==> r matches Err(e) && e == Error::Update(u),
{
    match applied {
        Ok(()) => Ok(()),
        Err(e) => Err(Error::Update(e)),
    }
}

/// Performs `op` inside `txn`.
pub(crate) fn perform(txn: &mut yrs::TransactionMut<'_>, op: WriteOp) -> (r: Result<(), Error>)
    requires
        op_ok(&op),
    ensures
        r matches Err(e) ==> op_error(e, &op),
{
    match op {
        WriteOp::Update(u) => update_outcome(integrate_update(txn, u)),
        WriteOp::MapInsert(map, key, value) => {
            let m = map.found(resolve_hook::<yrs::MapRef, _>(&map.branch, &*txn))?;
            map_insert(&m, txn, key.as_str(), value);
            Ok(())
        },
        WriteOp::MapRemove(map, key) => {
            let m = map.found(resolve_hook::<yrs::MapRef, _>(&map.branch, &*txn))?;
            map_remove(&m, txn, key.as_str());
            Ok(())
        },
        WriteOp::Root(kind, name) => {
            match kind {
                SharedKind::YText => {
                    let _ = root_text_in(txn, name.as_str());
                },
                SharedKind::YArray => {
                    let _ = root_array_in(txn, name.as_str());
                },
                SharedKind::YMap => {
                    let _ = root_map_in(txn, name.as_str());
                },
                _ => {
                    let _ = root_xml_fragment_in(txn, name.as_str());
                },
            }
            Ok(())
        },
    }
}

/// The outcome of a write through `write_op`, for a change that cannot fail
/// by itself: it fails only with a conflict, exactly when the handle is held
/// by an explicit transaction that `current` does not name, or yrs refuses a
/// transaction of its own.
pub open spec fn root_outcome(old: DocView, current: Option<TransactionResource>, r: Result<SharedTypeId, Error>) -> bool {
    &&& r matches Err(e) ==> e == Error::Transaction
    &&& uses_token(old, current) ==> r is Ok
    &&& !uses_token(old, current) && old.live ==> r is Err
}

/// The handle of the root text `name`, created if missing, in the transaction
/// `current` names or one of its own (see `write_op`).
pub fn doc_get_or_insert_text(doc: &mut NifDoc<'_>, current: Option<TransactionResource>, name: &str) -> (r: Result<SharedTypeId, Error>)
    ensures
        root_outcome(old(doc)@, current, r),
        r matches Ok(h) ==> h.kind == SharedKind::YText && h.branch@ == BranchView::Root(name@),
        uses_token(old(doc)@, current) || old(doc)@.live ==> final(doc)@ == old(doc)@,
{
    write_op(doc, current, WriteOp::Root(SharedKind::YText, name.to_owned()))?;
    Ok(SharedTypeId::root(SharedKind::YText, name))
}

/// The handle of the root array `name`, created if missing, in the transaction
/// `current` names or one of its own (see `write_op`).
pub fn doc_get_or_insert_array(doc: &mut NifDoc<'_>, current: Option<TransactionResource>, name: &str) -> (r: Result<SharedTypeId, Error>)
    ensures
        root_outcome(old(doc)@, current, r),
        r matches Ok(h) ==> h.kind == SharedKind::YArray && h.branch@ == BranchView::Root(name@),
        uses_token(old(doc)@, current) || old(doc)@.live ==> final(doc)@ == old(doc)@,
{
    write_op(doc, current, WriteOp::Root(SharedKind::YArray, name.to_owned()))?;
    Ok(SharedTypeId::root(SharedKind::YArray, name))
}

/// The handle of the root map `name`, created if missing, in the transaction
/// `current` names or one of its own (see `write_op`).
pub fn doc_get_or_insert_map(doc: &mut NifDoc<'_>, current: Option<TransactionResource>, name: &str) -> (r: Result<SharedTypeId, Error>)
    ensures
        root_outcome(old(doc)@, current, r),
        r matches Ok(h) ==> h.kind == SharedKind::YMap && h.branch@ == BranchView::Root(name@),
        uses_token(old(doc)@, current) || old(doc)@.live ==> final(doc)@ == old(doc)@,
{
    write_op(doc, current, WriteOp::Root(SharedKind::YMap, name.to_owned()))?;
    Ok(SharedTypeId::root(SharedKind::YMap, name))
}

/// The handle of the root XML fragment `name`, created if missing, in the transaction
/// `current` names or one of its own (see `write_op`).
pub fn doc_get_or_insert_xml_fragment(doc: &mut NifDoc<'_>, current: Option<TransactionResource>, name: &str) -> (r: Result<SharedTypeId, Error>)
    ensures
        root_outcome(old(doc)@, current, r),
        r matches Ok(h) ==> h.kind == SharedKind::YXmlFragment && h.branch@ == BranchView::Root(name@),
        uses_token(old(doc)@, current) || old(doc)@.live ==> final(doc)@ == old(doc)@,
{
    write_op(doc, current, WriteOp::Root(SharedKind::YXmlFragment, name.to_owned()))?;
    Ok(SharedTypeId::root(SharedKind::YXmlFragment, name))
}

/// Integrates a decoded update, in the transaction `current` names or one of
/// its own (see `write_op`).
pub fn apply_update(doc: &mut NifDoc<'_>, current: Option<TransactionResource>, update: yrs::Update) -> (r: Result<(), Error>)
    ensures
        r matches Err(e) ==> e == Error::Transaction || e is Update,
        uses_token(old(doc)@, current) ==> final(doc)@ == old(doc)@ && !(r matches Err(Error::Transaction)),
        !uses_token(old(doc)@, current) && old(doc)@.live ==> (final(doc)@ == old(doc)@
            && r matches Err(Error::Transaction)),
        !old(doc)@.live && r is Ok ==> final(doc)@.opened == old(doc)@.opened + 1,
{
    write_op(doc, current, WriteOp::Update(update))
}

/// Encodes the document's state vector in the v1 encoding.
pub fn encode_state_vector_v1(doc: &NifDoc<'_>, current: Option<TransactionResource>) -> (r: Result<Vec<u8>, Error>)
    ensures
        r matches Err(e) ==> e == Error::Transaction,
        uses_token(doc@, current) ==> r is Ok,
        !uses_token(doc@, current) && doc@.live ==> r matches Err(Error::Transaction),
{
    let sv = match read_scope(doc, current)? {
        ReadTransaction::ReadWrite(t) => state_vector_of(t),
        ReadTransaction::ReadOnly(t) => state_vector_of(&t),
    };
    Ok(sv_bytes_v1(&sv))
}

/// The given state vector, if any, decodes in the v1 encoding.
pub open spec fn state_vector_decodes_v1(state_vector: Option<&[u8]>) -> bool {
    match state_vector {
        Some(b) => count_safe(b@) && decodes_state_vector_v1(b@),
        None => true,
    }
}

/// Encodes, in the v1 encoding, the update holding everything the document
/// has beyond `state_vector` (everything, when it is absent).
pub fn encode_state_as_update_v1(
    doc: &NifDoc<'_>,
    current: Option<TransactionResource>,
    state_vector: Option<&[u8]>,
) -> (r: Result<Vec<u8>, Error>)
    ensures
        (state_vector matches Some(b) && !count_safe(b@)) ==> r matches Err(Error::MalformedPayload),
        (state_vector matches Some(b) && count_safe(b@) && !decodes_state_vector_v1(b@))
            ==> r matches Err(Error::Encoding(_)),
        r matches Err(e) ==> e == Error::MalformedPayload || e is Encoding || e == Error::Transaction,
        (state_vector matches Some(b) && count_safe(b@)) ==> !(r matches Err(Error::MalformedPayload)),
        state_vector_decodes_v1(state_vector) ==> !(r matches Err(Error::Encoding(_))),
        state_vector_decodes_v1(state_vector) && uses_token(doc@, current) ==> r is Ok,
        !uses_token(doc@, current) && doc@.live ==> r is Err,
{
    let sv = match state_vector {
        Some(b) => {
            if !state_vector_v1_ok(b) {
                return Err(Error::MalformedPayload);
            }
            match decode_state_vector_v1(b) {
                Ok(sv) => sv,
                Err(e) => return Err(Error::Encoding(e)),
            }
        },
        None => empty_state_vector(),
    };
    let update = match read_scope(doc, current)? {
        ReadTransaction::ReadWrite(t) => encode_diff_v1(t, &sv),
        ReadTransaction::ReadOnly(t) => encode_diff_v1(&t, &sv),
    };
    Ok(update)
}

/// Encodes the document's state vector in the v2 encoding.
pub fn encode_state_vector_v2(doc: &NifDoc<'_>, current: Option<TransactionResource>) -> (r: Result<Vec<u8>, Error>)
    ensures
        r matches Err(e) ==> e == Error::Transaction,
        uses_token(doc@, current) ==> r is Ok,
        !uses_token(doc@, current) && doc@.live ==> r matches Err(Error::Transaction),
{
    let sv = match read_scope(doc, current)? {
        ReadTransaction::ReadWrite(t) => state_vector_of(t),
        ReadTransaction::ReadOnly(t) => state_vector_of(&t),
    };
    Ok(sv_bytes_v2(&sv))
}

/// The given state vector, if any, decodes in the v2 encoding.
pub open spec fn state_vector_decodes_v2(state_vector: Option<&[u8]>) -> bool {
    match state_vector {
        Some(b) => v2_layout_safe(b@) && decodes_state_vector_v2(b@),
        None => true,
    }
}

/// Encodes, in the v2 encoding, the update holding everything the document
/// has beyond `state_vector` (everything, when it is absent).
pub fn encode_state_as_update_v2(
    doc: &NifDoc<'_>,
    current: Option<TransactionResource>,
    state_vector: Option<&[u8]>,
) -> (r: Result<Vec<u8>, Error>)
    ensures
        (state_vector matches Some(b) && !v2_layout_safe(b@)) ==> r matches Err(Error::MalformedPayload),
        (state_vector matches Some(b) && v2_layout_safe(b@) && !decodes_state_vector_v2(b@))
            ==> r matches Err(Error::Encoding(_)),
        r matches Err(e) ==> e == Error::MalformedPayload || e is Encoding || e == Error::Transaction,
        (state_vector matches Some(b) && v2_layout_safe(b@)) ==> !(r matches Err(Error::MalformedPayload)),
        state_vector_decodes_v2(state_vector) ==> !(r matches Err(Error::Encoding(_))),
        state_vector_decodes_v2(state_vector) && uses_token(doc@, current) ==> r is Ok,
        !uses_token(doc@, current) && doc@.live ==> r is Err,
{
    let sv = match state_vector {
        Some(b) => {
            if !v2_layout_ok(b) {
                return Err(Error::MalformedPayload);
            }
            match decode_state_vector_v2(b) {
                Ok(sv) => sv,
                Err(e) => return Err(Error::Encoding(e)),
            }
        },
        None => empty_state_vector(),
    };
    let update = match read_scope(doc, current)? {
        ReadTransaction::ReadWrite(t) => encode_diff_v2(t, &sv),
        ReadTransaction::ReadOnly(t) => encode_diff_v2(&t, &sv),
    };
    Ok(update)
}

} // verus!
