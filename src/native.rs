//! The yrs items this library relies on: the types it carries through, and a
//! wrapper for each yrs function it calls, with what that function does.
use vstd::prelude::*;
use yrs::encoding::write::Write as _;
use yrs::encoding::read::Error as ReadError;
use yrs::error::UpdateError;
use yrs::sync::awareness::Error as AwarenessError;

use crate::layout::{awareness_update_safe, count_safe, v2_layout_safe};
use crate::shared_type::BranchIdent;

verus! {

/// A decoding failure reported by yrs's binary reader.
#[verifier::external_type_specification]
#[verifier::external_body]
pub struct ExReadError(ReadError);

/// A failure of yrs while integrating a decoded update.
#[verifier::external_type_specification]
#[verifier::external_body]
pub struct ExUpdateError(UpdateError);

/// Unsigned LEB128: seven bits per byte, least significant group first, the
/// high bit set on every byte but the last.
pub open spec fn var_bytes(n: nat) -> Seq<u8>
    decreases n,
{
    if n < 128 {
        seq![n as u8]
    } else {
        seq![((n % 128) + 128) as u8] + var_bytes(n / 128)
    }
}

/// A length-prefixed byte buffer.
pub open spec fn buf_bytes(data: Seq<u8>) -> Seq<u8> {
    var_bytes(data.len()) + data
}

/// Relies on yrs's `Write::write_var` for `Vec<u8>` (`write_var_u32`):
/// appends the LEB128 form of `v`.
#[verifier::external_body]
pub(crate) fn write_var_u32(out: &mut Vec<u8>, v: u32)
    ensures
        final(out)@ == old(out)@ + var_bytes(v as nat),
{
    out.write_var(v)
}

/// Relies on yrs's `Write::write_buf` for `Vec<u8>`: the LEB128 length of
/// `data` (`write_var_u64` over `usize`), then `data` itself.
#[verifier::external_body]
pub(crate) fn write_buf(out: &mut Vec<u8>, data: &[u8])
    ensures
        final(out)@ == old(out)@ + buf_bytes(data@),
{
    out.write_buf(data)
}

/// The LEB128 value at the start of `s` and the number of bytes it takes,
/// if `s` starts with one.
pub open spec fn lead_var(s: Seq<u8>) -> Option<(nat, nat)>
    decreases s.len(),
{
    if s.len() == 0 {
        None
    } else if s[0] < 128 {
        Some((s[0] as nat, 1))
    } else {
        match lead_var(s.drop_first()) {
            Some((v, l)) => Some((((s[0] - 128) + 128 * v) as nat, l + 1)),
            None => None,
        }
    }
}

/// `buf` from position `pos` on.
pub open spec fn rest(buf: Seq<u8>, pos: int) -> Seq<u8> {
    buf.subrange(pos, buf.len() as int)
}

/// Relies on std's `String::from_utf8`: it succeeds exactly on valid UTF-8,
/// and the string then holds those bytes.
#[verifier::external_body]
pub(crate) fn utf8_to_string(bytes: Vec<u8>) -> (r: Option<String>)
    ensures
        r is Some <==> vstd::utf8::valid_utf8(bytes@),
        r matches Some(s) ==> vstd::utf8::encode_utf8(s@) == bytes@,
{
    String::from_utf8(bytes).ok()
}


/// A yrs document.
#[verifier::external_type_specification]
#[verifier::external_body]
pub struct ExDoc(yrs::Doc);

/// A read-write transaction of yrs, borrowing its document.
#[verifier::external_type_specification]
#[verifier::external_body]
pub struct ExTransactionMut<'doc>(yrs::TransactionMut<'doc>);

/// A read-only transaction of yrs, borrowing its document.
#[verifier::external_type_specification]
#[verifier::external_body]
pub struct ExTransaction<'doc>(yrs::Transaction<'doc>);

/// Why yrs could not open a transaction.
#[verifier::external_type_specification]
#[verifier::external_body]
pub struct ExTransactionAcqError(yrs::TransactionAcqError);

/// How yrs counts text offsets.
#[verifier::external_type_specification]
pub struct ExOffsetKind(yrs::OffsetKind);

/// A decoded yrs update.
#[verifier::external_type_specification]
#[verifier::external_body]
pub struct ExUpdate(yrs::Update);

/// A yrs state vector.
#[verifier::external_type_specification]
#[verifier::external_body]
pub struct ExStateVector(yrs::StateVector);

/// A JSON-like value of yrs.
#[verifier::external_type_specification]
#[verifier::external_body]
pub struct ExAny(yrs::Any);

#[verifier::external_type_specification]
#[verifier::external_body]
pub struct ExArrayRef(yrs::ArrayRef);

#[verifier::external_type_specification]
#[verifier::external_body]
pub struct ExMapRef(yrs::MapRef);

#[verifier::external_type_specification]
#[verifier::external_body]
pub struct ExTextRef(yrs::TextRef);

#[verifier::external_type_specification]
#[verifier::external_body]
pub struct ExXmlFragmentRef(yrs::XmlFragmentRef);

/// Relies on `Doc::new`.
#[verifier::external_body]
pub(crate) fn new_doc() -> (r: yrs::Doc)
{
    yrs::Doc::new()
}

/// Relies on `Doc::with_options`, with the options given field by field.
#[verifier::external_body]
pub(crate) fn doc_with_options(
    client_id: u64,
    guid: String,
    collection_id: Option<String>,
    offset_kind: yrs::OffsetKind,
    skip_gc: bool,
    auto_load: bool,
    should_load: bool,
) -> (r: yrs::Doc)
{
    yrs::Doc::with_options(yrs::Options {
        client_id,
        guid: guid.into(),
        collection_id: collection_id.map(|s| s.into()),
        offset_kind,
        skip_gc,
        auto_load,
        should_load,
    })
}

/// Relies on `yrs::uuid_v4`: a random document identifier.
#[verifier::external_body]
pub(crate) fn random_guid() -> (r: String)
{
    yrs::uuid_v4().to_string()
}

/// Relies on `Transact::try_transact_mut` for `Doc`: a read-write
/// transaction, unless another transaction holds the document.
#[verifier::external_body]
pub(crate) fn try_transact_mut(doc: &yrs::Doc) -> (r: Result<yrs::TransactionMut<'_>, yrs::TransactionAcqError>)
{
    yrs::Transact::try_transact_mut(doc)
}

/// Relies on `Transact::try_transact_mut_with` for `Doc`: as
/// `try_transact_mut`, with `origin` attached to the transaction.
#[verifier::external_body]
pub(crate) fn try_transact_mut_with<'d>(doc: &'d yrs::Doc, origin: &[u8]) -> (r: Result<yrs::TransactionMut<'d>, yrs::TransactionAcqError>)
{
    yrs::Transact::try_transact_mut_with(doc, origin)
}

/// Relies on `Transact::try_transact` for `Doc`: a read-only transaction,
/// unless a read-write transaction holds the document.
#[verifier::external_body]
pub(crate) fn try_transact(doc: &yrs::Doc) -> (r: Result<yrs::Transaction<'_>, yrs::TransactionAcqError>)
{
    yrs::Transact::try_transact(doc)
}

/// Whether yrs's v1 decoder accepts `b` as a state vector.
pub uninterp spec fn decodes_state_vector_v1(b: Seq<u8>) -> bool;

/// Whether yrs's v2 decoder accepts `b` as a state vector.
pub uninterp spec fn decodes_state_vector_v2(b: Seq<u8>) -> bool;

/// Relies on `Decode::decode_v1` for `StateVector`, which depends on the
/// bytes alone; yrs sizes its map by the count read from the payload, which
/// must be checked first.
#[verifier::external_body]
pub(crate) fn decode_state_vector_v1(b: &[u8]) -> (r: Result<yrs::StateVector, ReadError>)
    requires
        count_safe(b@),
    ensures
        r is Ok <==> decodes_state_vector_v1(b@),
{
    <yrs::StateVector as yrs::updates::decoder::Decode>::decode_v1(b)
}

/// Relies on `Decode::decode_v2` for `StateVector`, which depends on the
/// bytes alone; as for updates, the layout must be checked first.
#[verifier::external_body]
pub(crate) fn decode_state_vector_v2(b: &[u8]) -> (r: Result<yrs::StateVector, ReadError>)
    requires
        v2_layout_safe(b@),
    ensures
        r is Ok <==> decodes_state_vector_v2(b@),
{
    <yrs::StateVector as yrs::updates::decoder::Decode>::decode_v2(b)
}

/// Relies on `StateVector::default`: the state vector of an empty document.
#[verifier::external_body]
pub(crate) fn empty_state_vector() -> (r: yrs::StateVector)
{
    yrs::StateVector::default()
}

/// Relies on `TransactionMut::apply_update`: integrates `u` into the document.
#[verifier::external_body]
pub(crate) fn apply_update(txn: &mut yrs::TransactionMut<'_>, u: yrs::Update) -> (r: Result<(), UpdateError>)
{
    txn.apply_update(u)
}

/// Relies on `ReadTxn::state_vector`: what the transaction's document holds.
#[verifier::external_body]
pub(crate) fn state_vector_of<T: yrs::ReadTxn>(txn: &T) -> (r: yrs::StateVector)
{
    txn.state_vector()
}

/// Relies on `Encode::encode_v1` for `StateVector`.
#[verifier::external_body]
pub(crate) fn encode_state_vector_v1(sv: &yrs::StateVector) -> (r: Vec<u8>)
{
    yrs::updates::encoder::Encode::encode_v1(sv)
}

/// Relies on `Encode::encode_v2` for `StateVector`.
#[verifier::external_body]
pub(crate) fn encode_state_vector_v2(sv: &yrs::StateVector) -> (r: Vec<u8>)
{
    yrs::updates::encoder::Encode::encode_v2(sv)
}

/// Relies on `ReadTxn::encode_diff_v1`: the v1 update of everything the
/// transaction's document holds beyond state vector `sv`.
#[verifier::external_body]
pub(crate) fn encode_diff_v1<T: yrs::ReadTxn>(txn: &T, sv: &yrs::StateVector) -> (r: Vec<u8>)
{
    txn.encode_diff_v1(sv)
}

/// Relies on `ReadTxn::encode_diff_v2`: as `encode_diff_v1`, in the v2 encoding.
#[verifier::external_body]
pub(crate) fn encode_diff_v2<T: yrs::ReadTxn>(txn: &T, sv: &yrs::StateVector) -> (r: Vec<u8>)
{
    txn.encode_diff_v2(sv)
}

/// Relies on `WriteTxn::get_or_insert_text` for `TransactionMut`: the root
/// text of that name, created inside `txn` if missing.
#[verifier::external_body]
pub(crate) fn root_text_in(txn: &mut yrs::TransactionMut<'_>, name: &str) -> (r: yrs::TextRef)
{
    yrs::WriteTxn::get_or_insert_text(txn, name)
}

/// Relies on `WriteTxn::get_or_insert_array` for `TransactionMut`: the root
/// array of that name, created inside `txn` if missing.
#[verifier::external_body]
pub(crate) fn root_array_in(txn: &mut yrs::TransactionMut<'_>, name: &str) -> (r: yrs::ArrayRef)
{
    yrs::WriteTxn::get_or_insert_array(txn, name)
}

/// Relies on `WriteTxn::get_or_insert_map` for `TransactionMut`: the root
/// map of that name, created inside `txn` if missing.
#[verifier::external_body]
pub(crate) fn root_map_in(txn: &mut yrs::TransactionMut<'_>, name: &str) -> (r: yrs::MapRef)
{
    yrs::WriteTxn::get_or_insert_map(txn, name)
}

/// Relies on `WriteTxn::get_or_insert_xml_fragment` for `TransactionMut`: the root
/// xml fragment of that name, created inside `txn` if missing.
#[verifier::external_body]
pub(crate) fn root_xml_fragment_in(txn: &mut yrs::TransactionMut<'_>, name: &str) -> (r: yrs::XmlFragmentRef)
{
    yrs::WriteTxn::get_or_insert_xml_fragment(txn, name)
}

/// Relies on `Hook::get`, on the hook that `Hook::from(BranchID)` builds from
/// the identity: the live shared type, or `None` when it is missing or has
/// been deleted.
#[verifier::external_body]
pub(crate) fn resolve_hook<S: yrs::SharedRef, T: yrs::ReadTxn>(branch: &BranchIdent, txn: &T) -> (r: Option<S>)
{
    let id = match branch {
        BranchIdent::Root(name) => yrs::BranchID::Root(name.as_str().into()),
        BranchIdent::Nested(client, clock) => yrs::BranchID::Nested(yrs::ID::new(*client, *clock)),
    };
    yrs::Hook::<S>::from(id).get(txn)
}

#[verifier::external_type_specification]
#[verifier::external_body]
pub struct ExXmlElementRef(yrs::XmlElementRef);

#[verifier::external_type_specification]
#[verifier::external_body]
pub struct ExXmlTextRef(yrs::XmlTextRef);

/// Relies on `Array::len`: the number of items of the array.
#[verifier::external_body]
pub(crate) fn array_len<T: yrs::ReadTxn>(arr: &yrs::ArrayRef, txn: &T) -> (r: u32)
{
    yrs::Array::len(arr, txn)
}

/// Relies on `ToJson::to_json` for `ArrayRef`: its items as a JSON-like value.
#[verifier::external_body]
pub(crate) fn array_json<T: yrs::ReadTxn>(arr: &yrs::ArrayRef, txn: &T) -> (r: yrs::Any)
{
    yrs::types::ToJson::to_json(arr, txn)
}

/// Relies on `Map::len`: the number of entries of the map.
#[verifier::external_body]
pub(crate) fn map_len<T: yrs::ReadTxn>(map: &yrs::MapRef, txn: &T) -> (r: u32)
{
    yrs::Map::len(map, txn)
}

/// Relies on `ToJson::to_json` for `MapRef`: its entries as a JSON-like value.
#[verifier::external_body]
pub(crate) fn map_json<T: yrs::ReadTxn>(map: &yrs::MapRef, txn: &T) -> (r: yrs::Any)
{
    yrs::types::ToJson::to_json(map, txn)
}

/// Relies on `Map::insert`: sets `key` to `value`.
#[verifier::external_body]
pub(crate) fn map_insert(map: &yrs::MapRef, txn: &mut yrs::TransactionMut<'_>, key: &str, value: yrs::Any)
{
    yrs::Map::insert(map, txn, key, value);
}

/// Relies on `Map::remove`: removes `key`, if present.
#[verifier::external_body]
pub(crate) fn map_remove(map: &yrs::MapRef, txn: &mut yrs::TransactionMut<'_>, key: &str)
{
    yrs::Map::remove(map, txn, key);
}

#[verifier::external_type_specification]
#[verifier::external_body]
pub struct ExBranchPtr(yrs::branch::BranchPtr);

#[verifier::external_type_specification]
#[verifier::external_body]
#[verifier::reject_recursive_types(P)]
pub struct ExWeakRef<P>(yrs::WeakRef<P>);

/// The presence states of the peers of one document.
#[verifier::external_type_specification]
#[verifier::external_body]
pub struct ExAwareness(yrs::sync::Awareness);

/// An encodable set of presence states.
#[verifier::external_type_specification]
#[verifier::external_body]
pub struct ExAwarenessUpdate(yrs::sync::AwarenessUpdate);

/// A failure of yrs's presence-state handling.
#[verifier::external_type_specification]
#[verifier::external_body]
pub struct ExAwarenessError(AwarenessError);

/// Whether yrs's v1 decoder accepts `b` as an awareness update.
pub uninterp spec fn decodes_awareness_update_v1(b: Seq<u8>) -> bool;

/// Whether serde_json reads `s` as a yrs `Any`.
pub uninterp spec fn parses_as_any(s: Seq<char>) -> bool;

/// Relies on `Awareness::new`, over a handle on the same document.
#[verifier::external_body]
pub(crate) fn new_awareness(doc: &yrs::Doc) -> (r: yrs::sync::Awareness)
{
    yrs::sync::Awareness::new(doc.clone())
}

/// Relies on `Awareness::client_id`: the local peer's client id.
#[verifier::external_body]
pub(crate) fn awareness_client(a: &yrs::sync::Awareness) -> (r: u64)
{
    a.client_id()
}

/// Relies on `Awareness::iter`: each known client with its JSON state, if
/// any, in no particular order.
#[verifier::external_body]
pub(crate) fn awareness_states(a: &yrs::sync::Awareness) -> (r: Vec<(u64, Option<String>)>)
{
    a.iter().map(|(id, state)| (id, state.data.map(|d| d.to_string()))).collect()
}

/// Relies on `serde_json::from_str` into `Any`, which depends on the text alone.
#[verifier::external_body]
pub(crate) fn parse_any(s: &str) -> (r: Option<yrs::Any>)
    ensures
        r is Some <==> parses_as_any(s@),
{
    serde_json::from_str::<yrs::Any>(s).ok()
}

/// Relies on `Awareness::local_state`: the local peer's state, if set.
#[verifier::external_body]
pub(crate) fn awareness_local(a: &yrs::sync::Awareness) -> (r: Option<yrs::Any>)
{
    a.local_state::<yrs::Any>()
}

/// Relies on `Awareness::set_local_state`: replaces the local peer's state.
#[verifier::external_body]
pub(crate) fn awareness_set_local(a: &yrs::sync::Awareness, state: yrs::Any) -> (r: Result<(), AwarenessError>)
{
    a.set_local_state(state)
}

/// Relies on `Awareness::clean_local_state`: clears the local peer's state.
#[verifier::external_body]
pub(crate) fn awareness_clean_local(a: &yrs::sync::Awareness)
{
    a.clean_local_state()
}

/// Relies on `Awareness::remove_state`: marks `client` as gone.
#[verifier::external_body]
pub(crate) fn awareness_remove(a: &yrs::sync::Awareness, client: u64)
{
    a.remove_state(client)
}

/// Relies on `Awareness::update`: the states of every client that has one.
#[verifier::external_body]
pub(crate) fn awareness_update_all(a: &yrs::sync::Awareness) -> (r: Result<yrs::sync::AwarenessUpdate, AwarenessError>)
{
    a.update()
}

/// Relies on `Awareness::update_with_clients`: the states of `clients`,
/// which must all be known.
#[verifier::external_body]
pub(crate) fn awareness_update_of(a: &yrs::sync::Awareness, clients: Vec<u64>) -> (r: Result<yrs::sync::AwarenessUpdate, AwarenessError>)
{
    a.update_with_clients(clients)
}

/// Relies on `Encode::encode_v1` for `AwarenessUpdate`.
#[verifier::external_body]
pub(crate) fn encode_awareness_update_v1(u: &yrs::sync::AwarenessUpdate) -> (r: Vec<u8>)
{
    yrs::updates::encoder::Encode::encode_v1(u)
}

/// Relies on `Decode::decode_v1` for `AwarenessUpdate`, which depends on the
/// bytes alone; yrs sizes its map by the count read from the payload and
/// takes each state's text as UTF-8 unchecked, which must be checked first.
#[verifier::external_body]
pub(crate) fn decode_awareness_update_v1(b: &[u8]) -> (r: Result<yrs::sync::AwarenessUpdate, ReadError>)
    requires
        awareness_update_safe(b@),
    ensures
        r is Ok <==> decodes_awareness_update_v1(b@),
{
    <yrs::sync::AwarenessUpdate as yrs::updates::decoder::Decode>::decode_v1(b)
}

/// Relies on `Awareness::apply_update`: merges the states of `u`.
#[verifier::external_body]
pub(crate) fn awareness_apply(a: &yrs::sync::Awareness, u: yrs::sync::AwarenessUpdate) -> (r: Result<(), AwarenessError>)
{
    a.apply_update(u)
}

/// Relies on `Awareness::apply_update_with`: as `apply_update`, with `origin`
/// handed to the observers.
#[verifier::external_body]
pub(crate) fn awareness_apply_with(a: &yrs::sync::Awareness, u: yrs::sync::AwarenessUpdate, origin: &[u8]) -> (r: Result<(), AwarenessError>)
{
    a.apply_update_with(u, origin)
}

/// An undo manager of yrs, with its per-item metadata type.
#[verifier::external_type_specification]
#[verifier::external_body]
#[verifier::reject_recursive_types(M)]
pub struct ExUndoManager<M>(yrs::undo::UndoManager<M>);

/// Relies on `UndoManager::expand_scope`: `scope` is tracked too.
#[verifier::external_body]
pub(crate) fn undo_expand_scope<S: yrs::SharedRef>(m: &mut yrs::UndoManager, scope: &S)
{
    m.expand_scope(scope)
}

/// Relies on `UndoManager::include_origin`: changes of this origin are tracked.
#[verifier::external_body]
pub(crate) fn undo_include_origin(m: &mut yrs::UndoManager, origin: &[u8])
{
    m.include_origin(origin)
}

/// Relies on `UndoManager::exclude_origin`: changes of this origin are no longer tracked.
#[verifier::external_body]
pub(crate) fn undo_exclude_origin(m: &mut yrs::UndoManager, origin: &[u8])
{
    m.exclude_origin(origin)
}

/// Relies on `UndoManager::can_undo`: the undo stack is not empty.
#[verifier::external_body]
pub(crate) fn undo_can_undo(m: &yrs::UndoManager) -> (r: bool)
{
    m.can_undo()
}

/// Relies on `UndoManager::can_redo`: the redo stack is not empty.
#[verifier::external_body]
pub(crate) fn undo_can_redo(m: &yrs::UndoManager) -> (r: bool)
{
    m.can_redo()
}

/// Relies on `UndoManager::try_undo`: reverts the last step, unless another
/// transaction holds the document.
#[verifier::external_body]
pub(crate) fn undo_try_undo(m: &mut yrs::UndoManager) -> (r: Result<bool, yrs::TransactionAcqError>)
{
    m.try_undo()
}

/// Relies on `UndoManager::try_redo`: reapplies the last reverted step,
/// unless another transaction holds the document.
#[verifier::external_body]
pub(crate) fn undo_try_redo(m: &mut yrs::UndoManager) -> (r: Result<bool, yrs::TransactionAcqError>)
{
    m.try_redo()
}

/// Relies on `UndoManager::reset`: the next change starts a new step.
#[verifier::external_body]
pub(crate) fn undo_reset(m: &mut yrs::UndoManager)
{
    m.reset()
}

/// Relies on `Branch::type_ref` and `TypeRef::kind`: the type tag of the
/// branch behind `b` (`0` for an array).
#[verifier::external_body]
pub(crate) fn type_kind<S: yrs::SharedRef>(b: &S) -> (r: u8)
{
    b.as_ref().type_ref().kind()
}

} // verus!
