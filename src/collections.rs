//! Reads and writes on arrays and maps through their handles, inside the
//! caller's transaction or one of their own.
use vstd::prelude::*;

use crate::error::{Error, SharedKind};
use crate::native::{array_json, array_len, map_json, map_len, resolve_hook, type_kind};
use crate::shared_type::{resolution_error, SharedTypeId};
use crate::doc::WriteOp;
use crate::transaction::{read_scope, uses_token, write_op, NifDoc, ReadTransaction, TransactionResource};

verus! {

/// yrs's type tag of an array branch.
pub const ARRAY_TYPE_TAG: u8 = 0;

/// yrs's type tag of a root branch that arrived in an update and has not
/// been asked for under a type yet.
pub const UNDEFINED_TYPE_TAG: u8 = 15;

/// The live array `array` points at: a branch of another type (a root of
/// that name made as another type) counts as not resolving.
fn array_in(array: &SharedTypeId, scope: &ReadTransaction<'_, '_>) -> (r: Result<yrs::ArrayRef, Error>)
    ensures
        r matches Err(e) ==> e == Error::Deleted(array.kind),
{
    let found = match scope {
        ReadTransaction::ReadWrite(t) => resolve_hook::<yrs::ArrayRef, _>(&array.branch, *t),
        ReadTransaction::ReadOnly(t) => resolve_hook::<yrs::ArrayRef, _>(&array.branch, t),
    };
    let a = array.found(found)?;
    let kind = type_kind(&a);
    if kind == ARRAY_TYPE_TAG || kind == UNDEFINED_TYPE_TAG {
        Ok(a)
    } else {
        Err(array.deleted_error())
    }
}

/// The number of items of an array.
pub fn array_length(doc: &NifDoc<'_>, current: Option<TransactionResource>, array: &SharedTypeId) -> (r: Result<u32, Error>)
    requires
        array.kind == SharedKind::YArray,
    ensures
        r matches Err(e) ==> resolution_error(e, array),
        !uses_token(doc@, current) && doc@.live ==> r matches Err(Error::Transaction),
{
    let scope = read_scope(doc, current)?;
    let a = array_in(array, &scope)?;
    match &scope {
        ReadTransaction::ReadWrite(t) => Ok(array_len(&a, *t)),
        ReadTransaction::ReadOnly(t) => Ok(array_len(&a, t)),
    }
}

/// The items of an array as a JSON-like value.
pub fn array_to_json(doc: &NifDoc<'_>, current: Option<TransactionResource>, array: &SharedTypeId) -> (r: Result<yrs::Any, Error>)
    requires
        array.kind == SharedKind::YArray,
    ensures
        r matches Err(e) ==> resolution_error(e, array),
        !uses_token(doc@, current) && doc@.live ==> r matches Err(Error::Transaction),
{
    let scope = read_scope(doc, current)?;
    let a = array_in(array, &scope)?;
    match &scope {
        ReadTransaction::ReadWrite(t) => Ok(array_json(&a, *t)),
        ReadTransaction::ReadOnly(t) => Ok(array_json(&a, t)),
    }
}

/// The number of entries of a map.
pub fn map_size(doc: &NifDoc<'_>, current: Option<TransactionResource>, map: &SharedTypeId) -> (r: Result<u32, Error>)
    requires
        map.kind == SharedKind::YMap,
    ensures
        r matches Err(e) ==> resolution_error(e, map),
        !uses_token(doc@, current) && doc@.live ==> r matches Err(Error::Transaction),
{
    match read_scope(doc, current)? {
        ReadTransaction::ReadWrite(t) => {
            let m = map.found(resolve_hook::<yrs::MapRef, _>(&map.branch, t))?;
            Ok(map_len(&m, t))
        },
        ReadTransaction::ReadOnly(t) => {
            let m = map.found(resolve_hook::<yrs::MapRef, _>(&map.branch, &t))?;
            Ok(map_len(&m, &t))
        },
    }
}

/// The entries of a map as a JSON-like value.
pub fn map_to_json(doc: &NifDoc<'_>, current: Option<TransactionResource>, map: &SharedTypeId) -> (r: Result<yrs::Any, Error>)
    requires
        map.kind == SharedKind::YMap,
    ensures
        r matches Err(e) ==> resolution_error(e, map),
        !uses_token(doc@, current) && doc@.live ==> r matches Err(Error::Transaction),
{
    match read_scope(doc, current)? {
        ReadTransaction::ReadWrite(t) => {
            let m = map.found(resolve_hook::<yrs::MapRef, _>(&map.branch, t))?;
            Ok(map_json(&m, t))
        },
        ReadTransaction::ReadOnly(t) => {
            let m = map.found(resolve_hook::<yrs::MapRef, _>(&map.branch, &t))?;
            Ok(map_json(&m, &t))
        },
    }
}

/// Sets `key` of `map` to `value`, in the transaction `current` names or
/// one of its own (see `write_op`).
pub fn map_set(doc: &mut NifDoc<'_>, current: Option<TransactionResource>, map: &SharedTypeId, key: &str, value: yrs::Any) -> (r: Result<(), Error>)
    requires
        map.kind == SharedKind::YMap,
    ensures
        r matches Err(e) ==> resolution_error(e, map),
        uses_token(old(doc)@, current) ==> final(doc)@ == old(doc)@ && !(r matches Err(Error::Transaction)),
        !uses_token(old(doc)@, current) && old(doc)@.live ==> (final(doc)@ == old(doc)@
            && r matches Err(Error::Transaction)),
        !old(doc)@.live && r is Ok ==> final(doc)@.opened == old(doc)@.opened + 1,
{
    write_op(doc, current, WriteOp::MapInsert(map.clone_id(), key.to_owned(), value))
}

/// Removes `key` from `map`, if present, in the transaction `current` names
/// or one of its own (see `write_op`).
pub fn map_delete(doc: &mut NifDoc<'_>, current: Option<TransactionResource>, map: &SharedTypeId, key: &str) -> (r: Result<(), Error>)
    requires
        map.kind == SharedKind::YMap,
    ensures
        r matches Err(e) ==> resolution_error(e, map),
        uses_token(old(doc)@, current) ==> final(doc)@ == old(doc)@ && !(r matches Err(Error::Transaction)),
        !uses_token(old(doc)@, current) && old(doc)@.live ==> (final(doc)@ == old(doc)@
            && r matches Err(Error::Transaction)),
        !old(doc)@.live && r is Ok ==> final(doc)@.opened == old(doc)@.opened + 1,
{
    write_op(doc, current, WriteOp::MapRemove(map.clone_id(), key.to_owned()))
}

} // verus!
