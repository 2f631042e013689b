//! Updating an item: its preparation time is set now, then the stored record
//! is replaced if its version allows.
use crate::domain::types::{with_time, IdType, Item, TableId};
use crate::repository::{update_result, Repository, UpdateError};
use vstd::prelude::*;

verus! {

pub struct CreateOrUpdateRequest {
    pub table_id: TableId<IdType>,
    pub item: Item,
}

#[derive(Debug)]
pub struct CreateOrUpdateResponse {
    pub item: Item,
}

#[derive(PartialEq, Eq, Structural, Debug, Copy, Clone)]
pub enum Error {
    Unknown,
    UnknowTableId,
    UnknownItemId,
    VersionConflict,
}

/// What updating answers for each outcome of the repository's update.
pub open spec fn answer(r: Result<Item, UpdateError>) -> Result<CreateOrUpdateResponse, Error> {
    match r {
        Ok(item) => Ok(CreateOrUpdateResponse { item }),
        Err(UpdateError::Unknown) => Err(Error::Unknown),
        Err(UpdateError::UnknownItemId) => Err(Error::UnknownItemId),
        Err(UpdateError::UnknownTableId) => Err(Error::UnknowTableId),
        Err(UpdateError::VersionConflict) => Err(Error::VersionConflict),
    }
}

/// Answers as `answer` says.
pub fn respond(r: Result<Item, UpdateError>) -> (out: Result<CreateOrUpdateResponse, Error>)
    ensures
        out == answer(r),
{
    match r {
        Ok(item) => Ok(CreateOrUpdateResponse { item }),
        Err(UpdateError::Unknown) => Err(Error::Unknown),
        Err(UpdateError::UnknownItemId) => Err(Error::UnknownItemId),
        Err(UpdateError::UnknownTableId) => Err(Error::UnknowTableId),
        Err(UpdateError::VersionConflict) => Err(Error::VersionConflict),
    }
}

/// Replaces the stored record with the requested item and a fresh preparation
/// time; the stored version decides whether it may, and the new version.
pub fn execute<R: Repository + ?Sized>(repo: &mut R, req: CreateOrUpdateRequest) -> (r: Result<
    CreateOrUpdateResponse,
    Error,
>)
    ensures
        r matches Ok(res) ==> {
            &&& res.item.id == req.item.id
            &&& res.item.name == req.item.name
            &&& res.item.notes == req.item.notes
            &&& res.item.quantity == req.item.quantity
            &&& res.item.deleted == req.item.deleted
            &&& 1 <= res.item.version.0 <= req.item.version.0 + 1
            &&& res.item.time_to_prepare@.len() > 0
        },
        final(repo).reliable() == old(repo).reliable(),
        old(repo).reliable() ==> exists|time: String|
            time@.len() > 0 && r == answer(
                update_result(old(repo).tables(), req.table_id.0, #[trigger] with_time(req.item, time)).0,
            ) && final(repo).tables() == update_result(
                old(repo).tables(),
                req.table_id.0,
                with_time(req.item, time),
            ).1,
{
    let mut it = req.item;
    it.gen_time_to_prepare();
    let ghost stored = it;
    assert(stored == with_time(req.item, stored.time_to_prepare));
    let updated = repo.update(
        req.table_id,
        it.id,
        it.name,
        it.notes,
        it.quantity,
        it.deleted,
        it.version,
        it.time_to_prepare,
    );
    respond(updated)
}

} // verus!
