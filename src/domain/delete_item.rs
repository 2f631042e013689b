//! Deleting an item: its live record is marked deleted.
use crate::domain::types::{IdType, ItemId, TableId};
use crate::repository::{delete_result, DeleteError, Repository};
use vstd::prelude::*;

verus! {

pub struct DeleteOneRequest {
    pub table_id: TableId<IdType>,
    pub item_id: ItemId<IdType>,
}

#[derive(PartialEq, Eq, Structural, Debug, Copy, Clone)]
pub struct DeleteOneResponse {}

#[derive(PartialEq, Eq, Structural, Debug, Copy, Clone)]
pub enum Error {
    Unknown,
    UnknowTableId,
    UnknownItemId,
}

/// What deleting answers for each outcome of the repository's delete.
pub open spec fn answer(r: Result<(), DeleteError>) -> Result<DeleteOneResponse, Error> {
    match r {
        Ok(_) => Ok(DeleteOneResponse {  }),
        Err(DeleteError::UnknownItemId) => Err(Error::UnknownItemId),
        Err(DeleteError::UnknownTableId) => Err(Error::UnknowTableId),
        Err(DeleteError::Unknown) => Err(Error::Unknown),
    }
}

/// Answers as `answer` says.
pub fn respond(r: Result<(), DeleteError>) -> (out: Result<DeleteOneResponse, Error>)
    ensures
        out == answer(r),
{
    match r {
        Ok(_) => Ok(DeleteOneResponse {  }),
        Err(DeleteError::UnknownItemId) => Err(Error::UnknownItemId),
        Err(DeleteError::UnknownTableId) => Err(Error::UnknowTableId),
        Err(DeleteError::Unknown) => Err(Error::Unknown),
    }
}

/// Marks the live record of the requested id deleted.
pub fn execute<R: Repository + ?Sized>(repo: &mut R, req: DeleteOneRequest) -> (r: Result<
    DeleteOneResponse,
    Error,
>)
    ensures
        final(repo).reliable() == old(repo).reliable(),
        old(repo).reliable() ==> r == answer(delete_result(old(repo).tables(), req.table_id.0, req.item_id).0)
            && final(repo).tables() == delete_result(old(repo).tables(), req.table_id.0, req.item_id).1,
{
    respond(repo.delete(req.table_id, req.item_id))
}

} // verus!
