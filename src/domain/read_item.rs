//! Reading one live item of a table.
use crate::domain::types::{IdType, Item, ItemId, TableId};
use crate::repository::{fetch_one_result, FetchOneError, Repository};
use vstd::prelude::*;

verus! {

pub struct ReadRequest {
    pub table_id: TableId<IdType>,
    pub item_id: ItemId<IdType>,
}

#[derive(Debug)]
pub struct ReadResponse {
    pub item: Item,
}

#[derive(PartialEq, Eq, Structural, Debug, Copy, Clone)]
pub enum Error {
    Unknown,
    UnknowTableId,
    UnknownItemId,
}

/// What reading answers for each outcome of the fetch.
pub open spec fn answer(r: Result<Item, FetchOneError>) -> Result<ReadResponse, Error> {
    match r {
        Ok(item) => Ok(ReadResponse { item }),
        Err(FetchOneError::UnknownItemId) => Err(Error::UnknownItemId),
        Err(FetchOneError::UnknownTableId) => Err(Error::UnknowTableId),
        Err(FetchOneError::Unknown) => Err(Error::Unknown),
    }
}

/// Answers as `answer` says.
pub fn respond(r: Result<Item, FetchOneError>) -> (out: Result<ReadResponse, Error>)
    ensures
        out == answer(r),
{
    match r {
        Ok(item) => Ok(ReadResponse { item }),
        Err(FetchOneError::UnknownItemId) => Err(Error::UnknownItemId),
        Err(FetchOneError::UnknownTableId) => Err(Error::UnknowTableId),
        Err(FetchOneError::Unknown) => Err(Error::Unknown),
    }
}

/// Fetches the live record of the requested id.
pub fn execute<R: Repository + ?Sized>(repo: &R, req: ReadRequest) -> (r: Result<ReadResponse, Error>)
    ensures
        r matches Ok(res) ==> res.item.id == req.item_id && !res.item.deleted,
        repo.reliable() ==> r == answer(fetch_one_result(repo.tables(), req.table_id.0, req.item_id)),
{
    respond(repo.fetch_one(req.table_id, req.item_id))
}

} // verus!
