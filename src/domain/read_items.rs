//! Listing the items of a table.
use crate::domain::types::{IdType, Item, TableId};
use crate::repository::{fetch_all_result, sorted_by_id_text, FetchAllError, Repository};
use vstd::prelude::*;

verus! {

pub struct ReadAllRequest {
    pub table_id: TableId<IdType>,
    pub include_deleted: bool,
    pub filter: String,
    pub sort_by: String,
}

#[derive(Debug)]
pub struct ReadAllResponse {
    pub items: Vec<Item>,
}

#[derive(PartialEq, Eq, Structural, Debug, Copy, Clone)]
pub enum Error {
    Unknown,
    UnknowTableId,
}

/// What listing answers for each outcome of the fetch.
pub fn respond(r: Result<Vec<Item>, FetchAllError>) -> (out: Result<ReadAllResponse, Error>)
    ensures
        match r {
            Ok(items) => out == Ok::<ReadAllResponse, Error>(ReadAllResponse { items }),
            Err(FetchAllError::UnknownTableId) => out == Err::<ReadAllResponse, Error>(
                Error::UnknowTableId,
            ),
            Err(FetchAllError::Unknown) => out == Err::<ReadAllResponse, Error>(Error::Unknown),
        },
{
    match r {
        Ok(items) => Ok(ReadAllResponse { items }),
        Err(FetchAllError::UnknownTableId) => Err(Error::UnknowTableId),
        Err(FetchAllError::Unknown) => Err(Error::Unknown),
    }
}

/// Fetches the records of the requested table.
pub fn execute<R: Repository + ?Sized>(repo: &R, req: ReadAllRequest) -> (r: Result<
    ReadAllResponse,
    Error,
>)
    ensures
        r matches Ok(res) ==> {
            &&& sorted_by_id_text(res.items@)
            &&& forall|k: int|
                0 <= k < res.items@.len() ==> req.include_deleted || !(
                #[trigger] res.items@[k]).deleted
        },
        repo.reliable() ==> match fetch_all_result(repo.tables(), req.table_id.0, req.include_deleted) {
            Ok(items) => r matches Ok(res) && res.items@ == items,
            Err(FetchAllError::UnknownTableId) => r == Err::<ReadAllResponse, Error>(Error::UnknowTableId),
            Err(FetchAllError::Unknown) => r == Err::<ReadAllResponse, Error>(Error::Unknown),
        },
{
    respond(repo.fetch_all(req.table_id, req.include_deleted))
}

} // verus!
