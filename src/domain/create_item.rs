//! Creating an item: its preparation time is set now, then it is inserted.
use crate::domain::types::{same_but_time, with_time, IdType, Item, TableId};
use crate::repository::{insert_result, InsertError, Repository};
use vstd::prelude::*;

verus! {

pub struct CreateItemRequest {
    pub table_id: TableId<IdType>,
    pub item: Item,
}

#[derive(Debug)]
pub struct CreateItemResponse {
    pub item: Item,
}

#[derive(PartialEq, Eq, Structural, Debug, Copy, Clone)]
pub enum Error {
    Conflict,
    Unknown,
}

/// What creating answers for each outcome of the insert.
pub open spec fn answer(r: Result<Item, InsertError>) -> Result<CreateItemResponse, Error> {
    match r {
        Ok(item) => Ok(CreateItemResponse { item }),
        Err(InsertError::Conflict) => Err(Error::Conflict),
        Err(InsertError::Unknown) => Err(Error::Unknown),
    }
}

/// Answers as `answer` says.
pub fn respond(r: Result<Item, InsertError>) -> (out: Result<CreateItemResponse, Error>)
    ensures
        out == answer(r),
{
    match r {
        Ok(item) => Ok(CreateItemResponse { item }),
        Err(InsertError::Conflict) => Err(Error::Conflict),
        Err(InsertError::Unknown) => Err(Error::Unknown),
    }
}

/// Inserts the requested item with a fresh preparation time.
pub fn execute<R: Repository + ?Sized>(repo: &mut R, req: CreateItemRequest) -> (r: Result<
    CreateItemResponse,
    Error,
>)
    ensures
        r matches Ok(res) ==> same_but_time(res.item, req.item) && res.item.time_to_prepare@.len()
            > 0,
        final(repo).reliable() == old(repo).reliable(),
        old(repo).reliable() ==> exists|time: String|
            time@.len() > 0 && r == answer(
                insert_result(old(repo).tables(), req.table_id.0, #[trigger] with_time(req.item, time)).0,
            ) && final(repo).tables() == insert_result(
                old(repo).tables(),
                req.table_id.0,
                with_time(req.item, time),
            ).1,
{
    let mut it = req.item;
    it.gen_time_to_prepare();
    let ghost stored = it;
    assert(stored == with_time(req.item, stored.time_to_prepare));
    let inserted = repo.insert(
        req.table_id,
        it.id,
        it.name,
        it.notes,
        it.quantity,
        it.deleted,
        it.version,
        it.time_to_prepare,
    );
    respond(inserted)
}

} // verus!
