//! The batch protocol: a multi-item request runs its single-item use case once
//! per element, independently, and reports one outcome (status and body) per
//! element. One element's failure neither stops nor undoes another.
use crate::api::helpers::FailMsg;
use crate::domain::create_item::{self, CreateItemRequest, CreateItemResponse};
use crate::domain::delete_item::{self, DeleteOneRequest, DeleteOneResponse};
use crate::domain::read_item::{self, ReadResponse};
use crate::domain::read_items::{self, ReadAllResponse};
use crate::domain::types::{same_but_time, IdType, Item, ItemId, TableId};
use crate::domain::update_item::{self, CreateOrUpdateRequest, CreateOrUpdateResponse};
use crate::repository::Repository;
use vstd::prelude::*;

verus! {

pub const STATUS_OK: u16 = 200;

pub const STATUS_CREATED: u16 = 201;

pub const STATUS_MULTI_STATUS: u16 = 207;

pub const STATUS_BAD_REQUEST: u16 = 400;

pub const STATUS_NOT_FOUND: u16 = 404;

/// What a response carries.
pub enum OutcomeBody {
    Item(Item),
    Items(Vec<Item>),
    Fail(FailMsg),
    /// An empty object: what a delete answers.
    Empty,
}

/// The status and body answered for one request or one element of a batch.
pub struct Outcome {
    pub status: u16,
    pub body: OutcomeBody,
}

/// `o` fails with `status` and the message `msg`.
pub open spec fn fails_with(o: Outcome, status: u16, msg: Seq<char>) -> bool {
    &&& o.status == status
    &&& (o.body matches OutcomeBody::Fail(f) && f.msg@ == msg)
}

fn failure(status: u16, msg: &str) -> (o: Outcome)
    ensures
        fails_with(o, status, msg@),
{
    Outcome { status, body: OutcomeBody::Fail(FailMsg { msg: String::from_str(msg) }) }
}

pub open spec fn msg_exists() -> Seq<char> {
    "Item already exists"@
}

pub open spec fn msg_server_error() -> Seq<char> {
    "Server error"@
}

pub open spec fn msg_unknown_table() -> Seq<char> {
    "Unknown table id"@
}

pub open spec fn msg_unknown_item() -> Seq<char> {
    "Unknown item id"@
}

pub open spec fn msg_version_mismatch() -> Seq<char> {
    "Version mismatch: server has newer version"@
}

/// The outcome of creating one item.
pub fn create_outcome(r: Result<CreateItemResponse, create_item::Error>) -> (o: Outcome)
    ensures
        match r {
            Ok(res) => o.status == STATUS_CREATED && o.body == OutcomeBody::Item(res.item),
            Err(create_item::Error::Conflict) => fails_with(o, STATUS_BAD_REQUEST, msg_exists()),
            Err(create_item::Error::Unknown) => fails_with(
                o,
                STATUS_BAD_REQUEST,
                msg_server_error(),
            ),
        },
{
    match r {
        Ok(res) => Outcome { status: STATUS_CREATED, body: OutcomeBody::Item(res.item) },
        Err(create_item::Error::Conflict) => failure(STATUS_BAD_REQUEST, "Item already exists"),
        Err(create_item::Error::Unknown) => failure(STATUS_BAD_REQUEST, "Server error"),
    }
}

/// The outcome of updating one item.
pub fn update_outcome(r: Result<CreateOrUpdateResponse, update_item::Error>) -> (o: Outcome)
    ensures
        match r {
            Ok(res) => o.status == STATUS_OK && o.body == OutcomeBody::Item(res.item),
            Err(update_item::Error::Unknown) => fails_with(
                o,
                STATUS_BAD_REQUEST,
                msg_server_error(),
            ),
            Err(update_item::Error::UnknowTableId) => fails_with(
                o,
                STATUS_NOT_FOUND,
                msg_unknown_table(),
            ),
            Err(update_item::Error::UnknownItemId) => fails_with(
                o,
                STATUS_NOT_FOUND,
                msg_unknown_item(),
            ),
            Err(update_item::Error::VersionConflict) => fails_with(
                o,
                STATUS_BAD_REQUEST,
                msg_version_mismatch(),
            ),
        },
{
    match r {
        Ok(res) => Outcome { status: STATUS_OK, body: OutcomeBody::Item(res.item) },
        Err(update_item::Error::Unknown) => failure(STATUS_BAD_REQUEST, "Server error"),
        Err(update_item::Error::UnknowTableId) => failure(STATUS_NOT_FOUND, "Unknown table id"),
        Err(update_item::Error::UnknownItemId) => failure(STATUS_NOT_FOUND, "Unknown item id"),
        Err(update_item::Error::VersionConflict) => failure(
            STATUS_BAD_REQUEST,
            "Version mismatch: server has newer version",
        ),
    }
}

/// The outcome of deleting one item.
pub fn delete_outcome(r: Result<DeleteOneResponse, delete_item::Error>) -> (o: Outcome)
    ensures
        match r {
            Ok(_) => o.status == STATUS_OK && o.body == OutcomeBody::Empty,
            Err(delete_item::Error::Unknown) => fails_with(
                o,
                STATUS_BAD_REQUEST,
                msg_server_error(),
            ),
            Err(delete_item::Error::UnknowTableId) => fails_with(
                o,
                STATUS_NOT_FOUND,
                msg_unknown_table(),
            ),
            Err(delete_item::Error::UnknownItemId) => fails_with(
                o,
                STATUS_NOT_FOUND,
                msg_unknown_item(),
            ),
        },
{
    match r {
        Ok(_) => Outcome { status: STATUS_OK, body: OutcomeBody::Empty },
        Err(delete_item::Error::Unknown) => failure(STATUS_BAD_REQUEST, "Server error"),
        Err(delete_item::Error::UnknowTableId) => failure(STATUS_NOT_FOUND, "Unknown table id"),
        Err(delete_item::Error::UnknownItemId) => failure(STATUS_NOT_FOUND, "Unknown item id"),
    }
}

/// The outcome of reading one item.
pub fn read_outcome(r: Result<ReadResponse, read_item::Error>) -> (o: Outcome)
    ensures
        match r {
            Ok(res) => o.status == STATUS_OK && o.body == OutcomeBody::Item(res.item),
            Err(read_item::Error::Unknown) => fails_with(o, STATUS_BAD_REQUEST, msg_server_error()),
            Err(read_item::Error::UnknowTableId) => fails_with(
                o,
                STATUS_NOT_FOUND,
                msg_unknown_table(),
            ),
            Err(read_item::Error::UnknownItemId) => fails_with(
                o,
                STATUS_NOT_FOUND,
                msg_unknown_item(),
            ),
        },
{
    match r {
        Ok(res) => Outcome { status: STATUS_OK, body: OutcomeBody::Item(res.item) },
        Err(read_item::Error::Unknown) => failure(STATUS_BAD_REQUEST, "Server error"),
        Err(read_item::Error::UnknowTableId) => failure(STATUS_NOT_FOUND, "Unknown table id"),
        Err(read_item::Error::UnknownItemId) => failure(STATUS_NOT_FOUND, "Unknown item id"),
    }
}

/// The outcome of listing a table.
pub fn listing_outcome(r: Result<ReadAllResponse, read_items::Error>) -> (o: Outcome)
    ensures
        match r {
            Ok(res) => o.status == STATUS_OK && o.body == OutcomeBody::Items(res.items),
            Err(read_items::Error::Unknown) => fails_with(
                o,
                STATUS_BAD_REQUEST,
                msg_server_error(),
            ),
            Err(read_items::Error::UnknowTableId) => fails_with(
                o,
                STATUS_BAD_REQUEST,
                msg_unknown_table(),
            ),
        },
{
    match r {
        Ok(res) => Outcome { status: STATUS_OK, body: OutcomeBody::Items(res.items) },
        Err(read_items::Error::Unknown) => failure(STATUS_BAD_REQUEST, "Server error"),
        Err(read_items::Error::UnknowTableId) => failure(STATUS_BAD_REQUEST, "Unknown table id"),
    }
}

/// What creating `requested` may answer.
pub open spec fn is_create_outcome(o: Outcome, requested: Item) -> bool {
    ||| (o.status == STATUS_CREATED && (o.body matches OutcomeBody::Item(it) && same_but_time(
        it,
        requested,
    ) && it.time_to_prepare@.len() > 0))
    ||| fails_with(o, STATUS_BAD_REQUEST, msg_exists())
    ||| fails_with(o, STATUS_BAD_REQUEST, msg_server_error())
}

/// What updating with `requested` may answer.
pub open spec fn is_update_outcome(o: Outcome, requested: Item) -> bool {
    ||| (o.status == STATUS_OK && (o.body matches OutcomeBody::Item(it) && it.id == requested.id
        && it.name == requested.name && it.notes == requested.notes && it.quantity
        == requested.quantity && it.deleted == requested.deleted && 1 <= it.version.0
        <= requested.version.0 + 1 && it.time_to_prepare@.len() > 0))
    ||| fails_with(o, STATUS_BAD_REQUEST, msg_server_error())
    ||| fails_with(o, STATUS_NOT_FOUND, msg_unknown_table())
    ||| fails_with(o, STATUS_NOT_FOUND, msg_unknown_item())
    ||| fails_with(o, STATUS_BAD_REQUEST, msg_version_mismatch())
}

/// What deleting may answer.
pub open spec fn is_delete_outcome(o: Outcome) -> bool {
    ||| (o.status == STATUS_OK && o.body == OutcomeBody::Empty)
    ||| fails_with(o, STATUS_BAD_REQUEST, msg_server_error())
    ||| fails_with(o, STATUS_NOT_FOUND, msg_unknown_table())
    ||| fails_with(o, STATUS_NOT_FOUND, msg_unknown_item())
}

/// Creates each item in turn, one outcome per item, in order.
pub fn create_items<R: Repository + ?Sized>(repo: &mut R, table_id: TableId<IdType>, items: Vec<Item>) -> (r:
    Vec<(ItemId<IdType>, Outcome)>)
    ensures
        final(repo).reliable() == old(repo).reliable(),
        r@.len() == items@.len(),
        forall|i: int|
            0 <= i < items@.len() ==> (#[trigger] r@[i]).0 == items@[i].id && is_create_outcome(
                r@[i].1,
                items@[i],
            ),
{
    let ghost all = items@;
    let mut rest = items;
    let mut out: Vec<(ItemId<IdType>, Outcome)> = Vec::new();
    while rest.len() > 0
        invariant
            repo.reliable() == old(repo).reliable(),
            out@.len() + rest@.len() == all.len(),
            all == items@,
            rest@ =~= all.subrange(out@.len() as int, all.len() as int),
            forall|j: int|
                0 <= j < out@.len() ==> (#[trigger] out@[j]).0 == all[j].id && is_create_outcome(
                    out@[j].1,
                    all[j],
                ),
        decreases rest.len(),
    {
        let item = rest.remove(0);
        let id = item.id;
        let ghost requested = item;
        let res = create_item::execute(repo, CreateItemRequest { table_id, item });
        let o = create_outcome(res);
        out.push((id, o));
        assert(is_create_outcome(o, requested));
    }
    out
}

/// Updates each item in turn, one outcome per item, in order.
pub fn update_items<R: Repository + ?Sized>(repo: &mut R, table_id: TableId<IdType>, items: Vec<Item>) -> (r:
    Vec<(ItemId<IdType>, Outcome)>)
    ensures
        final(repo).reliable() == old(repo).reliable(),
        r@.len() == items@.len(),
        forall|i: int|
            0 <= i < items@.len() ==> (#[trigger] r@[i]).0 == items@[i].id && is_update_outcome(
                r@[i].1,
                items@[i],
            ),
{
    let ghost all = items@;
    let mut rest = items;
    let mut out: Vec<(ItemId<IdType>, Outcome)> = Vec::new();
    while rest.len() > 0
        invariant
            repo.reliable() == old(repo).reliable(),
            out@.len() + rest@.len() == all.len(),
            all == items@,
            rest@ =~= all.subrange(out@.len() as int, all.len() as int),
            forall|j: int|
                0 <= j < out@.len() ==> (#[trigger] out@[j]).0 == all[j].id && is_update_outcome(
                    out@[j].1,
                    all[j],
                ),
        decreases rest.len(),
    {
        let item = rest.remove(0);
        let id = item.id;
        let ghost requested = item;
        let res = update_item::execute(repo, CreateOrUpdateRequest { table_id, item });
        let o = update_outcome(res);
        out.push((id, o));
        assert(is_update_outcome(o, requested));
    }
    out
}

/// Deletes each id in turn, one outcome per id, in order.
pub fn delete_items<R: Repository + ?Sized>(
    repo: &mut R,
    table_id: TableId<IdType>,
    ids: Vec<ItemId<IdType>>,
) -> (r: Vec<(ItemId<IdType>, Outcome)>)
    ensures
        final(repo).reliable() == old(repo).reliable(),
        r@.len() == ids@.len(),
        forall|i: int|
            0 <= i < ids@.len() ==> (#[trigger] r@[i]).0 == ids@[i] && is_delete_outcome(r@[i].1),
{
    let mut out: Vec<(ItemId<IdType>, Outcome)> = Vec::new();
    let mut i: usize = 0;
    while i < ids.len()
        invariant
            repo.reliable() == old(repo).reliable(),
            i <= ids@.len(),
            out@.len() == i,
            forall|j: int|
                0 <= j < i ==> (#[trigger] out@[j]).0 == ids@[j] && is_delete_outcome(out@[j].1),
        decreases ids.len() - i,
    {
        let id = ids[i];
        let res = delete_item::execute(repo, DeleteOneRequest { table_id, item_id: id });
        out.push((id, delete_outcome(res)));
        i = i + 1;
    }
    out
}

/// A batch of exactly one element answers with that element's own outcome;
/// any other batch answers with all of them.
pub fn single_outcome(outcomes: Vec<(ItemId<IdType>, Outcome)>) -> (r: Result<
    Outcome,
    Vec<(ItemId<IdType>, Outcome)>,
>)
    ensures
        outcomes@.len() == 1 ==> (r matches Ok(o) && o == outcomes@[0].1),
        outcomes@.len() != 1 ==> r == Err::<Outcome, Vec<(ItemId<IdType>, Outcome)>>(outcomes),
{
    if outcomes.len() == 1 {
        let mut outcomes = outcomes;
        let (_, o) = outcomes.remove(0);
        Ok(o)
    } else {
        Err(outcomes)
    }
}

} // verus!
