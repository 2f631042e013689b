//! The handlers of the service, apart from reading requests and writing
//! responses: each reads its ids from the path, validates what the body held,
//! runs the use case (once per element for a batch) and picks the answer.
use crate::api::batch::{
    create_items, delete_items, delete_outcome, is_create_outcome, is_delete_outcome,
    is_update_outcome, listing_outcome, read_outcome, single_outcome, update_items, fails_with,
    msg_server_error, msg_unknown_item, msg_unknown_table, Outcome, OutcomeBody,
    STATUS_BAD_REQUEST, STATUS_NOT_FOUND, STATUS_OK,
};
use crate::api::helpers::{
    ids_for_deletion, items_from_request, new_item_valid, requested_item, FailMsg, NewItem,
};
use crate::api::routes::{
    item_in_path, item_pattern, items_pattern, parse_item_id, parse_table_id, table_in_path,
};
use crate::domain::types::{IdType, Item, ItemId};
use crate::domain::{delete_item, read_item, read_items};
use crate::repository::{sorted_by_id_text, Repository};
use vstd::prelude::*;

verus! {

/// What a handler answers: one outcome, or one per element of a batch.
pub enum Reply {
    Single(Outcome),
    PerItem(Vec<(ItemId<IdType>, Outcome)>),
}

/// `o` is a failure with status `status` (its message says why).
pub open spec fn failed(o: Outcome, status: u16) -> bool {
    o.status == status && o.body matches OutcomeBody::Fail(_)
}

/// `r` is a single failure with status `status`.
pub open spec fn single_failure(r: Reply, status: u16) -> bool {
    r matches Reply::Single(o) && failed(o, status)
}

/// `r` is a single failure with status `status` and message `msg`.
pub open spec fn single_failure_with(r: Reply, status: u16, msg: Seq<char>) -> bool {
    r matches Reply::Single(o) && o.status == status && (o.body matches OutcomeBody::Fail(f)
        && f.msg@ == msg)
}

fn fail_reply(status: u16, msg: String) -> (r: Reply)
    ensures
        single_failure_with(r, status, msg@),
{
    Reply::Single(Outcome { status, body: OutcomeBody::Fail(FailMsg { msg }) })
}

fn fail_outcome(status: u16, msg: String) -> (o: Outcome)
    ensures
        failed(o, status),
{
    Outcome { status, body: OutcomeBody::Fail(FailMsg { msg }) }
}

/// The request holds at least one item and every one is valid.
pub open spec fn request_valid(entries: Seq<(ItemId<IdType>, NewItem)>) -> bool {
    entries.len() > 0 && forall|i: int|
        0 <= i < entries.len() ==> new_item_valid(#[trigger] entries[i].0, entries[i].1)
}

/// What creating the requested item `(id, n)` may answer.
pub open spec fn create_answer(o: Outcome, id: ItemId<IdType>, n: NewItem) -> bool {
    exists|it: Item| requested_item(id, n, it) && is_create_outcome(o, it)
}

/// What updating with the requested item `(id, n)` may answer.
pub open spec fn update_answer(o: Outcome, id: ItemId<IdType>, n: NewItem) -> bool {
    exists|it: Item| requested_item(id, n, it) && is_update_outcome(o, it)
}

/// One answer per requested item, in order, each meeting `answer`; a request
/// of exactly one item is answered with that item's outcome alone.
pub open spec fn per_item_reply(
    r: Reply,
    entries: Seq<(ItemId<IdType>, NewItem)>,
    answer: spec_fn(Outcome, ItemId<IdType>, NewItem) -> bool,
) -> bool {
    if entries.len() == 1 {
        r matches Reply::Single(o) && answer(o, entries[0].0, entries[0].1)
    } else {
        r matches Reply::PerItem(v) && v@.len() == entries.len() && forall|i: int|
            0 <= i < entries.len() ==> (#[trigger] v@[i]).0 == entries[i].0 && answer(
                v@[i].1,
                entries[i].0,
                entries[i].1,
            )
    }
}

/// Answers a request to create items in the table of `path`, given what its
/// body held (or why it could not be read).
pub fn create_items_handler<R: Repository + ?Sized>(
    repo: &mut R,
    path: &str,
    body: Result<Vec<(ItemId<IdType>, NewItem)>, String>,
) -> (r: Reply)
    ensures
        table_in_path(path@, items_pattern(), "tid"@) is None ==> single_failure(
            r,
            STATUS_BAD_REQUEST,
        ),
        table_in_path(path@, items_pattern(), "tid"@) is Some ==> match body {
            Err(e) => single_failure_with(r, STATUS_BAD_REQUEST, e@),
            Ok(entries) => if request_valid(entries@) {
                per_item_reply(r, entries@, |o: Outcome, id: ItemId<IdType>, n: NewItem| create_answer(o, id, n))
            } else {
                single_failure(r, STATUS_BAD_REQUEST)
            },
        },
{
    let table_id = match parse_table_id(path, "/tables/:tid/items", "tid") {
        Ok(t) => t,
        Err(e) => return fail_reply(STATUS_BAD_REQUEST, e),
    };
    let entries = match body {
        Ok(entries) => entries,
        Err(e) => return fail_reply(STATUS_BAD_REQUEST, e),
    };
    let ghost requested = entries@;
    let items = match items_from_request(entries) {
        Ok(items) => items,
        Err(e) => {
            proof {
                if request_valid(requested) {
                    assert(forall|i: int|
                        0 <= i < requested.len() ==> new_item_valid(
                            #[trigger] requested[i].0,
                            requested[i].1,
                        ));
                }
            }
            return fail_reply(STATUS_BAD_REQUEST, e);
        },
    };
    let ghost its = items@;
    proof {
        assert forall|i: int| 0 <= i < requested.len() implies new_item_valid(
            #[trigger] requested[i].0,
            requested[i].1,
        ) by {
            if !new_item_valid(requested[i].0, requested[i].1) {
                lemma_first_invalid_exists(requested, i);
            }
        }
    }
    let outcomes = create_items(repo, table_id, items);
    let ghost outs = outcomes@;
    proof {
        assert forall|i: int| 0 <= i < requested.len() implies (#[trigger] outs[i]).0
            == requested[i].0 && create_answer(outs[i].1, requested[i].0, requested[i].1) by {
            assert(requested_item(requested[i].0, requested[i].1, its[i]));
            assert(is_create_outcome(outs[i].1, its[i]));
        }
    }
    match single_outcome(outcomes) {
        Ok(o) => Reply::Single(o),
        Err(all) => Reply::PerItem(all),
    }
}

/// Where some requested item is invalid, a first invalid one exists.
proof fn lemma_first_invalid_exists(entries: Seq<(ItemId<IdType>, NewItem)>, i: int)
    requires
        0 <= i < entries.len(),
        !new_item_valid(entries[i].0, entries[i].1),
    ensures
        exists|k: int| crate::api::helpers::first_invalid(entries, k),
    decreases i,
{
    if forall|j: int| 0 <= j < i ==> new_item_valid(#[trigger] entries[j].0, entries[j].1) {
        assert(crate::api::helpers::first_invalid(entries, i));
    } else {
        let j = choose|j: int| 0 <= j < i && !new_item_valid(#[trigger] entries[j].0, entries[j].1);
        lemma_first_invalid_exists(entries, j);
    }
}

/// Answers a request to update items in the table of `path`, given what its
/// body held (or why it could not be read). A body that cannot be read or
/// validated is answered with status 200 and the failure message.
pub fn update_items_handler<R: Repository + ?Sized>(
    repo: &mut R,
    path: &str,
    body: Result<Vec<(ItemId<IdType>, NewItem)>, String>,
) -> (r: Reply)
    ensures
        table_in_path(path@, items_pattern(), "tid"@) is None ==> single_failure(
            r,
            STATUS_BAD_REQUEST,
        ),
        table_in_path(path@, items_pattern(), "tid"@) is Some ==> match body {
            Err(e) => single_failure_with(r, STATUS_OK, e@),
            Ok(entries) => if request_valid(entries@) {
                per_item_reply(r, entries@, |o: Outcome, id: ItemId<IdType>, n: NewItem| update_answer(o, id, n))
            } else {
                single_failure(r, STATUS_OK)
            },
        },
{
    let table_id = match parse_table_id(path, "/tables/:tid/items", "tid") {
        Ok(t) => t,
        Err(e) => return fail_reply(STATUS_BAD_REQUEST, e),
    };
    let entries = match body {
        Ok(entries) => entries,
        Err(e) => return fail_reply(STATUS_OK, e),
    };
    let ghost requested = entries@;
    let items = match items_from_request(entries) {
        Ok(items) => items,
        Err(e) => return fail_reply(STATUS_OK, e),
    };
    let ghost its = items@;
    proof {
        assert forall|i: int| 0 <= i < requested.len() implies new_item_valid(
            #[trigger] requested[i].0,
            requested[i].1,
        ) by {
            if !new_item_valid(requested[i].0, requested[i].1) {
                lemma_first_invalid_exists(requested, i);
            }
        }
    }
    let outcomes = update_items(repo, table_id, items);
    let ghost outs = outcomes@;
    proof {
        assert forall|i: int| 0 <= i < requested.len() implies (#[trigger] outs[i]).0
            == requested[i].0 && update_answer(outs[i].1, requested[i].0, requested[i].1) by {
            assert(requested_item(requested[i].0, requested[i].1, its[i]));
            assert(is_update_outcome(outs[i].1, its[i]));
        }
    }
    match single_outcome(outcomes) {
        Ok(o) => Reply::Single(o),
        Err(all) => Reply::PerItem(all),
    }
}

/// Answers a request to delete several items of the table of `path`, given
/// the ids its body held (or why it could not be read). Each id gets its own
/// outcome, even when there is only one.
pub fn delete_items_handler<R: Repository + ?Sized>(
    repo: &mut R,
    path: &str,
    body: Result<Vec<ItemId<IdType>>, String>,
) -> (r: Reply)
    ensures
        table_in_path(path@, items_pattern(), "tid"@) is None ==> single_failure(
            r,
            STATUS_BAD_REQUEST,
        ),
        table_in_path(path@, items_pattern(), "tid"@) is Some ==> match body {
            Err(e) => single_failure_with(r, STATUS_BAD_REQUEST, e@),
            Ok(ids) => if ids@.len() > 0 && forall|i: int| 0 <= i < ids@.len() ==> (#[trigger] ids@[i]).0 > 0 {
                r matches Reply::PerItem(v) && v@.len() == ids@.len() && forall|i: int|
                    0 <= i < ids@.len() ==> (#[trigger] v@[i]).0 == ids@[i] && is_delete_outcome(v@[i].1)
            } else {
                single_failure(r, STATUS_BAD_REQUEST)
            },
        },
{
    let table_id = match parse_table_id(path, "/tables/:tid/items", "tid") {
        Ok(t) => t,
        Err(e) => return fail_reply(STATUS_BAD_REQUEST, e),
    };
    let ids = match body {
        Ok(ids) => ids,
        Err(e) => return fail_reply(STATUS_BAD_REQUEST, e),
    };
    let ghost requested = ids@;
    let ids = match ids_for_deletion(ids) {
        Ok(ids) => ids,
        Err(e) => {
            proof {
                if requested.len() > 0 && forall|i: int|
                    0 <= i < requested.len() ==> (#[trigger] requested[i]).0 > 0 {
                    assert(false);
                }
            }
            return fail_reply(STATUS_BAD_REQUEST, e);
        },
    };
    proof {
        if !(requested.len() > 0 && forall|i: int|
            0 <= i < requested.len() ==> (#[trigger] requested[i]).0 > 0) {
            if requested.len() > 0 {
                let i = choose|i: int| 0 <= i < requested.len() && !((#[trigger] requested[i]).0 > 0);
                lemma_first_zero_exists(requested, i);
            }
        }
    }
    Reply::PerItem(delete_items(repo, table_id, ids))
}

/// Where some id is zero, a first zero id exists.
proof fn lemma_first_zero_exists(ids: Seq<ItemId<IdType>>, i: int)
    requires
        0 <= i < ids.len(),
        ids[i].0 == 0,
    ensures
        exists|k: int|
            0 <= k < ids.len() && (#[trigger] ids[k]).0 == 0 && (forall|j: int|
                0 <= j < k ==> (#[trigger] ids[j]).0 > 0),
    decreases i,
{
    if forall|j: int| 0 <= j < i ==> (#[trigger] ids[j]).0 > 0 {
        assert(0 <= i < ids.len() && ids[i].0 == 0);
    } else {
        let j = choose|j: int| 0 <= j < i && !((#[trigger] ids[j]).0 > 0);
        lemma_first_zero_exists(ids, j);
    }
}

/// Answers a request to delete the item of `path`.
pub fn delete_item_handler<R: Repository + ?Sized>(repo: &mut R, path: &str) -> (o: Outcome)
    ensures
        table_in_path(path@, item_pattern(), "tid"@) is None ==> failed(o, STATUS_BAD_REQUEST),
        table_in_path(path@, item_pattern(), "tid"@) is Some && item_in_path(
            path@,
            item_pattern(),
            "id"@,
        ) is None ==> failed(o, STATUS_BAD_REQUEST),
        (table_in_path(path@, item_pattern(), "tid"@) is Some && item_in_path(
            path@,
            item_pattern(),
            "id"@,
        ) is Some) ==> is_delete_outcome(o),
{
    let table_id = match parse_table_id(path, "/tables/:tid/items/:id", "tid") {
        Ok(t) => t,
        Err(e) => return fail_outcome(STATUS_BAD_REQUEST, e),
    };
    let item_id = match parse_item_id(path, "/tables/:tid/items/:id", "id") {
        Ok(i) => i,
        Err(e) => return fail_outcome(STATUS_BAD_REQUEST, e),
    };
    delete_outcome(delete_item::execute(repo, delete_item::DeleteOneRequest { table_id, item_id }))
}

/// What reading the live item `id` may answer.
pub open spec fn is_read_outcome(o: Outcome, id: ItemId<IdType>) -> bool {
    ||| (o.status == STATUS_OK && (o.body matches OutcomeBody::Item(it) && it.id == id
        && !it.deleted))
    ||| fails_with(o, STATUS_BAD_REQUEST, msg_server_error())
    ||| fails_with(o, STATUS_NOT_FOUND, msg_unknown_table())
    ||| fails_with(o, STATUS_NOT_FOUND, msg_unknown_item())
}

/// What listing the live items of a table may answer.
pub open spec fn is_listing_outcome(o: Outcome) -> bool {
    ||| (o.status == STATUS_OK && (o.body matches OutcomeBody::Items(items) && sorted_by_id_text(
        items@,
    ) && forall|k: int| 0 <= k < items@.len() ==> !(#[trigger] items@[k]).deleted))
    ||| fails_with(o, STATUS_BAD_REQUEST, msg_server_error())
    ||| fails_with(o, STATUS_BAD_REQUEST, msg_unknown_table())
}

/// Answers a request to read the item of `path`.
pub fn read_item_handler<R: Repository + ?Sized>(repo: &R, path: &str) -> (o: Outcome)
    ensures
        table_in_path(path@, item_pattern(), "tid"@) is None ==> failed(o, STATUS_BAD_REQUEST),
        table_in_path(path@, item_pattern(), "tid"@) is Some && item_in_path(
            path@,
            item_pattern(),
            "id"@,
        ) is None ==> failed(o, STATUS_BAD_REQUEST),
        (table_in_path(path@, item_pattern(), "tid"@) is Some && item_in_path(
            path@,
            item_pattern(),
            "id"@,
        ) is Some) ==> is_read_outcome(o, item_in_path(path@, item_pattern(), "id"@)->Some_0),
{
    let table_id = match parse_table_id(path, "/tables/:tid/items/:id", "tid") {
        Ok(t) => t,
        Err(e) => return fail_outcome(STATUS_BAD_REQUEST, e),
    };
    let item_id = match parse_item_id(path, "/tables/:tid/items/:id", "id") {
        Ok(i) => i,
        Err(e) => return fail_outcome(STATUS_BAD_REQUEST, e),
    };
    read_outcome(read_item::execute(repo, read_item::ReadRequest { table_id, item_id }))
}

/// Answers a request to list the live items of the table of `path`.
pub fn read_items_handler<R: Repository + ?Sized>(repo: &R, path: &str) -> (o: Outcome)
    ensures
        table_in_path(path@, items_pattern(), "tid"@) is None ==> failed(o, STATUS_BAD_REQUEST),
        table_in_path(path@, items_pattern(), "tid"@) is Some ==> is_listing_outcome(o),
{
    let table_id = match parse_table_id(path, "/tables/:tid/items", "tid") {
        Ok(t) => t,
        Err(e) => return fail_outcome(STATUS_BAD_REQUEST, e),
    };
    let req = read_items::ReadAllRequest {
        table_id,
        include_deleted: false,
        filter: String::new(),
        sort_by: String::new(),
    };
    listing_outcome(read_items::execute(repo, req))
}

} // verus!
