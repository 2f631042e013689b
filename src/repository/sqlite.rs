//! What the persistent backend decides around its SQL statements: how a failed
//! statement maps to an error, which stored rows make valid items, and what a
//! read or a write that touched some rows means. The statements themselves run
//! outside this library and hand their results in as plain values.
use crate::domain::types::{
    valid_name, valid_notes, IdType, Item, ItemId, ItemName, ItemNotes, ItemQuantity, ItemVersion,
    QuantityType, VersionType,
};
use crate::repository::{
    decide_update, listing, update_decision, visible_sorted, DeleteError, FetchAllError,
    FetchOneError, InsertError, UpdateError,
};
use vstd::prelude::*;

verus! {

/// A stored row of the item table, as read.
pub struct ItemRow {
    pub item_id: IdType,
    pub table_id: IdType,
    pub name: String,
    pub notes: String,
    pub quantity: QuantityType,
    pub deleted: bool,
    pub version: VersionType,
    pub time_to_prepare: String,
}

/// How a statement failed.
#[derive(PartialEq, Eq, Structural, Debug, Copy, Clone)]
pub enum StatementFailure {
    /// The unique index on live `(item_id, table_id)` refused the row.
    UniqueViolation,
    Other,
}

/// `p` occurs in `s`.
pub open spec fn contains_text(s: Seq<char>, p: Seq<char>) -> bool {
    exists|i: int| 0 <= i && i + p.len() <= s.len() && #[trigger] s.subrange(i, i + p.len()) == p
}

/// The failure that a database message reports.
pub open spec fn failure_of(message: Option<Seq<char>>) -> StatementFailure {
    match message {
        Some(m) => if contains_text(m, "UNIQUE constraint failed"@) {
            StatementFailure::UniqueViolation
        } else {
            StatementFailure::Other
        },
        None => StatementFailure::Other,
    }
}

fn occurs_at(s: &str, p: &str, i: usize) -> (r: bool)
    requires
        i + p@.len() <= s@.len(),
        s@.len() <= usize::MAX,
    ensures
        r == (s@.subrange(i as int, i + p@.len()) == p@),
{
    let k = p.unicode_len();
    let mut j: usize = 0;
    while j < k
        invariant
            j <= k,
            k == p@.len(),
            i + k <= s@.len(),
            s@.len() <= usize::MAX,
            forall|l: int| 0 <= l < j ==> s@[i + l] == #[trigger] p@[l],
        decreases k - j,
    {
        if s.get_char(i + j) != p.get_char(j) {
            assert(s@.subrange(i as int, i + k)[j as int] != p@[j as int]);
            return false;
        }
        j = j + 1;
    }
    assert(s@.subrange(i as int, i + k) =~= p@);
    true
}

/// Whether `p` occurs in `s`.
pub fn contains_str(s: &str, p: &str) -> (r: bool)
    ensures
        r == contains_text(s@, p@),
{
    let n = s.unicode_len();
    let k = p.unicode_len();
    if k > n {
        return false;
    }
    let mut i: usize = 0;
    while i <= n - k
        invariant
            n == s@.len(),
            k == p@.len(),
            k <= n,
            i <= n - k,
            forall|l: int| 0 <= l < i ==> #[trigger] s@.subrange(l, l + k) != p@,
        decreases n - k + 1 - i,
    {
        if occurs_at(s, p, i) {
            return true;
        }
        if i == n - k {
            return false;
        }
        i = i + 1;
    }
    false
}

/// Classifies a failed statement by the message that came with it.
pub fn failure_from_message(message: Option<&str>) -> (r: StatementFailure)
    ensures
        r == failure_of(
            match message {
                Some(m) => Some(m@),
                None => None,
            },
        ),
{
    match message {
        Some(m) => if contains_str(m, "UNIQUE constraint failed") {
            StatementFailure::UniqueViolation
        } else {
            StatementFailure::Other
        },
        None => StatementFailure::Other,
    }
}

/// An insert refused by the unique index conflicts with a live record.
pub fn insert_error(f: StatementFailure) -> (r: InsertError)
    ensures
        r == (if f == StatementFailure::UniqueViolation {
            InsertError::Conflict
        } else {
            InsertError::Unknown
        }),
{
    match f {
        StatementFailure::UniqueViolation => InsertError::Conflict,
        StatementFailure::Other => InsertError::Unknown,
    }
}

/// An update refused by the unique index is reported as a version conflict.
pub fn update_error(f: StatementFailure) -> (r: UpdateError)
    ensures
        r == (if f == StatementFailure::UniqueViolation {
            UpdateError::VersionConflict
        } else {
            UpdateError::Unknown
        }),
{
    match f {
        StatementFailure::UniqueViolation => UpdateError::VersionConflict,
        StatementFailure::Other => UpdateError::Unknown,
    }
}

/// A stored row's values pass validation again: a positive id, a valid name
/// and valid notes.
pub open spec fn row_item(
    item_id: IdType,
    name: Seq<char>,
    notes: Seq<char>,
) -> bool {
    item_id > 0 && valid_name(name) && valid_notes(notes)
}

/// The item that a row holds (a valid one where `row_valid` holds).
pub open spec fn item_of(row: ItemRow) -> Item {
    Item {
        id: ItemId(row.item_id),
        name: ItemName(row.name),
        notes: ItemNotes(row.notes),
        quantity: ItemQuantity(row.quantity),
        deleted: row.deleted,
        version: ItemVersion(row.version),
        time_to_prepare: row.time_to_prepare,
    }
}

pub open spec fn row_valid(row: ItemRow) -> bool {
    row_item(row.item_id, row.name@, row.notes@)
}

/// Builds the item of a stored row, validating it again.
pub fn item_from_row(row: ItemRow) -> (r: Option<Item>)
    ensures
        row_valid(row) ==> r == Some(item_of(row)),
        !row_valid(row) ==> r is None,
        r matches Some(it) ==> it.valid(),
{
    if row.item_id == 0 {
        return None;
    }
    let name = match ItemName::parse(row.name) {
        Ok(n) => n,
        Err(_) => return None,
    };
    let notes = match ItemNotes::parse(row.notes) {
        Ok(n) => n,
        Err(_) => return None,
    };
    Some(
        Item::new(
            ItemId(row.item_id),
            name,
            notes,
            ItemQuantity(row.quantity),
            row.deleted,
            ItemVersion(row.version),
            row.time_to_prepare,
        ),
    )
}

/// Every row holds a valid item.
pub open spec fn rows_valid(rows: Seq<ItemRow>) -> bool {
    forall|i: int| 0 <= i < rows.len() ==> row_valid(#[trigger] rows[i])
}

/// The items of all rows, where every one is valid; none where one is not.
pub fn items_from_rows(rows: Vec<ItemRow>) -> (r: Option<Vec<Item>>)
    ensures
        rows_valid(rows@) ==> (r matches Some(v) && v@ == rows@.map_values(|row: ItemRow| item_of(row))),
        !rows_valid(rows@) ==> r is None,
{
    let ghost all = rows@;
    let n = rows.len();
    let mut rest = rows;
    let mut items: Vec<Item> = Vec::new();
    let mut i: usize = 0;
    while rest.len() > 0
        invariant
            i + rest@.len() == all.len(),
            all.len() == n,
            all == rows@,
            rest@ =~= all.subrange(i as int, all.len() as int),
            forall|j: int| 0 <= j < i ==> row_valid(#[trigger] all[j]),
            items@ =~= all.subrange(0, i as int).map_values(|row: ItemRow| item_of(row)),
        decreases rest.len(),
    {
        let row = rest.remove(0);
        assert(row == all[i as int]);
        match item_from_row(row) {
            Some(item) => items.push(item),
            None => {
                assert(!row_valid(all[i as int]));
                return None;
            },
        }
        i = i + 1;
    }
    assert(all.subrange(0, i as int) =~= all);
    Some(items)
}

/// A listing from all stored rows of a table, deleted ones included: a table
/// without rows was never used, and a row that fails validation is a storage
/// fault.
pub fn listing_from_rows(rows: Vec<ItemRow>, include_deleted: bool) -> (r: Result<
    Vec<Item>,
    FetchAllError,
>)
    ensures
        rows@.len() == 0 ==> r == Err::<Vec<Item>, FetchAllError>(FetchAllError::UnknownTableId),
        rows@.len() > 0 && !rows_valid(rows@) ==> r == Err::<Vec<Item>, FetchAllError>(
            FetchAllError::Unknown,
        ),
        rows@.len() > 0 && rows_valid(rows@) ==> (r matches Ok(v) && v@ == listing(
            rows@.map_values(|row: ItemRow| item_of(row)),
            include_deleted,
        )),
{
    if rows.len() == 0 {
        return Err(FetchAllError::UnknownTableId);
    }
    match items_from_rows(rows) {
        Some(items) => Ok(visible_sorted(&items, include_deleted)),
        None => Err(FetchAllError::Unknown),
    }
}

/// The answer to a fetch from the live rows of the requested id and whether
/// the table has any rows at all.
pub fn record_from_rows(table_known: bool, rows: Vec<ItemRow>) -> (r: Result<Item, FetchOneError>)
    ensures
        !table_known ==> r == Err::<Item, FetchOneError>(FetchOneError::UnknownTableId),
        table_known && rows@.len() == 0 ==> r == Err::<Item, FetchOneError>(
            FetchOneError::UnknownItemId,
        ),
        table_known && rows@.len() > 0 && !row_valid(rows@[0]) ==> r == Err::<
            Item,
            FetchOneError,
        >(FetchOneError::Unknown),
        table_known && rows@.len() > 0 && row_valid(rows@[0]) ==> r == Ok::<Item, FetchOneError>(
            item_of(rows@[0]),
        ),
{
    if !table_known {
        return Err(FetchOneError::UnknownTableId);
    }
    let mut rows = rows;
    if rows.len() == 0 {
        return Err(FetchOneError::UnknownItemId);
    }
    let row = rows.remove(0);
    match item_from_row(row) {
        Some(item) => Ok(item),
        None => Err(FetchOneError::Unknown),
    }
}

/// The version an update writes, from whether the table has any rows, the
/// live rows of the requested id, and the version submitted.
pub fn update_plan(
    table_known: bool,
    rows: &Vec<ItemRow>,
    candidate: ItemVersion<VersionType>,
) -> (r: Result<ItemVersion<VersionType>, UpdateError>)
    ensures
        !table_known ==> r == Err::<ItemVersion<VersionType>, UpdateError>(
            UpdateError::UnknownTableId,
        ),
        table_known && rows@.len() == 0 ==> r == Err::<ItemVersion<VersionType>, UpdateError>(
            UpdateError::UnknownItemId,
        ),
        table_known && rows@.len() > 0 ==> r == update_decision(
            ItemVersion(rows@[0].version),
            candidate,
        ),
{
    if !table_known {
        return Err(UpdateError::UnknownTableId);
    }
    if rows.len() == 0 {
        return Err(UpdateError::UnknownItemId);
    }
    decide_update(ItemVersion(rows[0].version), candidate)
}

/// The answer to a delete from whether the table has any rows and how many
/// live rows the marking statement touched.
pub fn delete_outcome(table_known: bool, affected: Result<usize, StatementFailure>) -> (r: Result<
    (),
    DeleteError,
>)
    ensures
        !table_known ==> r == Err::<(), DeleteError>(DeleteError::UnknownTableId),
        table_known ==> match affected {
            Ok(n) => if n == 0 {
                r == Err::<(), DeleteError>(DeleteError::UnknownItemId)
            } else {
                r == Ok::<(), DeleteError>(())
            },
            Err(_) => r == Err::<(), DeleteError>(DeleteError::Unknown),
        },
{
    if !table_known {
        return Err(DeleteError::UnknownTableId);
    }
    match affected {
        Ok(0) => Err(DeleteError::UnknownItemId),
        Ok(_) => Ok(()),
        Err(_) => Err(DeleteError::Unknown),
    }
}

} // verus!
