//! The repository contract: five operations over items grouped by table, each
//! with its closed set of errors, and the decisions that every backend shares
//! (which records are visible, in which order, and what an update does to the
//! version).
pub mod inmemory;
pub mod laws;
pub mod sqlite;

use crate::domain::types::{
    IdType, Item, ItemId, ItemName, ItemNotes, ItemQuantity, ItemVersion, QuantityType, TableId,
    VersionType,
};
use crate::text::{digits, lemma_less_asymmetric, lemma_less_split, text_before, text_less};
use vstd::prelude::*;

verus! {

#[derive(PartialEq, Eq, Structural, Debug, Copy, Clone)]
pub enum InsertError {
    /// A record with that id is already live in the table.
    Conflict,
    /// A failure of the storage layer.
    Unknown,
}

#[derive(PartialEq, Eq, Structural, Debug, Copy, Clone)]
pub enum UpdateError {
    UnknownItemId,
    UnknownTableId,
    Unknown,
    /// The stored version is newer than the one submitted.
    VersionConflict,
}

#[derive(PartialEq, Eq, Structural, Debug, Copy, Clone)]
pub enum FetchAllError {
    Unknown,
    UnknownTableId,
}

#[derive(PartialEq, Eq, Structural, Debug, Copy, Clone)]
pub enum FetchOneError {
    Unknown,
    UnknownItemId,
    UnknownTableId,
}

#[derive(PartialEq, Eq, Structural, Debug, Copy, Clone)]
pub enum DeleteError {
    Unknown,
    UnknownItemId,
    UnknownTableId,
}

/// Storage of items by table: the port that the use cases run against.
///
/// A backend that states its records in `tables` and is `reliable` does
/// exactly what the model of a store says (`insert_result` and the rest). Any
/// other backend promises only what follows from the arguments: what it
/// returns on success, and that a storage fault is reported as `Unknown`.
pub trait Repository {
    /// The records of each table used so far, in order of insertion, for a
    /// backend that states them.
    closed spec fn tables(&self) -> Map<IdType, Seq<Item>> {
        Map::empty()
    }

    /// Whether the backend states its records in `tables` and is free of
    /// faults, so that every operation does exactly what the model says. A
    /// backend that states nothing keeps this false.
    closed spec fn reliable(&self) -> bool {
        false
    }

    /// Stores a new record built from the arguments and returns it; refused
    /// where the table already holds a live record with that id.
    fn insert(
        &mut self,
        table_id: TableId<IdType>,
        item_id: ItemId<IdType>,
        item_name: ItemName,
        item_notes: ItemNotes,
        item_quantity: ItemQuantity<QuantityType>,
        item_deleted: bool,
        item_version: ItemVersion<VersionType>,
        item_time_to_prepare: String,
    ) -> (r: Result<Item, InsertError>)
        ensures
            final(self).reliable() == old(self).reliable(),
            r matches Ok(item) ==> item == (Item {
                    id: item_id,
                    name: item_name,
                    notes: item_notes,
                    quantity: item_quantity,
                    deleted: item_deleted,
                    version: item_version,
                    time_to_prepare: item_time_to_prepare,
                }),
            old(self).reliable() ==> (r, final(self).tables()) == insert_result(
                old(self).tables(),
                table_id.0,
                Item {
                    id: item_id,
                    name: item_name,
                    notes: item_notes,
                    quantity: item_quantity,
                    deleted: item_deleted,
                    version: item_version,
                    time_to_prepare: item_time_to_prepare,
                },
            ),
    ;

    /// Replaces the live record `item_id` of the table, whose stored version
    /// must not be newer than `item_version`; the new record carries the
    /// stored version plus one.
    fn update(
        &mut self,
        table_id: TableId<IdType>,
        item_id: ItemId<IdType>,
        item_name: ItemName,
        item_notes: ItemNotes,
        item_quantity: ItemQuantity<QuantityType>,
        item_deleted: bool,
        item_version: ItemVersion<VersionType>,
        item_time_to_prepare: String,
    ) -> (r: Result<Item, UpdateError>)
        ensures
            final(self).reliable() == old(self).reliable(),
            r matches Ok(item) ==> {
                &&& item.id == item_id
                &&& item.name == item_name
                &&& item.notes == item_notes
                &&& item.quantity == item_quantity
                &&& item.deleted == item_deleted
                &&& item.time_to_prepare == item_time_to_prepare
                &&& 1 <= item.version.0 <= item_version.0 + 1
            },
            old(self).reliable() ==> (r, final(self).tables()) == update_result(
                old(self).tables(),
                table_id.0,
                Item {
                    id: item_id,
                    name: item_name,
                    notes: item_notes,
                    quantity: item_quantity,
                    deleted: item_deleted,
                    version: item_version,
                    time_to_prepare: item_time_to_prepare,
                },
            ),
    ;

    /// The records of a table, without the deleted ones unless asked, in the
    /// textual order of their ids.
    fn fetch_all(&self, table_id: TableId<IdType>, include_deleted: bool) -> (r: Result<
        Vec<Item>,
        FetchAllError,
    >)
        ensures
            r matches Ok(items) ==> {
                &&& sorted_by_id_text(items@)
                &&& forall|k: int|
                    0 <= k < items@.len() ==> include_deleted || !(#[trigger] items@[k]).deleted
            },
            self.reliable() ==> match r {
                Ok(v) => fetch_all_result(self.tables(), table_id.0, include_deleted) == Ok::<
                    Seq<Item>,
                    FetchAllError,
                >(v@),
                Err(e) => fetch_all_result(self.tables(), table_id.0, include_deleted) == Err::<
                    Seq<Item>,
                    FetchAllError,
                >(e),
            },
    ;

    /// The live record `item_id` of the table.
    fn fetch_one(&self, table_id: TableId<IdType>, item_id: ItemId<IdType>) -> (r: Result<
        Item,
        FetchOneError,
    >)
        ensures
            r matches Ok(item) ==> item.id == item_id && !item.deleted,
            self.reliable() ==> r == fetch_one_result(self.tables(), table_id.0, item_id),
    ;

    /// Marks the live record `item_id` of the table deleted.
    fn delete(&mut self, table_id: TableId<IdType>, item_id: ItemId<IdType>) -> (r: Result<
        (),
        DeleteError,
    >)
        ensures
            final(self).reliable() == old(self).reliable(),
            old(self).reliable() ==> (r, final(self).tables()) == delete_result(
                old(self).tables(),
                table_id.0,
                item_id,
            ),
    ;
}

// ---------------------------------------------------------------------------
// Records of one table
// ---------------------------------------------------------------------------

/// `it` is the live record with id `id`.
pub open spec fn is_live(it: Item, id: ItemId<IdType>) -> bool {
    it.id == id && !it.deleted
}

/// Some record of `s` is the live one with id `id`.
pub open spec fn has_live(s: Seq<Item>, id: ItemId<IdType>) -> bool {
    exists|i: int| 0 <= i < s.len() && is_live(#[trigger] s[i], id)
}

/// `i` is the first position of `s` that holds the live record `id`.
pub open spec fn first_live(s: Seq<Item>, id: ItemId<IdType>, i: int) -> bool {
    &&& 0 <= i < s.len()
    &&& is_live(s[i], id)
    &&& forall|j: int| 0 <= j < i ==> !is_live(#[trigger] s[j], id)
}

/// At most one record of `s` is live for each id.
pub open spec fn live_unique(s: Seq<Item>) -> bool {
    forall|i: int, j: int|
        0 <= i < s.len() && 0 <= j < s.len() && !(#[trigger] s[i]).deleted && !(#[trigger] s[j]).deleted
            && s[i].id == s[j].id ==> i == j
}

/// The first position of `list` that holds the live record `id`, if any.
pub fn live_position(list: &Vec<Item>, id: ItemId<IdType>) -> (r: Option<usize>)
    ensures
        match r {
            Some(i) => first_live(list@, id, i as int),
            None => !has_live(list@, id),
        },
{
    let mut i: usize = 0;
    while i < list.len()
        invariant
            i <= list.len(),
            forall|j: int| 0 <= j < i ==> !is_live(#[trigger] list@[j], id),
        decreases list.len() - i,
    {
        if list[i].id == id && !list[i].deleted {
            return Some(i);
        }
        i = i + 1;
    }
    None
}

// ---------------------------------------------------------------------------
// The model of a store
// ---------------------------------------------------------------------------

/// The records of table `t`; none where the table was never used.
pub open spec fn table_rows(m: Map<IdType, Seq<Item>>, t: IdType) -> Seq<Item> {
    if m.contains_key(t) {
        m[t]
    } else {
        Seq::empty()
    }
}

/// Every table holds at most one live record per id.
pub open spec fn tables_wf(m: Map<IdType, Seq<Item>>) -> bool {
    forall|t: IdType| m.contains_key(t) ==> live_unique(#[trigger] m[t])
}

/// The position of the first live record `id` of `s` (meaningful where there is one).
pub open spec fn live_index(s: Seq<Item>, id: ItemId<IdType>) -> int {
    choose|i: int| first_live(s, id, i)
}

/// `it` with the given version.
pub open spec fn with_version(it: Item, v: ItemVersion<VersionType>) -> Item {
    Item {
        id: it.id,
        name: it.name,
        notes: it.notes,
        quantity: it.quantity,
        deleted: it.deleted,
        version: v,
        time_to_prepare: it.time_to_prepare,
    }
}

/// `it` marked deleted.
pub open spec fn marked_deleted(it: Item) -> Item {
    Item {
        id: it.id,
        name: it.name,
        notes: it.notes,
        quantity: it.quantity,
        deleted: true,
        version: it.version,
        time_to_prepare: it.time_to_prepare,
    }
}

/// Inserting `it` into table `t` of `m`: what is returned and the tables after.
pub open spec fn insert_result(m: Map<IdType, Seq<Item>>, t: IdType, it: Item) -> (
    Result<Item, InsertError>,
    Map<IdType, Seq<Item>>,
) {
    if has_live(table_rows(m, t), it.id) {
        (Err(InsertError::Conflict), m)
    } else {
        (Ok(it), m.insert(t, table_rows(m, t).push(it)))
    }
}

/// Updating table `t` of `m` with `it`, whose version is the one submitted.
pub open spec fn update_result(m: Map<IdType, Seq<Item>>, t: IdType, it: Item) -> (
    Result<Item, UpdateError>,
    Map<IdType, Seq<Item>>,
) {
    if !m.contains_key(t) {
        (Err(UpdateError::UnknownTableId), m)
    } else if !has_live(m[t], it.id) {
        (Err(UpdateError::UnknownItemId), m)
    } else {
        let i = live_index(m[t], it.id);
        match update_decision(m[t][i].version, it.version) {
            Ok(v) => (Ok(with_version(it, v)), m.insert(t, m[t].update(i, with_version(it, v)))),
            Err(e) => (Err(e), m),
        }
    }
}

/// Fetching the live record `id` of table `t` of `m`.
pub open spec fn fetch_one_result(m: Map<IdType, Seq<Item>>, t: IdType, id: ItemId<IdType>) -> Result<
    Item,
    FetchOneError,
> {
    if !m.contains_key(t) {
        Err(FetchOneError::UnknownTableId)
    } else if !has_live(m[t], id) {
        Err(FetchOneError::UnknownItemId)
    } else {
        Ok(m[t][live_index(m[t], id)])
    }
}

/// Listing table `t` of `m`.
pub open spec fn fetch_all_result(
    m: Map<IdType, Seq<Item>>,
    t: IdType,
    include_deleted: bool,
) -> Result<Seq<Item>, FetchAllError> {
    if !m.contains_key(t) {
        Err(FetchAllError::UnknownTableId)
    } else {
        Ok(listing(m[t], include_deleted))
    }
}

/// Deleting the live record `id` of table `t` of `m`.
pub open spec fn delete_result(m: Map<IdType, Seq<Item>>, t: IdType, id: ItemId<IdType>) -> (
    Result<(), DeleteError>,
    Map<IdType, Seq<Item>>,
) {
    if !m.contains_key(t) {
        (Err(DeleteError::UnknownTableId), m)
    } else if !has_live(m[t], id) {
        (Err(DeleteError::UnknownItemId), m)
    } else {
        let i = live_index(m[t], id);
        (Ok(()), m.insert(t, m[t].update(i, marked_deleted(m[t][i]))))
    }
}

/// The first live position is the one `live_index` picks.
pub proof fn lemma_live_index(s: Seq<Item>, id: ItemId<IdType>, i: int)
    requires
        first_live(s, id, i),
    ensures
        live_index(s, id) == i,
{
    let j = live_index(s, id);
    assert(first_live(s, id, j));
    if j < i {
        assert(!is_live(s[j], id));
    } else if i < j {
        assert(!is_live(s[i], id));
    }
}

/// Where `s` holds a live record `id`, `live_index` is the first position of one.
pub proof fn lemma_live_index_exists(s: Seq<Item>, id: ItemId<IdType>)
    requires
        has_live(s, id),
    ensures
        first_live(s, id, live_index(s, id)),
    decreases s.len(),
{
    let p = s.drop_last();
    if has_live(p, id) {
        lemma_live_index_exists(p, id);
        let i = live_index(p, id);
        assert(s[i] == p[i]);
        assert forall|j: int| 0 <= j < i implies !is_live(#[trigger] s[j], id) by {
            assert(s[j] == p[j]);
        }
        assert(first_live(s, id, i));
        lemma_live_index(s, id, i);
    } else {
        let k = s.len() - 1;
        assert forall|j: int| 0 <= j < k implies !is_live(#[trigger] s[j], id) by {
            assert(s[j] == p[j]);
        }
        assert(first_live(s, id, k));
        lemma_live_index(s, id, k);
    }
}

/// The records of `s` that a listing shows: all of them, or the live ones.
pub open spec fn visible_items(s: Seq<Item>, include_deleted: bool) -> Seq<Item>
    decreases s.len(),
{
    if s.len() == 0 {
        s
    } else if include_deleted || !s.last().deleted {
        visible_items(s.drop_last(), include_deleted).push(s.last())
    } else {
        visible_items(s.drop_last(), include_deleted)
    }
}

/// `s` with `x` placed after every record whose id does not come after `x`'s
/// in textual order, and before the rest.
pub open spec fn insert_by_id_text(s: Seq<Item>, x: Item) -> Seq<Item>
    decreases s.len(),
{
    if s.len() == 0 {
        seq![x]
    } else if text_less(x.id.0 as nat, s.last().id.0 as nat) {
        insert_by_id_text(s.drop_last(), x).push(s.last())
    } else {
        s.push(x)
    }
}

/// `s` in the textual order of the ids; records with equal ids keep their order.
pub open spec fn sort_by_id_text(s: Seq<Item>) -> Seq<Item>
    decreases s.len(),
{
    if s.len() == 0 {
        s
    } else {
        insert_by_id_text(sort_by_id_text(s.drop_last()), s.last())
    }
}

/// No record of `s` has an id whose text comes before that of an earlier record.
pub open spec fn sorted_by_id_text(s: Seq<Item>) -> bool {
    forall|i: int, j: int|
        0 <= i < j < s.len() ==> !text_less(
            (#[trigger] s[j]).id.0 as nat,
            (#[trigger] s[i]).id.0 as nat,
        )
}

/// Every record of `r` is `x` or a record of `s`.
pub open spec fn drawn_from(r: Seq<Item>, s: Seq<Item>, x: Item) -> bool {
    forall|k: int| 0 <= k < r.len() ==> (#[trigger] r[k] == x || s.contains(r[k]))
}

proof fn lemma_insert_drawn_from(s: Seq<Item>, x: Item)
    ensures
        drawn_from(insert_by_id_text(s, x), s, x),
        insert_by_id_text(s, x).len() == s.len() + 1,
    decreases s.len(),
{
    let r = insert_by_id_text(s, x);
    if s.len() > 0 {
        let p = s.drop_last();
        if text_less(x.id.0 as nat, s.last().id.0 as nat) {
            lemma_insert_drawn_from(p, x);
            assert forall|k: int| 0 <= k < r.len() implies (#[trigger] r[k] == x || s.contains(
                r[k],
            )) by {
                if k == r.len() - 1 {
                    assert(s[s.len() - 1] == r[k]);
                } else {
                    let q = insert_by_id_text(p, x);
                    assert(r[k] == q[k]);
                    if q[k] != x {
                        let j = choose|j: int| 0 <= j < p.len() && p[j] == q[k];
                        assert(s[j] == p[j]);
                    }
                }
            }
        } else {
            assert forall|k: int| 0 <= k < r.len() implies (#[trigger] r[k] == x || s.contains(
                r[k],
            )) by {
                if k < s.len() {
                    assert(s[k] == r[k]);
                }
            }
        }
    }
}

proof fn lemma_insert_sorted(s: Seq<Item>, x: Item)
    requires
        sorted_by_id_text(s),
    ensures
        sorted_by_id_text(insert_by_id_text(s, x)),
    decreases s.len(),
{
    let r = insert_by_id_text(s, x);
    if s.len() > 0 {
        let p = s.drop_last();
        let last = s.last();
        if text_less(x.id.0 as nat, last.id.0 as nat) {
            assert(sorted_by_id_text(p)) by {
                assert forall|i: int, j: int| 0 <= i < j < p.len() implies !text_less(
                    (#[trigger] p[j]).id.0 as nat,
                    (#[trigger] p[i]).id.0 as nat,
                ) by {
                    assert(p[i] == s[i] && p[j] == s[j]);
                }
            }
            lemma_insert_sorted(p, x);
            lemma_insert_drawn_from(p, x);
            let q = insert_by_id_text(p, x);
            lemma_less_asymmetric(digits(x.id.0 as nat), digits(last.id.0 as nat), 0);
            assert forall|i: int, j: int| 0 <= i < j < r.len() implies !text_less(
                (#[trigger] r[j]).id.0 as nat,
                (#[trigger] r[i]).id.0 as nat,
            ) by {
                assert(r[i] == q[i]);
                if j < r.len() - 1 {
                    assert(r[j] == q[j]);
                } else {
                    assert(r[j] == last);
                    if q[i] != x {
                        let k = choose|k: int| 0 <= k < p.len() && p[k] == q[i];
                        assert(s[k] == p[k]);
                        assert(!text_less(s[s.len() - 1].id.0 as nat, s[k].id.0 as nat));
                    }
                }
            }
        } else {
            assert forall|i: int, j: int| 0 <= i < j < r.len() implies !text_less(
                (#[trigger] r[j]).id.0 as nat,
                (#[trigger] r[i]).id.0 as nat,
            ) by {
                if j == r.len() - 1 && i < s.len() - 1 {
                    assert(r[i] == s[i]);
                    assert(!text_less(s[s.len() - 1].id.0 as nat, s[i].id.0 as nat));
                    if text_less(x.id.0 as nat, s[i].id.0 as nat) {
                        lemma_less_split(
                            digits(s[i].id.0 as nat),
                            digits(last.id.0 as nat),
                            digits(x.id.0 as nat),
                            0,
                        );
                    }
                } else if j < r.len() - 1 {
                    assert(r[i] == s[i] && r[j] == s[j]);
                }
            }
        }
    }
}

/// A sorted sequence is in the textual order of its ids, and every record of
/// it is a record of the sequence sorted.
pub proof fn lemma_sort_by_id_text(s: Seq<Item>)
    ensures
        sorted_by_id_text(sort_by_id_text(s)),
        sort_by_id_text(s).len() == s.len(),
        forall|k: int|
            0 <= k < sort_by_id_text(s).len() ==> s.contains(#[trigger] sort_by_id_text(s)[k]),
    decreases s.len(),
{
    if s.len() > 0 {
        let p = s.drop_last();
        lemma_sort_by_id_text(p);
        let q = sort_by_id_text(p);
        lemma_insert_sorted(q, s.last());
        lemma_insert_drawn_from(q, s.last());
        let r = sort_by_id_text(s);
        assert forall|k: int| 0 <= k < r.len() implies s.contains(#[trigger] r[k]) by {
            if r[k] == s.last() {
                assert(s[s.len() - 1] == r[k]);
            } else {
                let j = choose|j: int| 0 <= j < q.len() && q[j] == r[k];
                let m = choose|m: int| 0 <= m < p.len() && p[m] == q[j];
                assert(s[m] == p[m]);
            }
        }
    }
}

/// Every record that `visible_items` keeps is a record of `s`, and a live one
/// unless deleted ones were asked for; with deleted ones it keeps all of `s`.
pub proof fn lemma_visible_items(s: Seq<Item>, include_deleted: bool)
    ensures
        include_deleted ==> visible_items(s, include_deleted) == s,
        forall|k: int|
            0 <= k < visible_items(s, include_deleted).len() ==> s.contains(
                #[trigger] visible_items(s, include_deleted)[k],
            ) && (include_deleted || !visible_items(s, include_deleted)[k].deleted),
    decreases s.len(),
{
    if s.len() > 0 {
        let p = s.drop_last();
        lemma_visible_items(p, include_deleted);
        if include_deleted {
            assert(s =~= p.push(s.last()));
        }
        let v = visible_items(s, include_deleted);
        let w = visible_items(p, include_deleted);
        assert forall|k: int| 0 <= k < v.len() implies s.contains(#[trigger] v[k]) && (
        include_deleted || !v[k].deleted) by {
            if k < w.len() {
                assert(v[k] == w[k]);
                let j = choose|j: int| 0 <= j < p.len() && p[j] == w[k];
                assert(s[j] == p[j]);
            } else {
                assert(v[k] == s[s.len() - 1]);
            }
        }
    }
}

proof fn lemma_insert_multiset(s: Seq<Item>, x: Item)
    ensures
        insert_by_id_text(s, x).to_multiset() =~= s.to_multiset().insert(x),
    decreases s.len(),
{
    broadcast use vstd::seq_lib::group_to_multiset_ensures;

    if s.len() == 0 {
        assert(insert_by_id_text(s, x) =~= s.push(x));
    } else {
        let p = s.drop_last();
        assert(s =~= p.push(s.last()));
        if text_less(x.id.0 as nat, s.last().id.0 as nat) {
            lemma_insert_multiset(p, x);
        }
    }
}

/// Sorting keeps every record as often as it occurs.
pub proof fn lemma_sort_multiset(s: Seq<Item>)
    ensures
        sort_by_id_text(s).to_multiset() =~= s.to_multiset(),
    decreases s.len(),
{
    broadcast use vstd::seq_lib::group_to_multiset_ensures;

    if s.len() > 0 {
        let p = s.drop_last();
        assert(s =~= p.push(s.last()));
        lemma_sort_multiset(p);
        lemma_insert_multiset(sort_by_id_text(p), s.last());
    }
}

/// A listing is in the textual order of the ids, holds each record that it
/// keeps exactly as often as the table does, and holds only records of the
/// table, live ones unless deleted ones were asked for.
pub proof fn lemma_listing(s: Seq<Item>, include_deleted: bool)
    ensures
        sorted_by_id_text(listing(s, include_deleted)),
        listing(s, include_deleted).to_multiset() =~= visible_items(
            s,
            include_deleted,
        ).to_multiset(),
        forall|k: int|
            0 <= k < listing(s, include_deleted).len() ==> s.contains(
                #[trigger] listing(s, include_deleted)[k],
            ) && (include_deleted || !listing(s, include_deleted)[k].deleted),
{
    let v = visible_items(s, include_deleted);
    lemma_visible_items(s, include_deleted);
    lemma_sort_by_id_text(v);
    lemma_sort_multiset(v);
    let l = listing(s, include_deleted);
    assert forall|k: int| 0 <= k < l.len() implies s.contains(#[trigger] l[k]) && (include_deleted
        || !l[k].deleted) by {
        let j = choose|j: int| 0 <= j < v.len() && v[j] == l[k];
        assert(v.contains(v[j]));
    }
}

/// The records of a table as a listing returns them.
pub open spec fn listing(s: Seq<Item>, include_deleted: bool) -> Seq<Item> {
    sort_by_id_text(visible_items(s, include_deleted))
}

fn visible_copy(list: &Vec<Item>, include_deleted: bool) -> (r: Vec<Item>)
    ensures
        r@ == visible_items(list@, include_deleted),
{
    let mut r: Vec<Item> = Vec::new();
    let mut i: usize = 0;
    while i < list.len()
        invariant
            i <= list.len(),
            r@ == visible_items(list@.subrange(0, i as int), include_deleted),
        decreases list.len() - i,
    {
        assert(list@.subrange(0, i + 1).drop_last() =~= list@.subrange(0, i as int));
        if include_deleted || !list[i].deleted {
            r.push(list[i].duplicate());
        }
        i = i + 1;
    }
    assert(list@.subrange(0, list.len() as int) =~= list@);
    r
}

/// Places `x` into `r` as `insert_by_id_text` does.
fn insert_in_order(r: &mut Vec<Item>, x: Item)
    ensures
        final(r)@ == insert_by_id_text(old(r)@, x),
{
    let ghost s = r@;
    let mut j: usize = r.len();
    assert(s.subrange(0, j as int) =~= s);
    assert(s.subrange(j as int, s.len() as int) =~= Seq::<Item>::empty());
    while j > 0 && text_before(x.id.0 as u64, r[j - 1].id.0 as u64)
        invariant
            j <= s.len(),
            r@ == s,
            insert_by_id_text(s, x) == insert_by_id_text(s.subrange(0, j as int), x) + s.subrange(
                j as int,
                s.len() as int,
            ),
        decreases j,
    {
        let ghost p = s.subrange(0, j as int);
        assert(p.drop_last() =~= s.subrange(0, j - 1));
        assert(s.subrange(j - 1, s.len() as int) =~= seq![s[j - 1]] + s.subrange(
            j as int,
            s.len() as int,
        ));
        assert(insert_by_id_text(p.drop_last(), x).push(p.last()) + s.subrange(
            j as int,
            s.len() as int,
        ) =~= insert_by_id_text(p.drop_last(), x) + s.subrange(j - 1, s.len() as int));
        j = j - 1;
    }
    proof {
        let p = s.subrange(0, j as int);
        if j > 0 {
            assert(p.last() == s[j - 1]);
        }
        assert(insert_by_id_text(p, x) =~= p.push(x));
    }
    r.insert(j, x);
    assert(r@ =~= s.subrange(0, j as int).push(x) + s.subrange(j as int, s.len() as int));
}

/// The records of `list` that a listing shows, in the textual order of their ids.
pub fn visible_sorted(list: &Vec<Item>, include_deleted: bool) -> (r: Vec<Item>)
    ensures
        r@ == listing(list@, include_deleted),
{
    let vis = visible_copy(list, include_deleted);
    let mut r: Vec<Item> = Vec::new();
    let mut i: usize = 0;
    while i < vis.len()
        invariant
            i <= vis.len(),
            r@ == sort_by_id_text(vis@.subrange(0, i as int)),
        decreases vis.len() - i,
    {
        assert(vis@.subrange(0, i + 1).drop_last() =~= vis@.subrange(0, i as int));
        insert_in_order(&mut r, vis[i].duplicate());
        i = i + 1;
    }
    assert(vis@.subrange(0, vis.len() as int) =~= vis@);
    r
}

// ---------------------------------------------------------------------------
// Versions
// ---------------------------------------------------------------------------

/// What an update decides from the stored version and the submitted one: a
/// conflict when the stored one is newer, else the stored one plus one (a
/// storage fault where no version follows it).
pub open spec fn update_decision(
    stored: ItemVersion<VersionType>,
    candidate: ItemVersion<VersionType>,
) -> Result<ItemVersion<VersionType>, UpdateError> {
    if stored.0 > candidate.0 {
        Err(UpdateError::VersionConflict)
    } else if stored.0 == u32::MAX {
        Err(UpdateError::Unknown)
    } else {
        Ok(ItemVersion((stored.0 + 1) as u32))
    }
}

/// Decides an update as `update_decision` says.
pub fn decide_update(stored: ItemVersion<VersionType>, candidate: ItemVersion<VersionType>) -> (r:
    Result<ItemVersion<VersionType>, UpdateError>)
    ensures
        r == update_decision(stored, candidate),
{
    if stored.0 > candidate.0 {
        return Err(UpdateError::VersionConflict);
    }
    match stored.next() {
        Some(v) => Ok(v),
        None => Err(UpdateError::Unknown),
    }
}

} // verus!
