//! A backend that keeps every table's records in memory, in order of
//! insertion. Deleting marks a record; nothing is ever removed.
use crate::domain::types::{
    IdType, Item, ItemId, ItemName, ItemNotes, ItemQuantity, ItemVersion, QuantityType, TableId,
    VersionType,
};
use crate::repository::{
    decide_update, delete_result, fetch_all_result, fetch_one_result, first_live, has_live,
    insert_result, lemma_listing, lemma_live_index, lemma_live_index_exists, live_index,
    live_position, live_unique, marked_deleted, table_rows, tables_wf, update_decision,
    update_result, visible_sorted, DeleteError, FetchAllError, FetchOneError, InsertError,
    Repository, UpdateError,
};
use std::collections::HashMap;
use vstd::prelude::*;

verus! {

broadcast use vstd::std_specs::hash::group_hash_axioms;

/// Records of every table, kept in memory.
pub struct InMemoryRepository {
    error: bool,
    items: HashMap<IdType, Vec<Item>>,
}

impl InMemoryRepository {
    pub open spec fn wf(&self) -> bool {
        tables_wf(self.tables())
    }

    /// An empty store.
    pub fn new() -> (r: Self)
        ensures
            r.tables() == Map::<IdType, Seq<Item>>::empty(),
            r.reliable(),
            r.wf(),
    {
        let r = Self { error: false, items: HashMap::new() };
        assert(r.tables() =~= Map::<IdType, Seq<Item>>::empty());
        r
    }

    /// The same store, with every operation failing from now on.
    pub fn with_error(self) -> (r: Self)
        ensures
            r.tables() == self.tables(),
            !r.reliable(),
    {
        Self { error: true, items: self.items }
    }

    /// The records of table `t`, taken out of the map.
    fn take_rows(&mut self, t: IdType) -> (r: Vec<Item>)
        ensures
            r@ == table_rows(old(self).tables(), t),
            final(self).error == old(self).error,
            final(self).tables() == old(self).tables().remove(t),
    {
        let r = match self.items.remove(&t) {
            Some(v) => v,
            None => Vec::new(),
        };
        assert(self.tables() =~= old(self).tables().remove(t));
        r
    }

    /// Puts the records of table `t` back into the map.
    fn put_rows(&mut self, t: IdType, rows: Vec<Item>)
        ensures
            final(self).error == old(self).error,
            final(self).tables() == old(self).tables().insert(t, rows@),
    {
        self.items.insert(t, rows);
        assert(self.tables() =~= old(self).tables().insert(t, rows@));
    }

    pub fn insert(
        &mut self,
        table_id: TableId<IdType>,
        item_id: ItemId<IdType>,
        item_name: ItemName,
        item_notes: ItemNotes,
        item_quantity: ItemQuantity<QuantityType>,
        item_deleted: bool,
        item_version: ItemVersion<VersionType>,
        item_time_to_prepare: String,
    ) -> (r: Result<Item, InsertError>)
        ensures
            final(self).reliable() == old(self).reliable(),
            !old(self).reliable() ==> r == Err::<Item, InsertError>(InsertError::Unknown)
                && final(self).tables() == old(self).tables(),
            old(self).reliable() ==> (r, final(self).tables()) == insert_result(
                old(self).tables(),
                table_id.0,
                Item {
                    id: item_id,
                    name: item_name,
                    notes: item_notes,
                    quantity: item_quantity,
                    deleted: item_deleted,
                    version: item_version,
                    time_to_prepare: item_time_to_prepare,
                },
            ),
            old(self).wf() ==> final(self).wf(),
    {
        if self.error {
            return Err(InsertError::Unknown);
        }
        let t = table_id.0;
        let ghost m = self.tables();
        let mut rows = self.take_rows(t);
        if let Some(_) = live_position(&rows, item_id) {
            self.put_rows(t, rows);
            assert(m.contains_key(t));
            assert(self.tables() =~= m);
            return Err(InsertError::Conflict);
        }
        let item = Item::new(
            item_id,
            item_name,
            item_notes,
            item_quantity,
            item_deleted,
            item_version,
            item_time_to_prepare,
        );
        rows.push(item.duplicate());
        self.put_rows(t, rows);
        proof {
            assert(self.tables() =~= m.insert(t, table_rows(m, t).push(item)));
            if tables_wf(m) {
                let s = table_rows(m, t).push(item);
                assert forall|u: IdType| self.tables().contains_key(u) implies live_unique(
                    #[trigger] self.tables()[u],
                ) by {
                    if u == t {
                        assert forall|i: int, j: int|
                            0 <= i < s.len() && 0 <= j < s.len() && !(#[trigger] s[i]).deleted
                                && !(#[trigger] s[j]).deleted && s[i].id == s[j].id implies i
                            == j by {
                            if i < s.len() - 1 && j == s.len() - 1 {
                                assert(super::is_live(table_rows(m, t)[i], item_id));
                            } else if j < s.len() - 1 && i == s.len() - 1 {
                                assert(super::is_live(table_rows(m, t)[j], item_id));
                            } else if i < s.len() - 1 && j < s.len() - 1 {
                                assert(live_unique(m[t]));
                            }
                        }
                    }
                }
            }
        }
        Ok(item)
    }

    pub fn update(
        &mut self,
        table_id: TableId<IdType>,
        item_id: ItemId<IdType>,
        item_name: ItemName,
        item_notes: ItemNotes,
        item_quantity: ItemQuantity<QuantityType>,
        item_deleted: bool,
        item_version: ItemVersion<VersionType>,
        item_time_to_prepare: String,
    ) -> (r: Result<Item, UpdateError>)
        ensures
            final(self).reliable() == old(self).reliable(),
            !old(self).reliable() ==> r == Err::<Item, UpdateError>(UpdateError::Unknown)
                && final(self).tables() == old(self).tables(),
            old(self).reliable() ==> (r, final(self).tables()) == update_result(
                old(self).tables(),
                table_id.0,
                Item {
                    id: item_id,
                    name: item_name,
                    notes: item_notes,
                    quantity: item_quantity,
                    deleted: item_deleted,
                    version: item_version,
                    time_to_prepare: item_time_to_prepare,
                },
            ),
            old(self).wf() ==> final(self).wf(),
    {
        if self.error {
            return Err(UpdateError::Unknown);
        }
        let t = table_id.0;
        if !self.items.contains_key(&t) {
            return Err(UpdateError::UnknownTableId);
        }
        let ghost m = self.tables();
        let mut rows = self.take_rows(t);
        let pos = match live_position(&rows, item_id) {
            Some(pos) => pos,
            None => {
                self.put_rows(t, rows);
                assert(self.tables() =~= m);
                return Err(UpdateError::UnknownItemId);
            },
        };
        proof {
            lemma_live_index(m[t], item_id, pos as int);
        }
        let new_version = match decide_update(rows[pos].version, item_version) {
            Ok(v) => v,
            Err(e) => {
                self.put_rows(t, rows);
                assert(self.tables() =~= m);
                return Err(e);
            },
        };
        let item = Item::new(
            item_id,
            item_name,
            item_notes,
            item_quantity,
            item_deleted,
            new_version,
            item_time_to_prepare,
        );
        let ghost before = rows@;
        rows.set(pos, item.duplicate());
        self.put_rows(t, rows);
        proof {
            assert(self.tables() =~= m.insert(t, m[t].update(pos as int, item)));
            if tables_wf(m) {
                let s = m[t].update(pos as int, item);
                assert forall|u: IdType| self.tables().contains_key(u) implies live_unique(
                    #[trigger] self.tables()[u],
                ) by {
                    if u == t {
                        assert forall|i: int, j: int|
                            0 <= i < s.len() && 0 <= j < s.len() && !(#[trigger] s[i]).deleted
                                && !(#[trigger] s[j]).deleted && s[i].id == s[j].id implies i
                            == j by {
                            assert(live_unique(m[t]));
                            if i != pos && j == pos {
                                assert(!before[i].deleted && before[i].id == before[j].id);
                            } else if j != pos && i == pos {
                                assert(!before[j].deleted && before[i].id == before[j].id);
                            }
                        }
                    }
                }
            }
        }
        Ok(item)
    }

    pub fn fetch_all(&self, table_id: TableId<IdType>, include_deleted: bool) -> (r: Result<
        Vec<Item>,
        FetchAllError,
    >)
        ensures
            !self.reliable() ==> r == Err::<Vec<Item>, FetchAllError>(FetchAllError::Unknown),
            self.reliable() ==> match r {
                Ok(v) => fetch_all_result(self.tables(), table_id.0, include_deleted) == Ok::<
                    Seq<Item>,
                    FetchAllError,
                >(v@),
                Err(e) => fetch_all_result(self.tables(), table_id.0, include_deleted) == Err::<
                    Seq<Item>,
                    FetchAllError,
                >(e),
            },
    {
        if self.error {
            return Err(FetchAllError::Unknown);
        }
        match self.items.get(&table_id.0) {
            Some(rows) => Ok(visible_sorted(rows, include_deleted)),
            None => Err(FetchAllError::UnknownTableId),
        }
    }

    pub fn fetch_one(&self, table_id: TableId<IdType>, item_id: ItemId<IdType>) -> (r: Result<
        Item,
        FetchOneError,
    >)
        ensures
            !self.reliable() ==> r == Err::<Item, FetchOneError>(FetchOneError::Unknown),
            self.reliable() ==> r == fetch_one_result(self.tables(), table_id.0, item_id),
    {
        if self.error {
            return Err(FetchOneError::Unknown);
        }
        match self.items.get(&table_id.0) {
            Some(rows) => match live_position(rows, item_id) {
                Some(pos) => {
                    proof {
                        lemma_live_index(self.tables()[table_id.0], item_id, pos as int);
                    }
                    Ok(rows[pos].duplicate())
                },
                None => Err(FetchOneError::UnknownItemId),
            },
            None => Err(FetchOneError::UnknownTableId),
        }
    }

    pub fn delete(&mut self, table_id: TableId<IdType>, item_id: ItemId<IdType>) -> (r: Result<
        (),
        DeleteError,
    >)
        ensures
            final(self).reliable() == old(self).reliable(),
            !old(self).reliable() ==> r == Err::<(), DeleteError>(DeleteError::Unknown)
                && final(self).tables() == old(self).tables(),
            old(self).reliable() ==> (r, final(self).tables()) == delete_result(
                old(self).tables(),
                table_id.0,
                item_id,
            ),
            old(self).wf() ==> final(self).wf(),
    {
        if self.error {
            return Err(DeleteError::Unknown);
        }
        let t = table_id.0;
        if !self.items.contains_key(&t) {
            return Err(DeleteError::UnknownTableId);
        }
        let ghost m = self.tables();
        let mut rows = self.take_rows(t);
        let pos = match live_position(&rows, item_id) {
            Some(pos) => pos,
            None => {
                self.put_rows(t, rows);
                assert(self.tables() =~= m);
                return Err(DeleteError::UnknownItemId);
            },
        };
        proof {
            lemma_live_index(m[t], item_id, pos as int);
        }
        let mut record = rows[pos].duplicate();
        record.deleted = true;
        let ghost before = rows@;
        rows.set(pos, record);
        self.put_rows(t, rows);
        proof {
            assert(record == marked_deleted(before[pos as int]));
            assert(self.tables() =~= m.insert(t, m[t].update(pos as int, record)));
            if tables_wf(m) {
                let s = m[t].update(pos as int, record);
                assert forall|u: IdType| self.tables().contains_key(u) implies live_unique(
                    #[trigger] self.tables()[u],
                ) by {
                    if u == t {
                        assert forall|i: int, j: int|
                            0 <= i < s.len() && 0 <= j < s.len() && !(#[trigger] s[i]).deleted
                                && !(#[trigger] s[j]).deleted && s[i].id == s[j].id implies i
                            == j by {
                            assert(live_unique(m[t]));
                            assert(s[i] == before[i] && s[j] == before[j]);
                        }
                    }
                }
            }
        }
        Ok(())
    }
}

impl Repository for InMemoryRepository {
    closed spec fn tables(&self) -> Map<IdType, Seq<Item>> {
        Map::new(|t: IdType| self.items@.contains_key(t), |t: IdType| self.items@[t]@)
    }

    closed spec fn reliable(&self) -> bool {
        !self.error
    }

    fn insert(
        &mut self,
        table_id: TableId<IdType>,
        item_id: ItemId<IdType>,
        item_name: ItemName,
        item_notes: ItemNotes,
        item_quantity: ItemQuantity<QuantityType>,
        item_deleted: bool,
        item_version: ItemVersion<VersionType>,
        item_time_to_prepare: String,
    ) -> (r: Result<Item, InsertError>) {
        InMemoryRepository::insert(
            self,
            table_id,
            item_id,
            item_name,
            item_notes,
            item_quantity,
            item_deleted,
            item_version,
            item_time_to_prepare,
        )
    }

    fn update(
        &mut self,
        table_id: TableId<IdType>,
        item_id: ItemId<IdType>,
        item_name: ItemName,
        item_notes: ItemNotes,
        item_quantity: ItemQuantity<QuantityType>,
        item_deleted: bool,
        item_version: ItemVersion<VersionType>,
        item_time_to_prepare: String,
    ) -> (r: Result<Item, UpdateError>) {
        let r = InMemoryRepository::update(
            self,
            table_id,
            item_id,
            item_name,
            item_notes,
            item_quantity,
            item_deleted,
            item_version,
            item_time_to_prepare,
        );
        proof {
            if r is Ok {
                let m = old(self).tables();
                let i = live_index(m[table_id.0], item_id);
                assert(update_decision(m[table_id.0][i].version, item_version) == Ok::<
                    ItemVersion<VersionType>,
                    UpdateError,
                >(r->Ok_0.version));
            }
        }
        r
    }

    fn fetch_all(&self, table_id: TableId<IdType>, include_deleted: bool) -> (r: Result<
        Vec<Item>,
        FetchAllError,
    >) {
        let r = InMemoryRepository::fetch_all(self, table_id, include_deleted);
        proof {
            if r is Ok {
                lemma_listing(self.tables()[table_id.0], include_deleted);
            }
        }
        r
    }

    fn fetch_one(&self, table_id: TableId<IdType>, item_id: ItemId<IdType>) -> (r: Result<
        Item,
        FetchOneError,
    >) {
        let r = InMemoryRepository::fetch_one(self, table_id, item_id);
        proof {
            if r is Ok {
                lemma_live_index_exists(self.tables()[table_id.0], item_id);
            }
        }
        r
    }

    fn delete(&mut self, table_id: TableId<IdType>, item_id: ItemId<IdType>) -> (r: Result<
        (),
        DeleteError,
    >) {
        InMemoryRepository::delete(self, table_id, item_id)
    }
}

} // verus!
