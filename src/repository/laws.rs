//! Laws of the model of a store (`insert_result` and the rest), which every
//! reliable `Repository` backend follows, the in-memory one among them.
use crate::domain::types::{IdType, Item, ItemId, ItemVersion};
use crate::repository::{
    delete_result, fetch_one_result, insert_result, lemma_live_index, lemma_live_index_exists,
    live_index, marked_deleted, table_rows, tables_wf, update_result, with_version,
};
use crate::repository::{first_live, has_live, is_live, live_unique, DeleteError, UpdateError};
use vstd::prelude::*;

verus! {

/// Where `s` has no live record `id`, the live `it` pushed onto it is the first
/// live record `id` of the result.
proof fn lemma_pushed_is_first(s: Seq<Item>, it: Item)
    requires
        !has_live(s, it.id),
        !it.deleted,
    ensures
        first_live(s.push(it), it.id, s.len() as int),
        live_index(s.push(it), it.id) == s.len(),
{
    let t = s.push(it);
    assert forall|j: int| 0 <= j < s.len() implies !is_live(#[trigger] t[j], it.id) by {
        assert(t[j] == s[j]);
    }
    lemma_live_index(t, it.id, s.len() as int);
}

/// Deleting the same record twice: the first call marks it, and the second
/// finds no live record with that id.
pub proof fn delete_twice(m: Map<IdType, Seq<Item>>, t: IdType, id: ItemId<IdType>)
    requires
        tables_wf(m),
        delete_result(m, t, id).0 is Ok,
    ensures
        delete_result(delete_result(m, t, id).1, t, id).0 == Err::<(), DeleteError>(
            DeleteError::UnknownItemId,
        ),
{
    let s = m[t];
    lemma_live_index_exists(s, id);
    let i = live_index(s, id);
    let s2 = s.update(i, marked_deleted(s[i]));
    let m2 = delete_result(m, t, id).1;
    assert(m2[t] == s2);
    assert(live_unique(s));
    assert forall|j: int| 0 <= j < s2.len() implies !is_live(#[trigger] s2[j], id) by {
        if j != i {
            assert(s2[j] == s[j]);
        }
    }
}

/// Optimistic concurrency: a record inserted at version `v` and then updated
/// with `v` submitted is stored at `v + 1`; a later update that submits `v`
/// again conflicts.
pub proof fn stale_update_conflicts(m: Map<IdType, Seq<Item>>, t: IdType, a: Item, b: Item, c: Item)
    requires
        !a.deleted,
        !b.deleted,
        b.id == a.id,
        c.id == a.id,
        b.version == a.version,
        c.version == a.version,
        a.version.0 < u32::MAX,
        insert_result(m, t, a).0 is Ok,
    ensures
        update_result(insert_result(m, t, a).1, t, b).0 == Ok::<Item, UpdateError>(
            with_version(b, ItemVersion((a.version.0 + 1) as u32)),
        ),
        fetch_one_result(update_result(insert_result(m, t, a).1, t, b).1, t, a.id) == Ok::<
            Item,
            crate::repository::FetchOneError,
        >(with_version(b, ItemVersion((a.version.0 + 1) as u32))),
        update_result(update_result(insert_result(m, t, a).1, t, b).1, t, c).0 == Err::<
            Item,
            UpdateError,
        >(UpdateError::VersionConflict),
{
    let rows = table_rows(m, t);
    let n = rows.len() as int;
    lemma_pushed_is_first(rows, a);
    let m1 = insert_result(m, t, a).1;
    let s1 = rows.push(a);
    assert(m1[t] == s1);
    assert(s1[n] == a);
    let b2 = with_version(b, ItemVersion((a.version.0 + 1) as u32));
    let s2 = s1.update(n, b2);
    let m2 = update_result(m1, t, b).1;
    assert(m2[t] == s2);
    assert forall|j: int| 0 <= j < n implies !is_live(#[trigger] s2[j], a.id) by {
        assert(s2[j] == s1[j]);
    }
    assert(first_live(s2, a.id, n));
    lemma_live_index(s2, a.id, n);
}

/// Round trip: a live record that was inserted is what fetching its id returns.
pub proof fn insert_then_fetch(m: Map<IdType, Seq<Item>>, t: IdType, it: Item)
    requires
        !it.deleted,
        insert_result(m, t, it).0 is Ok,
    ensures
        fetch_one_result(insert_result(m, t, it).1, t, it.id) == Ok::<
            Item,
            crate::repository::FetchOneError,
        >(it),
{
    let rows = table_rows(m, t);
    lemma_pushed_is_first(rows, it);
    assert(insert_result(m, t, it).1[t] == rows.push(it));
}

} // verus!
