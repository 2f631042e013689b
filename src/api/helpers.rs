//! Request values, and their validation into items and ids.
use crate::domain::types::{
    item_id_error, name_error, notes_error, quantity_error, quoted, valid_name, valid_notes,
    version_error, IdType, Item, ItemId, ItemName, ItemNotes, ItemQuantity, ItemVersion,
};
use crate::text::{decimal, decimal_text, signed_decimal, signed_decimal_text};
use vstd::prelude::*;

verus! {

/// An item as a create or update request states it.
pub struct NewItem {
    pub name: String,
    pub notes: String,
    pub quantity: i32,
    pub version: Option<i32>,
}

/// A failure message in a response.
pub struct FailMsg {
    pub msg: String,
}

/// One element of a multi-item response.
pub struct MultiOperationResponse<T> {
    pub status: String,
    pub body: T,
}

/// The ids of a multi-item delete request.
pub struct ItemIdsList {
    pub ids: Vec<ItemId<IdType>>,
}

/// The version of a requested item that states none.
pub const DEFAULT_VERSION: i32 = 1;

pub open spec fn requested_version(n: NewItem) -> int {
    match n.version {
        Some(v) => v as int,
        None => DEFAULT_VERSION as int,
    }
}

/// Every field of a requested item passes its value type's rules.
pub open spec fn new_item_valid(id: ItemId<IdType>, n: NewItem) -> bool {
    &&& id.0 > 0
    &&& valid_name(n.name@)
    &&& valid_notes(n.notes@)
    &&& n.quantity >= 0
    &&& requested_version(n) >= 0
}

/// Why the first failing field of a requested item fails.
pub open spec fn field_error(id: ItemId<IdType>, n: NewItem) -> Seq<char> {
    if id.0 == 0 {
        item_id_error(decimal(id.0 as nat))
    } else if !valid_name(n.name@) {
        name_error(n.name@)
    } else if !valid_notes(n.notes@) {
        notes_error(n.notes@)
    } else if n.quantity < 0 {
        quantity_error(signed_decimal(n.quantity as int))
    } else {
        version_error(signed_decimal(requested_version(n)))
    }
}

/// The message for a requested item that fails validation.
pub open spec fn new_item_error(id: ItemId<IdType>, n: NewItem) -> Seq<char> {
    "An error at item with id: "@ + decimal(id.0 as nat) + ": "@ + field_error(id, n)
}

/// The item that a valid request describes: live, with no preparation time yet.
pub open spec fn requested_item(id: ItemId<IdType>, n: NewItem, it: Item) -> bool {
    &&& it.id == id
    &&& it.name == ItemName(n.name)
    &&& it.notes == ItemNotes(n.notes)
    &&& it.quantity == ItemQuantity(n.quantity as u32)
    &&& !it.deleted
    &&& it.version == ItemVersion(requested_version(n) as u32)
    &&& it.time_to_prepare@.len() == 0
}

fn field_message(id: ItemId<IdType>, new_item: &NewItem, version: i32) -> (r: String)
    requires
        !new_item_valid(id, *new_item),
        version == requested_version(*new_item),
    ensures
        r@ == field_error(id, *new_item),
{
    if id.0 == 0 {
        let text = decimal_text(id.0 as u64);
        quoted(text.as_str(), "' is not a valid item id.")
    } else if !valid_name_exec(&new_item.name) {
        quoted(new_item.name.as_str(), "' is not a valid item name.")
    } else if !valid_notes_exec(&new_item.notes) {
        let mut m = new_item.notes.clone();
        m.append(" is not a valid notes.");
        m
    } else if new_item.quantity < 0 {
        let text = signed_decimal_text(new_item.quantity);
        quoted(text.as_str(), "' is not a valid quantity value.")
    } else {
        let text = signed_decimal_text(version);
        quoted(text.as_str(), "' is not a valid version number.")
    }
}

fn valid_name_exec(s: &String) -> (r: bool)
    ensures
        r == valid_name(s@),
{
    ItemName::parse(s.clone()).is_ok()
}

fn valid_notes_exec(s: &String) -> (r: bool)
    ensures
        r == valid_notes(s@),
{
    ItemNotes::parse(s.clone()).is_ok()
}

/// Validates one requested item under the id it was requested with.
pub fn item_from_new_item(id: ItemId<IdType>, new_item: NewItem) -> (r: Result<Item, String>)
    ensures
        new_item_valid(id, new_item) ==> (r matches Ok(it) && requested_item(id, new_item, it)),
        r matches Ok(it) ==> it.valid(),
        !new_item_valid(id, new_item) ==> (r matches Err(e) && e@ == new_item_error(id, new_item)),
{
    let version: i32 = match new_item.version {
        Some(v) => v,
        None => DEFAULT_VERSION,
    };
    let valid = id.0 > 0 && valid_name_exec(&new_item.name) && valid_notes_exec(&new_item.notes)
        && new_item.quantity >= 0 && version >= 0;
    if !valid {
        let field = field_message(id, &new_item, version);
        let text = decimal_text(id.0 as u64);
        let mut m = String::from_str("An error at item with id: ");
        m.append(text.as_str());
        m.append(": ");
        m.append(field.as_str());
        return Err(m);
    }
    Ok(
        Item::new(
            id,
            ItemName(new_item.name),
            ItemNotes(new_item.notes),
            ItemQuantity(new_item.quantity as u32),
            false,
            ItemVersion(version as u32),
            String::new(),
        ),
    )
}

/// The position of the first invalid requested item, if any.
pub open spec fn first_invalid(entries: Seq<(ItemId<IdType>, NewItem)>, i: int) -> bool {
    &&& 0 <= i < entries.len()
    &&& !new_item_valid(entries[i].0, entries[i].1)
    &&& forall|j: int| 0 <= j < i ==> new_item_valid(#[trigger] entries[j].0, entries[j].1)
}

/// Validates the items of a create or update request, in order: the first
/// invalid one decides the error, and a request must hold at least one item.
pub fn items_from_request(entries: Vec<(ItemId<IdType>, NewItem)>) -> (r: Result<Vec<Item>, String>)
    ensures
        entries@.len() == 0 ==> (r matches Err(e) && e@ == "An empty body provided"@),
        forall|i: int|
            first_invalid(entries@, i) ==> (r matches Err(e) && e@ == new_item_error(
                #[trigger] entries@[i].0,
                entries@[i].1,
            )),
        r matches Ok(items) ==> {
            &&& entries@.len() > 0
            &&& items@.len() == entries@.len()
            &&& forall|i: int|
                0 <= i < entries@.len() ==> requested_item(
                    #[trigger] entries@[i].0,
                    entries@[i].1,
                    items@[i],
                )
        },
        (entries@.len() > 0 && forall|i: int|
            0 <= i < entries@.len() ==> new_item_valid(#[trigger] entries@[i].0, entries@[i].1))
            ==> r is Ok,
{
    let ghost all = entries@;
    let n = entries.len();
    let mut rest = entries;
    let mut items: Vec<Item> = Vec::new();
    let mut i: usize = 0;
    while rest.len() > 0
        invariant
            i + rest@.len() == all.len(),
            all.len() == n,
            all == entries@,
            rest@ =~= all.subrange(i as int, all.len() as int),
            items@.len() == i,
            forall|j: int| 0 <= j < i ==> new_item_valid(#[trigger] all[j].0, all[j].1),
            forall|j: int| 0 <= j < i ==> requested_item(#[trigger] all[j].0, all[j].1, items@[j]),
        decreases rest.len(),
    {
        let (id, new_item) = rest.remove(0);
        assert(id == all[i as int].0 && new_item == all[i as int].1);
        match item_from_new_item(id, new_item) {
            Ok(item) => items.push(item),
            Err(e) => {
                proof {
                    assert(first_invalid(all, i as int));
                    assert forall|k: int| first_invalid(all, k) implies k == i by {
                        if k < i {
                        } else if k > i {
                            assert(new_item_valid(all[i as int].0, all[i as int].1));
                        }
                    }
                }
                return Err(e);
            },
        }
        i = i + 1;
    }
    if items.len() == 0 {
        proof { reveal_strlit("An empty body provided"); }
        return Err(String::from_str("An empty body provided"));
    }
    assert forall|k: int| !first_invalid(all, k) by {
        if 0 <= k < all.len() {
            assert(new_item_valid(all[k].0, all[k].1));
        }
    }
    Ok(items)
}

/// Why a requested id cannot be deleted.
pub open spec fn delete_id_error(id: ItemId<IdType>) -> Seq<char> {
    "Cannot parse item with id: "@ + decimal(id.0 as nat) + ": "@ + item_id_error(
        decimal(id.0 as nat),
    )
}

/// Validates the ids of a multi-item delete request: each must be a valid
/// item id, and there must be at least one.
pub fn ids_for_deletion(ids: Vec<ItemId<IdType>>) -> (r: Result<Vec<ItemId<IdType>>, String>)
    ensures
        forall|i: int|
            0 <= i < ids@.len() && (#[trigger] ids@[i]).0 == 0 && (forall|j: int|
                0 <= j < i ==> (#[trigger] ids@[j]).0 > 0) ==> (r matches Err(e) && e@
                == delete_id_error(ids@[i])),
        (forall|i: int| 0 <= i < ids@.len() ==> (#[trigger] ids@[i]).0 > 0) ==> if ids@.len()
            == 0 {
            r matches Err(e) && e@ == "An empty list for deletion provided"@
        } else {
            r == Ok::<Vec<ItemId<IdType>>, String>(ids)
        },
{
    let mut i: usize = 0;
    while i < ids.len()
        invariant
            i <= ids@.len(),
            forall|j: int| 0 <= j < i ==> (#[trigger] ids@[j]).0 > 0,
        decreases ids.len() - i,
    {
        if ids[i].0 == 0 {
            let text = decimal_text(ids[i].0 as u64);
            let mut m = String::from_str("Cannot parse item with id: ");
            m.append(text.as_str());
            m.append(": ");
            let field = quoted(text.as_str(), "' is not a valid item id.");
            m.append(field.as_str());
            proof {
                assert forall|k: int|
                    0 <= k < ids@.len() && (#[trigger] ids@[k]).0 == 0 && (forall|j: int|
                        0 <= j < k ==> (#[trigger] ids@[j]).0 > 0) implies k == i by {
                    if k > i {
                        assert(ids@[i as int].0 > 0);
                    }
                }
            }
            return Err(m);
        }
        i = i + 1;
    }
    if ids.len() == 0 {
        proof { reveal_strlit("An empty list for deletion provided"); }
        return Err(String::from_str("An empty list for deletion provided"));
    }
    Ok(ids)
}

} // verus!
