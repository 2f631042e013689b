use restaurant_api::api::batch::{
    create_items, delete_items, single_outcome, update_items, Outcome, OutcomeBody,
    STATUS_BAD_REQUEST, STATUS_CREATED, STATUS_NOT_FOUND, STATUS_OK,
};
use restaurant_api::api::helpers::{ids_for_deletion, item_from_new_item, items_from_request, NewItem};
use restaurant_api::api::routes::{match_url, parse_numeric_id, route, HttpMethod, Route};
use restaurant_api::domain::types::{IdType, Item, ItemId, ItemName, ItemNotes, ItemQuantity, ItemVersion, TableId};
use restaurant_api::repository::inmemory::InMemoryRepository;

fn new_item(name: &str, quantity: i32, version: Option<i32>) -> NewItem {
    NewItem {
        name: name.to_string(),
        notes: "Notes from waiter".to_string(),
        quantity,
        version,
    }
}

fn item(id: u32, version: u32) -> Item {
    Item::new(
        ItemId::from_int(id),
        ItemName::from_str(format!("Name from menu{}", id)),
        ItemNotes::from_str(format!("Notes from waiter{}", id)),
        ItemQuantity::from_int(100),
        false,
        ItemVersion::from_int(version),
        String::new(),
    )
}

fn fail_msg(o: &Outcome) -> String {
    match &o.body {
        OutcomeBody::Fail(f) => f.msg.clone(),
        _ => String::new(),
    }
}

#[test]
fn a_requested_item_becomes_a_live_item_at_version_one() {
    match item_from_new_item(ItemId::from_int(3), new_item("Name from menu", 100, None)) {
        Ok(it) => {
            assert_eq!(it.id, ItemId::from_int(3));
            assert_eq!(it.name, ItemName::from_str("Name from menu".to_string()));
            assert_eq!(it.quantity, ItemQuantity::from_int(100));
            assert_eq!(it.version, ItemVersion::from_int(1));
            assert!(!it.deleted);
            assert!(it.time_to_prepare.is_empty());
        }
        Err(_) => unreachable!(),
    }
}

#[test]
fn a_requested_item_with_a_bad_field_names_the_id_and_the_field() {
    let err = |id: u32, n: NewItem| item_from_new_item(ItemId::from_int(id), n).err().unwrap();
    assert_eq!(
        err(0, new_item("Name from menu", 100, None)),
        "An error at item with id: 0: '0' is not a valid item id."
    );
    assert_eq!(
        err(2, new_item("a/b", 1, None)),
        "An error at item with id: 2: 'a/b' is not a valid item name."
    );
    assert_eq!(
        err(2, new_item("Pizza", -5, None)),
        "An error at item with id: 2: '-5' is not a valid quantity value."
    );
    assert_eq!(
        err(12, new_item("Pizza", 1, Some(-1))),
        "An error at item with id: 12: '-1' is not a valid version number."
    );
}

#[test]
fn a_request_is_refused_when_empty_or_when_one_item_is_bad() {
    assert_eq!(items_from_request(vec![]).err().unwrap(), "An empty body provided");
    let bad = vec![
        (ItemId::from_int(1), new_item("Name from menu", 100, None)),
        (ItemId::from_int(0), new_item("Name from menu", 100, None)),
    ];
    assert!(items_from_request(bad).is_err());
    let good = vec![
        (ItemId::from_int(1), new_item("Name from menu", 100, None)),
        (ItemId::from_int(2), new_item("Name from menu", 100, Some(4))),
    ];
    match items_from_request(good) {
        Ok(items) => {
            assert_eq!(items.len(), 2);
            assert_eq!(items[1].version, ItemVersion::from_int(4));
        }
        Err(_) => unreachable!(),
    }
}

#[test]
fn ids_for_deletion_must_be_positive_and_present() {
    assert_eq!(
        ids_for_deletion(vec![ItemId::from_int(0), ItemId::from_int(2), ItemId::from_int(3)])
            .err()
            .unwrap(),
        "Cannot parse item with id: 0: '0' is not a valid item id."
    );
    assert_eq!(
        ids_for_deletion(vec![ItemId::from_int(1), ItemId::from_int(2), ItemId::from_int(3)]).ok(),
        Some(vec![ItemId::from_int(1), ItemId::from_int(2), ItemId::from_int(3)])
    );
    assert_eq!(ids_for_deletion(vec![]).err().unwrap(), "An empty list for deletion provided");
}

#[test]
fn a_batch_create_reports_each_item_and_does_not_stop_at_a_failure() {
    let mut repo = InMemoryRepository::new();
    let out = create_items(&mut repo, TableId::from_int(1), vec![item(1, 1), item(1, 1), item(2, 1)]);
    assert_eq!(out.len(), 3);
    assert_eq!(out[0].1.status, STATUS_CREATED);
    assert_eq!(out[1].1.status, STATUS_BAD_REQUEST);
    assert_eq!(fail_msg(&out[1].1), "Item already exists");
    assert_eq!(out[2].0, ItemId::from_int(2));
    assert_eq!(out[2].1.status, STATUS_CREATED);
}

#[test]
fn a_batch_update_reports_each_item() {
    let mut repo = InMemoryRepository::new();
    let _ = create_items(&mut repo, TableId::from_int(1), vec![item(1, 1), item(2, 1)]);
    let out = update_items(&mut repo, TableId::from_int(1), vec![item(1, 1), item(3, 1)]);
    assert_eq!(out[0].1.status, STATUS_OK);
    match &out[0].1.body {
        OutcomeBody::Item(it) => assert_eq!(it.version, ItemVersion::from_int(2)),
        _ => unreachable!(),
    }
    assert_eq!(out[1].1.status, STATUS_NOT_FOUND);
    assert_eq!(fail_msg(&out[1].1), "Unknown item id");
    let stale = update_items(&mut repo, TableId::from_int(1), vec![item(1, 1)]);
    assert_eq!(fail_msg(&stale[0].1), "Version mismatch: server has newer version");
}

#[test]
fn a_batch_delete_reports_each_id() {
    let mut repo = InMemoryRepository::new();
    let _ = create_items(&mut repo, TableId::from_int(1), vec![item(1, 1), item(2, 1)]);
    let out = delete_items(
        &mut repo,
        TableId::from_int(1),
        vec![ItemId::from_int(1), ItemId::from_int(2), ItemId::from_int(3)],
    );
    assert_eq!(out.len(), 3);
    assert_eq!(out[0].1.status, STATUS_OK);
    assert!(matches!(out[0].1.body, OutcomeBody::Empty));
    assert_eq!(out[1].1.status, STATUS_OK);
    assert_eq!(out[2].1.status, STATUS_NOT_FOUND);
    let elsewhere = delete_items(&mut repo, TableId::from_int(2), vec![ItemId::from_int(1)]);
    assert_eq!(fail_msg(&elsewhere[0].1), "Unknown table id");
}

#[test]
fn a_batch_of_one_collapses_to_its_outcome() {
    let mut repo = InMemoryRepository::new();
    let one = create_items(&mut repo, TableId::from_int(1), vec![item(5, 1)]);
    match single_outcome(one) {
        Ok(o) => assert_eq!(o.status, STATUS_CREATED),
        Err(_) => unreachable!(),
    }
    let two = create_items(&mut repo, TableId::from_int(1), vec![item(6, 1), item(7, 1)]);
    assert_eq!(single_outcome(two).err().map(|v| v.len()), Some(2));
}

#[test]
fn a_parse_numeric_ids_from_url() {
    let mut url = "/tables/1/items/1";
    let pattern = "/tables/:tid/items/:id";

    match parse_numeric_id::<TableId<IdType>>(url, pattern, "tid") {
        Ok(_) => {}
        _ => unreachable!(),
    };

    url = "/tables/abc/items/1";
    match parse_numeric_id::<TableId<IdType>>(url, pattern, "tid") {
        Ok(_) => unreachable!(),
        _ => {}
    };

    url = "/tables/0/items/1";
    match parse_numeric_id::<TableId<IdType>>(url, pattern, "tid") {
        Ok(_) => unreachable!(),
        _ => {}
    };
}

#[test]
fn routes_match_paths_and_read_their_groups() {
    assert!(match_url("/tables/3/items/7", "/tables/:tid/items/:id"));
    assert!(!match_url("/tables/3/items", "/tables/:tid/items/:id"));
    assert!(match_url("/tables/3/items", "/tables/:tid/items"));
    assert!(!match_url("/nonsense", "/tables/:tid/items"));
    match parse_numeric_id::<ItemId<u32>>("/tables/3/items/7", "/tables/:tid/items/:id", "id") {
        Ok(id) => assert_eq!(id, ItemId::from_int(7)),
        Err(_) => unreachable!(),
    }
    assert_eq!(
        parse_numeric_id::<TableId<u32>>("/tables/3/items/7", "/tables/:tid/items/:id", "nope").err(),
        Some("Numeric group 'nope' not found".to_string())
    );
    assert_eq!(
        parse_numeric_id::<TableId<u32>>("/tables/200/items", "/tables/:tid/items", "tid").err(),
        Some("200 is not a valid table id.".to_string())
    );
}

#[test]
fn requests_are_routed_by_method_and_path() {
    assert_eq!(route(HttpMethod::Delete, "/tables/1/items/1"), Route::DeleteItem);
    assert_eq!(route(HttpMethod::Delete, "/tables/1/items"), Route::DeleteItems);
    assert_eq!(route(HttpMethod::Get, "/tables/1/items/1"), Route::ReadItem);
    assert_eq!(route(HttpMethod::Get, "/tables/1/items"), Route::ReadItems);
    assert_eq!(route(HttpMethod::Put, "/tables/1/items"), Route::UpdateItems);
    assert_eq!(route(HttpMethod::Post, "/tables/1/items"), Route::CreateItems);
    assert_eq!(route(HttpMethod::Post, "/tables/1/items/1"), Route::NotFound);
    assert_eq!(route(HttpMethod::Get, "/nonsense"), Route::NotFound);
    assert_eq!(route(HttpMethod::Other, "/tables/1/items"), Route::NotFound);
}

fn ids_from_json(data: &str) -> Result<Vec<ItemId<IdType>>, String> {
    let value: serde_json::Value = serde_json::from_str(data).map_err(|e| e.to_string())?;
    let ids = value["ids"].as_array().ok_or_else(|| "missing ids".to_string())?;
    let ids = ids.iter().map(|x| ItemId::from_int(x.as_u64().unwrap_or(0) as u32)).collect();
    ids_for_deletion(ids)
}

fn items_from_json(data: &str) -> Result<Vec<Item>, String> {
    let value: serde_json::Value = serde_json::from_str(data).map_err(|e| e.to_string())?;
    let map = value.as_object().ok_or_else(|| "not an object".to_string())?;
    let mut entries: Vec<(ItemId<IdType>, NewItem)> = Vec::new();
    for (key, n) in map {
        let id: u32 = key.parse().map_err(|_| "bad key".to_string())?;
        entries.push((
            ItemId::from_int(id),
            NewItem {
                name: n["name"].as_str().unwrap_or("").to_string(),
                notes: n["notes"].as_str().unwrap_or("").to_string(),
                quantity: n["quantity"].as_i64().unwrap_or(-1) as i32,
                version: n.get("version").and_then(|v| v.as_i64()).map(|v| v as i32),
            },
        ));
    }
    entries.sort_by_key(|(id, _)| id.value());
    items_from_request(entries)
}

#[test]
fn a_parse_array_item_ids() {
    let mut data = r#"
        {
            "ids": [0, 2, 3]
        }"#;
    match ids_from_json(data) {
        Err(_) => {}
        _ => unreachable!(),
    };

    data = r#"
        {
            "ids": [1, 2, 3]
        }"#;
    match ids_from_json(data) {
        Err(_) => unreachable!(),
        _ => {}
    };
}

#[test]
fn a_parse_create_update_items() {
    let mut data = r#"
        {
            "0": {
                "name": "Name from menu",
                "notes": "Notes from waiter",
                "quantity": 100
            }
        }"#;
    match items_from_json(data) {
        Err(_) => {}
        _ => unreachable!(),
    };

    data = r#"
        {
            "1": {
                "name": "Name from menu",
                "notes": "Notes from waiter",
                "quantity": 100
            },
            "2": {
                "name": "Name from menu",
                "notes": "Notes from waiter",
                "quantity": 100
            }
        }"#;
    match items_from_json(data) {
        Err(_) => unreachable!(),
        _ => {}
    };
}
