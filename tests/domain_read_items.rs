use restaurant_api::domain::read_items::{execute, Error, ReadAllRequest};
use restaurant_api::domain::types::{ItemId, ItemName, ItemNotes, ItemQuantity, ItemVersion, TableId};
use restaurant_api::repository::inmemory::InMemoryRepository;

fn request(table_id: TableId<u32>, include_deleted: bool) -> ReadAllRequest {
    ReadAllRequest {
        table_id,
        include_deleted,
        filter: String::from(""),
        sort_by: String::from(""),
    }
}

#[test]
fn read_items_it_should_return_an_ok_when_request_is_valid() {
    let mut repo = InMemoryRepository::new();
    repo.insert(
        TableId::from_int(1),
        ItemId::from_int(1),
        ItemName::pizza(),
        ItemNotes::some_notes(),
        ItemQuantity::one(),
        false,
        ItemVersion::from_int(1),
        "2023/12/12".to_string(),
    )
    .ok();

    let req = request(TableId::from_int(1), false);

    let res = execute(&repo, req);

    match res {
        Ok(res) => {
            assert!(res.items.len() == 1);
            assert_eq!(res.items[0].id, ItemId::from_int(1));
            assert_eq!(res.items[0].name, ItemName::pizza());
            assert_eq!(res.items[0].notes, ItemNotes::some_notes());
            assert_eq!(res.items[0].quantity, ItemQuantity::one());
            assert_eq!(res.items[0].deleted, false);
            assert_eq!(res.items[0].version, ItemVersion::from_int(1));
        }
        Err(_) => unreachable!(),
    };
}

#[test]
fn read_items_it_should_return_an_unknown_table_id_error_when_table_id_not_found() {
    let repo = InMemoryRepository::new();
    let req = request(TableId::from_int(1), false);
    let res = execute(&repo, req);

    match res {
        Err(Error::UnknowTableId) => {}
        _ => unreachable!(),
    };
}

#[test]
fn it_should_return_only_not_deleted_items_when_not_include_deleted() {
    let mut repo = InMemoryRepository::new();
    repo.insert(
        TableId::from_int(1),
        ItemId::from_int(1),
        ItemName::pizza(),
        ItemNotes::some_notes(),
        ItemQuantity::one(),
        false,
        ItemVersion::ver_one(),
        "2023/12/12".to_string(),
    )
    .ok();
    repo.insert(
        TableId::from_int(1),
        ItemId::from_int(2),
        ItemName::pizza(),
        ItemNotes::some_notes(),
        ItemQuantity::one(),
        true,
        ItemVersion::ver_one(),
        "2023/12/12".to_string(),
    )
    .ok();

    let req = request(TableId::from_int(1), false);
    let res = execute(&repo, req);

    match res {
        Ok(res) => {
            assert!(res.items.len() == 1);
            assert_eq!(res.items[0].id, ItemId::from_int(1));
            assert_eq!(res.items[0].name, ItemName::pizza());
            assert_eq!(res.items[0].notes, ItemNotes::some_notes());
            assert_eq!(res.items[0].quantity, ItemQuantity::one());
            assert_eq!(res.items[0].deleted, false);
            assert_eq!(res.items[0].version, ItemVersion::from_int(1));
        }
        _ => unreachable!(),
    };
}

#[test]
fn read_items_includes_deleted_when_asked() {
    let mut repo = InMemoryRepository::new();
    for (id, deleted) in [(1u32, false), (2u32, true)] {
        repo.insert(
            TableId::from_int(1),
            ItemId::from_int(id),
            ItemName::pizza(),
            ItemNotes::some_notes(),
            ItemQuantity::one(),
            deleted,
            ItemVersion::ver_one(),
            "2023/12/12".to_string(),
        )
        .ok();
    }
    match execute(&repo, request(TableId::from_int(1), true)) {
        Ok(res) => {
            assert_eq!(res.items.len(), 2);
            assert_eq!(res.items[1].id, ItemId::from_int(2));
            assert!(res.items[1].deleted);
        }
        Err(_) => unreachable!(),
    }
}
