use restaurant_api::domain::read_item::{execute, Error, ReadRequest};
use restaurant_api::domain::types::{ItemId, ItemName, ItemNotes, ItemQuantity, ItemVersion, TableId};
use restaurant_api::repository::inmemory::InMemoryRepository;

#[test]
fn read_item_it_should_return_an_ok_when_request_is_valid() {
    let mut repo = InMemoryRepository::new();
    repo.insert(
        TableId::from_int(1),
        ItemId::from_int(1),
        ItemName::pizza(),
        ItemNotes::some_notes(),
        ItemQuantity::one(),
        false,
        ItemVersion::from_int(1),
        "2023/12/12".to_string(),
    )
    .ok();

    let req = ReadRequest { table_id: TableId::from_int(1), item_id: ItemId::from_int(1) };

    let res = execute(&repo, req);

    match res {
        Ok(res) => {
            assert_eq!(res.item.id, ItemId::from_int(1));
            assert_eq!(res.item.name, ItemName::pizza());
            assert_eq!(res.item.notes, ItemNotes::some_notes());
            assert_eq!(res.item.quantity, ItemQuantity::one());
            assert_eq!(res.item.deleted, false);
            assert_eq!(res.item.version, ItemVersion::from_int(1));
        }
        Err(_) => unreachable!(),
    };
}

#[test]
fn read_item_it_should_return_an_unknown_table_id_error_when_table_id_not_found() {
    let repo = InMemoryRepository::new();
    let req = ReadRequest { table_id: TableId::from_int(1), item_id: ItemId::from_int(1) };
    let res = execute(&repo, req);

    match res {
        Err(Error::UnknowTableId) => {}
        _ => unreachable!(),
    };
}

#[test]
fn read_item_it_should_return_an_unknown_item_id_error_when_item_id_not_found() {
    let mut repo = InMemoryRepository::new();
    repo.insert(
        TableId::from_int(1),
        ItemId::from_int(1),
        ItemName::pizza(),
        ItemNotes::some_notes(),
        ItemQuantity::one(),
        false,
        ItemVersion::ver_one(),
        "2023/12/12".to_string(),
    )
    .ok();

    let req = ReadRequest { table_id: TableId::from_int(1), item_id: ItemId::from_int(2) };
    let res = execute(&repo, req);

    match res {
        Err(Error::UnknownItemId) => {}
        _ => unreachable!(),
    };
}

#[test]
fn read_item_it_should_return_not_found_when_item_deleted() {
    let mut repo = InMemoryRepository::new();
    repo.insert(
        TableId::from_int(1),
        ItemId::from_int(1),
        ItemName::pizza(),
        ItemNotes::some_notes(),
        ItemQuantity::one(),
        true,
        ItemVersion::ver_one(),
        "2023/12/12".to_string(),
    )
    .ok();

    let req = ReadRequest { table_id: TableId::from_int(1), item_id: ItemId::from_int(1) };
    let res = execute(&repo, req);

    match res {
        Err(Error::UnknownItemId) => {}
        _ => unreachable!(),
    };
}
