use restaurant_api::domain::types::{
    IdType, Item, ItemId, ItemName, ItemNotes, ItemQuantity, ItemVersion, QuantityType, TableId,
    VersionType,
};
use restaurant_api::domain::update_item::{execute, CreateOrUpdateRequest, Error};
use restaurant_api::repository::inmemory::InMemoryRepository;

fn request(
    table_id: TableId<IdType>,
    item_id: ItemId<IdType>,
    item_name: ItemName,
    item_notes: ItemNotes,
    item_quantity: ItemQuantity<QuantityType>,
    item_deleted: bool,
    item_version: ItemVersion<VersionType>,
    item_time_to_prepare: String,
) -> CreateOrUpdateRequest {
    CreateOrUpdateRequest {
        table_id,
        item: Item {
            id: item_id,
            name: item_name,
            notes: item_notes,
            quantity: item_quantity,
            deleted: item_deleted,
            version: item_version,
            time_to_prepare: item_time_to_prepare,
        },
    }
}

#[test]
fn update_item_it_should_return_an_ok_when_request_is_valid() {
    let mut repo = InMemoryRepository::new();
    let same_table_id = 1;
    let same_item_id = 1;
    repo.insert(
        TableId::from_int(same_table_id),
        ItemId::from_int(same_item_id),
        ItemName::pizza(),
        ItemNotes::some_notes(),
        ItemQuantity::one(),
        false,
        ItemVersion::from_int(1),
        "2023/12/12".to_string(),
    )
    .ok();

    let req = request(
        TableId::from_int(same_table_id),
        ItemId::from_int(same_item_id),
        ItemName::from_str("New item name".to_string()),
        ItemNotes::from_str("New notes".to_string()),
        ItemQuantity::from_int(2),
        false,
        ItemVersion::from_int(2),
        "".to_string(),
    );

    let res = execute(&mut repo, req);

    match res {
        Ok(res) => {
            assert_eq!(res.item.id, ItemId::from_int(1));
            assert_eq!(res.item.name, ItemName::from_str("New item name".to_string()));
            assert_eq!(res.item.notes, ItemNotes::from_str("New notes".to_string()));
            assert_eq!(res.item.quantity, ItemQuantity::from_int(2));
            assert_eq!(res.item.deleted, false);
            assert_eq!(res.item.version, ItemVersion::from_int(2));
        }
        Err(_) => unreachable!(),
    };
}

#[test]
fn it_should_return_a_conflict_error_when_item_version_is_lower_than_in_storage() {
    let mut repo = InMemoryRepository::new();
    let same_table_id = 1;
    let same_item_id = 1;
    repo.insert(
        TableId::from_int(same_table_id),
        ItemId::from_int(same_item_id),
        ItemName::pizza(),
        ItemNotes::some_notes(),
        ItemQuantity::one(),
        false,
        ItemVersion::from_int(2),
        "2023/12/12".to_string(),
    )
    .ok();

    let req = request(
        TableId::from_int(same_table_id),
        ItemId::from_int(same_item_id),
        ItemName::from_str("New item name".to_string()),
        ItemNotes::from_str("New notes".to_string()),
        ItemQuantity::from_int(2),
        false,
        ItemVersion::from_int(1),
        "".to_string(),
    );

    let res = execute(&mut repo, req);

    match res {
        Err(Error::VersionConflict) => {}
        _ => unreachable!(),
    };
}

#[test]
fn it_should_return_an_unknown_error_when_table_id_not_found() {
    let mut repo = InMemoryRepository::new();
    let req = request(
        TableId::from_int(1),
        ItemId::from_int(1),
        ItemName::pizza(),
        ItemNotes::some_notes(),
        ItemQuantity::one(),
        false,
        ItemVersion::ver_one(),
        "2023/12/12".to_string(),
    );

    let res = execute(&mut repo, req);

    match res {
        Err(Error::UnknowTableId) => {}
        _ => unreachable!(),
    };
}

#[test]
fn it_should_return_an_unknown_error_when_item_id_not_found() {
    let mut repo = InMemoryRepository::new();
    repo.insert(
        TableId::from_int(1),
        ItemId::from_int(1),
        ItemName::pizza(),
        ItemNotes::some_notes(),
        ItemQuantity::one(),
        false,
        ItemVersion::ver_one(),
        "2023/12/12".to_string(),
    )
    .ok();

    let req = request(
        TableId::from_int(1),
        ItemId::from_int(2),
        ItemName::pizza(),
        ItemNotes::some_notes(),
        ItemQuantity::one(),
        false,
        ItemVersion::ver_one(),
        "2023/12/12".to_string(),
    );

    let res = execute(&mut repo, req);

    match res {
        Err(Error::UnknownItemId) => {}
        _ => unreachable!(),
    };
}
