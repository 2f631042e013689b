use restaurant_api::domain::types::{ItemId, ItemName, ItemVersion};
use restaurant_api::repository::sqlite::{
    contains_str, delete_outcome, failure_from_message, insert_error, item_from_row,
    items_from_rows, listing_from_rows, record_from_rows, update_error, update_plan, ItemRow,
    StatementFailure,
};
use restaurant_api::repository::{DeleteError, FetchAllError, FetchOneError, InsertError, UpdateError};

fn row(item_id: u32, name: &str, deleted: bool, version: u32) -> ItemRow {
    ItemRow {
        item_id,
        table_id: 1,
        name: name.to_string(),
        notes: "Some notes".to_string(),
        quantity: 3,
        deleted,
        version,
        time_to_prepare: "2023/12/12".to_string(),
    }
}

#[test]
fn unique_failures_are_recognised_by_their_message() {
    assert_eq!(
        failure_from_message(Some("UNIQUE constraint failed: item.item_id, item.table_id")),
        StatementFailure::UniqueViolation
    );
    assert_eq!(failure_from_message(Some("disk I/O error")), StatementFailure::Other);
    assert_eq!(failure_from_message(Some("UNIQUE constraint")), StatementFailure::Other);
    assert_eq!(failure_from_message(None), StatementFailure::Other);
    assert!(contains_str("abc", ""));
    assert!(!contains_str("", "a"));
    assert!(contains_str("xxabcx", "abc"));
}

#[test]
fn statement_failures_map_to_operation_errors() {
    assert_eq!(insert_error(StatementFailure::UniqueViolation), InsertError::Conflict);
    assert_eq!(insert_error(StatementFailure::Other), InsertError::Unknown);
    assert_eq!(update_error(StatementFailure::UniqueViolation), UpdateError::VersionConflict);
    assert_eq!(update_error(StatementFailure::Other), UpdateError::Unknown);
}

#[test]
fn rows_are_validated_again_when_read() {
    match item_from_row(row(5, "Soup", false, 2)) {
        Some(item) => {
            assert_eq!(item.id, ItemId::from_int(5));
            assert_eq!(item.name, ItemName::from_str("Soup".to_string()));
            assert_eq!(item.quantity.value(), 3);
            assert_eq!(item.version, ItemVersion::from_int(2));
            assert_eq!(item.time_to_prepare, "2023/12/12");
        }
        None => unreachable!(),
    }
    assert!(item_from_row(row(0, "Soup", false, 2)).is_none());
    assert!(item_from_row(row(5, "So/up", false, 2)).is_none());
    assert!(items_from_rows(vec![row(1, "a", false, 1), row(2, " ", false, 1)]).is_none());
    assert_eq!(items_from_rows(vec![row(1, "a", false, 1), row(2, "b", true, 1)]).map(|v| v.len()), Some(2));
}

#[test]
fn a_listing_from_rows_filters_and_orders() {
    assert_eq!(listing_from_rows(vec![], false).err(), Some(FetchAllError::UnknownTableId));
    assert_eq!(
        listing_from_rows(vec![row(1, "", false, 1)], false).err(),
        Some(FetchAllError::Unknown)
    );
    let items = listing_from_rows(
        vec![row(2, "a", false, 1), row(11, "b", false, 1), row(3, "c", true, 1)],
        false,
    )
    .ok()
    .unwrap();
    let ids: Vec<u32> = items.iter().map(|i| i.id.value()).collect();
    assert_eq!(ids, vec![11, 2]);
}

#[test]
fn a_fetch_from_rows_distinguishes_table_and_item() {
    assert_eq!(record_from_rows(false, vec![]).err(), Some(FetchOneError::UnknownTableId));
    assert_eq!(record_from_rows(true, vec![]).err(), Some(FetchOneError::UnknownItemId));
    assert_eq!(record_from_rows(true, vec![row(1, "", false, 1)]).err(), Some(FetchOneError::Unknown));
    assert_eq!(record_from_rows(true, vec![row(1, "x", false, 1)]).ok().map(|i| i.id.value()), Some(1));
}

#[test]
fn an_update_plan_follows_the_stored_version() {
    let rows = vec![row(1, "x", false, 4)];
    assert_eq!(update_plan(false, &rows, ItemVersion::from_int(9)), Err(UpdateError::UnknownTableId));
    assert_eq!(update_plan(true, &vec![], ItemVersion::from_int(9)), Err(UpdateError::UnknownItemId));
    assert_eq!(update_plan(true, &rows, ItemVersion::from_int(3)), Err(UpdateError::VersionConflict));
    assert_eq!(update_plan(true, &rows, ItemVersion::from_int(4)), Ok(ItemVersion::from_int(5)));
}

#[test]
fn a_delete_touching_no_row_reports_an_unknown_item() {
    assert_eq!(delete_outcome(false, Ok(1)), Err(DeleteError::UnknownTableId));
    assert_eq!(delete_outcome(true, Ok(0)), Err(DeleteError::UnknownItemId));
    assert_eq!(delete_outcome(true, Ok(1)), Ok(()));
    assert_eq!(
        delete_outcome(true, Err(StatementFailure::Other)),
        Err(DeleteError::Unknown)
    );
}
