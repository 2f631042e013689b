use restaurant_api::domain::types::{ItemId, ItemName, ItemNotes, ItemQuantity, ItemVersion, TableId};

#[test]
fn a_100_grapheme_long_name_is_valid() {
    let name = "ё".repeat(100);
    assert!(ItemName::try_from(name).is_ok());
}

#[test]
fn a_name_longer_than_100_graphemes_is_rejected() {
    let name = "a".repeat(257);
    assert!(ItemName::try_from(name).is_err());
}

#[test]
fn whitespace_only_names_are_rejected() {
    let name = " ".to_string();
    assert!(ItemName::try_from(name).is_err());
}

#[test]
fn empty_string_is_rejected() {
    let name = "".to_string();
    assert!(ItemName::try_from(name).is_err());
}

#[test]
fn names_containing_an_invalid_character_are_rejected() {
    for name in &['/', '(', ')', '"', '<', '>', '\\', '{', '}'] {
        let name = name.to_string();
        assert!(ItemName::try_from(name).is_err());
    }
}

#[test]
fn a_valid_name_is_parsed_successfully() {
    let name = "Hamburger".to_string();
    assert!(ItemName::try_from(name).is_ok());
}

#[test]
fn a_256_grapheme_long_name_is_valid() {
    let name = "A".repeat(256);
    assert!(ItemNotes::try_from(name).is_ok());
}

#[test]
fn a_name_longer_than_256_graphemes_is_rejected() {
    let name = "a".repeat(257);
    assert!(ItemNotes::try_from(name).is_err());
}

#[test]
fn notes_containing_an_invalid_character_are_rejected() {
    for name in &['/', '(', ')', '"', '<', '>', '\\', '{', '}'] {
        let name = name.to_string();
        assert!(ItemNotes::try_from(name).is_err());
    }
}

#[test]
fn a_valid_note_is_parsed_successfully() {
    let name = "Some notes".to_string();
    assert!(ItemName::try_from(name).is_ok());
}

#[test]
fn a_valid_table_id_is_parsed_successfully() {
    let table_id = "1".to_string();
    assert!(TableId::try_from(table_id).is_ok());
}

#[test]
fn an_invalid_table_id_is_rejected() {
    let mut table_id = "-1".to_string();
    assert!(TableId::try_from(table_id).is_err());
    table_id = "0".to_string();
    assert!(TableId::try_from(table_id).is_err());
    table_id = "200".to_string();
    assert!(TableId::try_from(table_id).is_err());
}

#[test]
fn a_valid_item_id_is_parsed_successfully() {
    let item_id = "1".to_string();
    assert!(ItemId::try_from(item_id).is_ok());
}

#[test]
fn an_invalid_item_id_is_rejected() {
    let mut item_id = "-1".to_string();
    assert!(ItemId::try_from(item_id).is_err());
    item_id = "0".to_string();
    assert!(ItemId::try_from(item_id).is_err());
}

#[test]
fn table_ids_round_trip_across_the_whole_range() {
    for n in 1u32..=100 {
        match TableId::try_from(n.to_string()) {
            Ok(t) => assert_eq!(t.value(), n),
            Err(_) => unreachable!(),
        }
    }
    assert!(TableId::try_from("101".to_string()).is_err());
    assert!(TableId::try_from("+7".to_string()).is_ok());
    assert!(TableId::try_from(" 7".to_string()).is_err());
    assert!(TableId::try_from("".to_string()).is_err());
    assert!(TableId::try_from("abc".to_string()).is_err());
    assert!(TableId::try_from("99999999999".to_string()).is_err());
}

#[test]
fn table_id_error_names_the_input() {
    match TableId::try_from("200".to_string()) {
        Err(e) => assert_eq!(e, "200 is not a valid table id."),
        Ok(_) => unreachable!(),
    }
}

#[test]
fn item_id_error_quotes_the_input() {
    match ItemId::try_from("0".to_string()) {
        Err(e) => assert_eq!(e, "'0' is not a valid item id."),
        Ok(_) => unreachable!(),
    }
    match ItemId::try_from("4294967295".to_string()) {
        Ok(id) => assert_eq!(id.value(), 4294967295),
        Err(_) => unreachable!(),
    }
    assert!(ItemId::try_from("4294967296".to_string()).is_err());
}

#[test]
fn a_101_grapheme_name_is_rejected_with_its_message() {
    let name = "ё".repeat(101);
    match ItemName::try_from(name.clone()) {
        Err(e) => assert_eq!(e, format!("'{}' is not a valid item name.", name)),
        Ok(_) => unreachable!(),
    }
}

#[test]
fn combined_characters_count_as_one_grapheme() {
    // "e" followed by a combining acute accent is one grapheme of two chars.
    let name = "e\u{301}".repeat(100);
    assert!(ItemName::try_from(name).is_ok());
}

#[test]
fn names_with_unicode_whitespace_only_are_rejected() {
    assert!(ItemName::try_from("\u{3000}\t\n".to_string()).is_err());
    assert!(ItemName::try_from(" a ".to_string()).is_ok());
}

#[test]
fn empty_notes_are_accepted_and_bad_notes_name_themselves() {
    assert!(ItemNotes::try_from(String::new()).is_ok());
    match ItemNotes::try_from("a{b".to_string()) {
        Err(e) => assert_eq!(e, "a{b is not a valid notes."),
        Ok(_) => unreachable!(),
    }
}

#[test]
fn quantities_and_versions_parse_any_u32() {
    match ItemQuantity::try_from("0".to_string()) {
        Ok(q) => assert_eq!(q.value(), 0),
        Err(_) => unreachable!(),
    }
    match ItemQuantity::try_from("-3".to_string()) {
        Err(e) => assert_eq!(e, "'-3' is not a valid quantity value."),
        Ok(_) => unreachable!(),
    }
    match ItemVersion::try_from("12".to_string()) {
        Ok(v) => assert_eq!(v.value(), 12),
        Err(_) => unreachable!(),
    }
    match ItemVersion::try_from("x".to_string()) {
        Err(e) => assert_eq!(e, "'x' is not a valid version number."),
        Ok(_) => unreachable!(),
    }
}

#[test]
fn ids_render_as_decimal_text() {
    assert_eq!(ItemId::from_int(1203).to_string(), "1203");
    assert_eq!(TableId::from_int(0).to_string(), "0");
    assert_eq!(ItemVersion::from_int(4294967295).to_string(), "4294967295");
}

#[test]
fn versions_step_by_one_up_to_the_largest() {
    assert_eq!(ItemVersion::from_int(1).next(), Some(ItemVersion::from_int(2)));
    assert_eq!(ItemVersion::from_int(u32::MAX).next(), None);
}

#[test]
fn empty_notes_count_no_graphemes_and_are_valid() {
    assert!(ItemNotes::try_from(String::new()).is_ok());
    assert!(ItemName::try_from("\u{2028}\u{00A0}\u{0085}".to_string()).is_err());
    assert!(ItemName::try_from("\u{200B}".to_string()).is_ok());
}
