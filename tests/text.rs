use restaurant_api::text::{decimal_text, digits_of, read_u32, signed_decimal_text, text_before};

#[test]
fn unsigned_numbers_are_read_as_std_reads_them() {
    assert_eq!(read_u32("0"), Some(0));
    assert_eq!(read_u32("+42"), Some(42));
    assert_eq!(read_u32("007"), Some(7));
    assert_eq!(read_u32("4294967295"), Some(u32::MAX));
    assert_eq!(read_u32("4294967296"), None);
    assert_eq!(read_u32(""), None);
    assert_eq!(read_u32("+"), None);
    assert_eq!(read_u32("-0"), None);
    assert_eq!(read_u32("1 "), None);
    assert_eq!(read_u32("١"), None);
    for s in ["0", "+42", "007", "4294967295", "4294967296", "", "+", "-0", "1 ", "12a"] {
        assert_eq!(read_u32(s), s.parse::<u32>().ok());
    }
}

#[test]
fn decimal_text_matches_display() {
    for n in [0u64, 9, 10, 99, 100, 12345, u64::MAX] {
        assert_eq!(decimal_text(n), n.to_string());
    }
    for n in [0i32, -1, 17, i32::MIN, i32::MAX] {
        assert_eq!(signed_decimal_text(n), n.to_string());
    }
    assert_eq!(digits_of(305), vec![3, 0, 5]);
}

#[test]
fn textual_order_of_numbers() {
    assert!(text_before(10, 2));
    assert!(text_before(1, 10));
    assert!(!text_before(2, 10));
    assert!(!text_before(7, 7));
    assert!(text_before(123, 13));
}
