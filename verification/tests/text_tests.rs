use minipress::text::{joined, decimal, same_text};

#[test]
fn decimal_writes_numbers_without_leading_zeros() {
    assert_eq!(decimal(0), "0");
    assert_eq!(decimal(7), "7");
    assert_eq!(decimal(10), "10");
    assert_eq!(decimal(1905), "1905");
    assert_eq!(decimal(u64::MAX), "18446744073709551615");
}

#[test]
fn concat_puts_texts_one_after_the_other() {
    assert_eq!(joined("", ""), "");
    assert_eq!(joined("token ", "abc"), "token abc");
    assert_eq!(joined("é", "ß"), "éß");
}

#[test]
fn same_text_compares_characters() {
    assert!(same_text("admin", "admin"));
    assert!(!same_text("admin", "Admin"));
    assert!(!same_text("admin", "admin "));
    assert!(same_text("", ""));
}
