use auth_core::text::{copy_texts, decimal, integer, same_text};

#[test]
fn decimal_notation() {
    assert_eq!(decimal(0), "0");
    assert_eq!(decimal(7), "7");
    assert_eq!(decimal(9), "9");
    assert_eq!(decimal(10), "10");
    assert_eq!(decimal(11), "11");
    assert_eq!(decimal(100), "100");
    assert_eq!(decimal(1234567890), "1234567890");
    assert_eq!(decimal(9_007_199_254_740_993), "9007199254740993");
    assert_eq!(decimal(u64::MAX), "18446744073709551615");
}

#[test]
fn decimal_agrees_with_the_standard_library() {
    let mut n: u64 = 1;
    for _ in 0..64 {
        assert_eq!(decimal(n), n.to_string());
        assert_eq!(decimal(n - 1), (n - 1).to_string());
        n = n.wrapping_mul(2);
    }
    for n in 0..1200u64 {
        assert_eq!(decimal(n), n.to_string());
    }
}

#[test]
fn same_text_compares_characters() {
    assert!(same_text("", ""));
    assert!(same_text("Bearer ", "Bearer "));
    assert!(!same_text("Bearer ", "bearer "));
    assert!(!same_text("a", "ab"));
    assert!(same_text("\u{2603}", "\u{2603}"));
}

#[test]
fn copy_of_a_list_of_strings() {
    let list = vec!["a".to_string(), "".to_string(), "\u{2603}b".to_string()];
    assert_eq!(copy_texts(&list), list);
    assert_eq!(copy_texts(&Vec::new()), Vec::<String>::new());
}

#[test]
fn whole_numbers_with_a_sign() {
    assert_eq!(integer(0), "0");
    assert_eq!(integer(-1), "-1");
    assert_eq!(integer(42), "42");
    assert_eq!(integer(-20), "-20");
    assert_eq!(integer(i64::MIN as i128), i64::MIN.to_string());
    assert_eq!(integer(i64::MAX as i128), i64::MAX.to_string());
    assert_eq!(integer(u64::MAX as i128), u64::MAX.to_string());
    assert_eq!(integer(-(u64::MAX as i128)), "-18446744073709551615");
    for n in -1200i128..1200 {
        assert_eq!(integer(n), n.to_string());
    }
}
