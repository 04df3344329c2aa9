use ibc_counter::text::{same_text, to_decimal};

#[test]
fn decimal_of_small_numbers() {
    assert_eq!(to_decimal(0), "0");
    assert_eq!(to_decimal(1), "1");
    assert_eq!(to_decimal(9), "9");
    assert_eq!(to_decimal(10), "10");
    assert_eq!(to_decimal(11), "11");
    assert_eq!(to_decimal(99), "99");
    assert_eq!(to_decimal(100), "100");
    assert_eq!(to_decimal(101), "101");
}

#[test]
fn decimal_of_large_numbers() {
    assert_eq!(to_decimal(1234567890), "1234567890");
    assert_eq!(to_decimal(1000000000), "1000000000");
    assert_eq!(to_decimal(u32::MAX), "4294967295");
}

#[test]
fn decimal_is_what_std_prints() {
    let mut n: u32 = 0;
    while n < 20_000 {
        assert_eq!(to_decimal(n), n.to_string());
        n += 1;
    }
    let mut n: u32 = 1;
    while n < u32::MAX / 7 {
        assert_eq!(to_decimal(n), n.to_string());
        assert_eq!(to_decimal(u32::MAX - n), (u32::MAX - n).to_string());
        n = n * 7 + 3;
    }
}

#[test]
fn same_text_compares_whole_texts() {
    assert!(same_text("counter-1", "counter-1"));
    assert!(same_text("", ""));
    assert!(!same_text("counter-1", "counter-2"));
    assert!(!same_text("counter-1", "counter-"));
    assert!(!same_text("counter-1", "counter-10"));
    assert!(!same_text("counter-1", "Counter-1"));
    assert!(!same_text("", " "));
}
