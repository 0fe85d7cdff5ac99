// Decimal spellings, written and read back.

use internetdata::decimal::{parse_decimal, to_decimal};

#[test]
fn numbers_are_spelled_in_decimal() {
    assert_eq!(to_decimal(0), "0");
    assert_eq!(to_decimal(7), "7");
    assert_eq!(to_decimal(1234), "1234");
    assert_eq!(to_decimal(u64::MAX), "18446744073709551615");
}

#[test]
fn a_spelling_reads_back_as_its_number() {
    for n in [0u64, 9, 10, 2147483, 9223372036854775807, u64::MAX] {
        assert_eq!(parse_decimal(&to_decimal(n)), Some(n));
    }
}

#[test]
fn only_a_run_of_digits_that_fits_is_read() {
    assert_eq!(parse_decimal(""), None);
    assert_eq!(parse_decimal("12a"), None);
    assert_eq!(parse_decimal(" 1"), None);
    assert_eq!(parse_decimal("-1"), None);
    assert_eq!(parse_decimal("18446744073709551616"), None);
    assert_eq!(parse_decimal("007"), Some(7));
}
