use oxi_launcher::numfmt::{i64_to_dec_string, u64_to_dec_string};

#[test]
fn unsigned_decimal_rendering() {
    assert_eq!(u64_to_dec_string(0), "0");
    assert_eq!(u64_to_dec_string(7), "7");
    assert_eq!(u64_to_dec_string(54994), "54994");
    assert_eq!(u64_to_dec_string(u64::MAX), "18446744073709551615");
}

#[test]
fn signed_decimal_rendering() {
    assert_eq!(i64_to_dec_string(0), "0");
    assert_eq!(i64_to_dec_string(-1), "-1");
    assert_eq!(i64_to_dec_string(-54994), "-54994");
    assert_eq!(i64_to_dec_string(i64::MIN), "-9223372036854775808");
    assert_eq!(i64_to_dec_string(i64::MAX), "9223372036854775807");
}
