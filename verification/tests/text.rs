use memebot::bot::types::tmp_path;
use memebot::text::{i64_to_decimal, u64_to_decimal};

#[test]
fn unsigned_decimals() {
    assert_eq!(u64_to_decimal(0), "0");
    assert_eq!(u64_to_decimal(7), "7");
    assert_eq!(u64_to_decimal(10), "10");
    assert_eq!(u64_to_decimal(1234567890), "1234567890");
    assert_eq!(u64_to_decimal(u64::MAX), u64::MAX.to_string());
}

#[test]
fn signed_decimals() {
    assert_eq!(i64_to_decimal(0), "0");
    assert_eq!(i64_to_decimal(-42), "-42");
    assert_eq!(i64_to_decimal(905), "905");
    assert_eq!(i64_to_decimal(i64::MIN), "-9223372036854775808");
    assert_eq!(i64_to_decimal(i64::MAX), "9223372036854775807");
}

#[test]
fn temporary_paths_show_the_hyphenated_uuid() {
    assert_eq!(
        tmp_path(0x67e5504410b1426f9247bb680e5fe0c8, "jpg"),
        "/tmp/67e55044-10b1-426f-9247-bb680e5fe0c8.jpg"
    );
    assert_eq!(tmp_path(0, "png"), "/tmp/00000000-0000-0000-0000-000000000000.png");
    assert_eq!(
        tmp_path(u128::MAX, "heic"),
        "/tmp/ffffffff-ffff-ffff-ffff-ffffffffffff.heic"
    );
}
