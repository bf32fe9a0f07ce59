use chugin::version::ck_dll_version_make;
use chugin::version::version;
use chugin::version::version_compatible;
use chugin::version::version_major;
use chugin::version::version_minor;

#[test]
fn encode_eight_zero() {
    assert_eq!(ck_dll_version_make(8, 0), 0x0008_0000);
}

#[test]
fn decode_recovers_eight_zero() {
    let v = ck_dll_version_make(8, 0);
    assert_eq!(version_major(v), 8);
    assert_eq!(version_minor(v), 0);
}

#[test]
fn crate_version_word() {
    assert_eq!(version(), 0x0008_0000);
}

#[test]
fn round_trip_other_fields() {
    let v = ck_dll_version_make(0x1234, 0xBEEF);
    assert_eq!(v, 0x1234_BEEF);
    assert_eq!(version_major(v), 0x1234);
    assert_eq!(version_minor(v), 0xBEEF);
}

#[test]
fn compatibility_rule() {
    let host = ck_dll_version_make(8, 2);
    assert!(version_compatible(host, ck_dll_version_make(8, 0)));
    assert!(version_compatible(host, ck_dll_version_make(8, 2)));
    assert!(!version_compatible(host, ck_dll_version_make(8, 3)));
    assert!(!version_compatible(host, ck_dll_version_make(9, 0)));
    assert!(!version_compatible(host, ck_dll_version_make(7, 2)));
}
