use chugin::cstring::CString;
use chugin::error::CkError;

#[test]
fn encodes_with_terminator() {
    let c = CString::new("UGen").unwrap();
    assert_eq!(c.as_bytes_with_nul().as_slice(), b"UGen\0");
}

#[test]
fn empty_name_is_one_null_byte() {
    let c = CString::new("").unwrap();
    assert_eq!(c.as_bytes_with_nul().as_slice(), b"\0");
}

#[test]
fn embedded_null_is_rejected() {
    match CString::new("bad\0name") {
        Err(e) => assert_eq!(e, CkError::NameEncodingError),
        Ok(_) => panic!("a name with an embedded null byte must be rejected"),
    }
}

#[test]
fn trailing_null_is_rejected() {
    match CString::new("name\0") {
        Err(e) => assert_eq!(e, CkError::NameEncodingError),
        Ok(_) => panic!("a name with a null byte must be rejected"),
    }
}

#[test]
fn multi_byte_characters_encode_as_utf8() {
    let c = CString::new("saw~±3").unwrap();
    let mut expected = "saw~±3".as_bytes().to_vec();
    expected.push(0);
    assert_eq!(c.as_bytes_with_nul(), &expected);
}
