//! Names encoded as null-terminated byte strings.
//!
//! Every name handed to the host (class names, member names, type tokens)
//! crosses the C boundary as a null-terminated byte string, so a name with
//! an embedded null byte cannot be represented at all. [`CString::new`] is
//! the one place that rule is enforced; everything downstream carries the
//! already-encoded bytes.

use vstd::prelude::*;

use crate::error::CkError;

verus! {

use vstd::string::*;
use vstd::utf8::encode_utf8;

/// Whether a name can be represented as a null-terminated byte string:
/// none of its UTF-8 bytes may be null.
pub open spec fn encodable(s: Seq<char>) -> bool {
    !encode_utf8(s).contains(0u8)
}

/// The null-terminated encoding of a name: its UTF-8 bytes followed by one
/// null byte.
pub open spec fn encoded(s: Seq<char>) -> Seq<u8> {
    encode_utf8(s).push(0u8)
}

/// An ASCII name without a null character is encodable, and its encoding
/// is its characters, one byte each, followed by the terminator.
pub proof fn lemma_ascii_encodable(s: Seq<char>)
    requires
        vstd::utf8::is_ascii_chars(s),
        forall|i: int| 0 <= i < s.len() ==> s[i] != '\0',
    ensures
        encodable(s),
        encoded(s).len() == s.len() + 1,
        forall|i: int| 0 <= i < s.len() ==> encoded(s)[i] == s[i] as u8,
{
    vstd::utf8::is_ascii_chars_encode_utf8(s);
    if encode_utf8(s).contains(0u8) {
        let i = choose|i: int| 0 <= i < encode_utf8(s).len() && encode_utf8(s)[i] == 0u8;
        assert(s[i] as u8 == 0u8);
        assert('\0' <= s[i] <= '\u{7f}');
        assert(s[i] == '\0');
    }
}

/// A name encoded for the host: the UTF-8 bytes of the name followed by a
/// single null terminator, with no null byte anywhere else.
#[derive(Debug)]
pub struct CString {
    bytes: Vec<u8>,
}

impl View for CString {
    type V = Seq<u8>;

    closed spec fn view(&self) -> Seq<u8> {
        self.bytes@
    }
}

impl CString {
    /// Well-formed: the terminator is present, stands last, and no other
    /// byte is null.
    pub open spec fn wf(&self) -> bool {
        &&& self@.len() >= 1
        &&& self@.last() == 0u8
        &&& forall|i: int| 0 <= i < self@.len() - 1 ==> self@[i] != 0u8
    }

    /// Encodes a name. Succeeds exactly when no byte of the name is null;
    /// the encoding is the name's bytes with one null byte appended.
    pub fn new(s: &str) -> (r: Result<CString, CkError>)
        ensures
            r is Ok <==> encodable(s@),
            r matches Ok(c) ==> c@ == encoded(s@) && c.wf(),
            r matches Err(e) ==> e == CkError::NameEncodingError,
    {
        let mut bytes = s.as_bytes_vec();
        let mut i: usize = 0;
        while i < bytes.len()
            invariant
                bytes@ == s.spec_bytes(),
                0 <= i <= bytes@.len(),
                forall|j: int| 0 <= j < i ==> bytes@[j] != 0u8,
            decreases bytes@.len() - i,
        {
            if bytes[i] == 0u8 {
                proof {
                    assert(s.spec_bytes()[i as int] == 0u8);
                }
                return Err(CkError::NameEncodingError);
            }
            i += 1;
        }
        bytes.push(0u8);
        Ok(CString { bytes })
    }

    /// The encoded bytes, terminator last — exactly what crosses the C
    /// boundary.
    pub fn as_bytes_with_nul(&self) -> (b: &Vec<u8>)
        ensures
            b@ == self@,
    {
        &self.bytes
    }
}

} // verus!
