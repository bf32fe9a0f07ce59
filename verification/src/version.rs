//! The protocol version word.
//!
//! The host and a plugin compare versions through a single unsigned word
//! that packs two 16-bit fields as `(major << 16) | minor`. The major
//! version must match the host's exactly; the plugin's minor version must
//! not exceed the host's.

use vstd::prelude::*;

verus! {

/// Major protocol version; must equal the host's major version.
pub const CK_DLL_VERSION_MAJOR: u64 = 0x0008;

/// Minor protocol version; must be at most the host's minor version.
pub const CK_DLL_VERSION_MINOR: u64 = 0x0000;

/// Host-convention boolean: success / true.
pub const CK_TRUE: u64 = 1;

/// Host-convention boolean: failure / false.
pub const CK_FALSE: u64 = 0;

/// The version word that packs `maj` and `min`.
pub open spec fn version_word(maj: int, min: int) -> int {
    maj * 0x10000 + min
}

/// The major field of a version word.
pub open spec fn word_major(v: int) -> int {
    (v / 0x10000) % 0x10000
}

/// The minor field of a version word.
pub open spec fn word_minor(v: int) -> int {
    v % 0x10000
}

/// Packs a major and a minor version into one version word.
pub fn ck_dll_version_make(maj: u64, min: u64) -> (v: u64)
    requires
        maj <= 0xFFFF,
        min <= 0xFFFF,
    ensures
        v == version_word(maj as int, min as int),
{
    proof {
        assert((maj << 16u64) | min == maj * 0x10000 + min) by (bit_vector)
            requires
                maj <= 0xFFFF && min <= 0xFFFF,
        ;
    }
    (maj << 16u64) | min
}

/// The version word this crate reports to the host.
pub fn version() -> (v: u64)
    ensures
        v == version_word(CK_DLL_VERSION_MAJOR as int, CK_DLL_VERSION_MINOR as int),
        v == 0x0008_0000u64,
{
    ck_dll_version_make(CK_DLL_VERSION_MAJOR, CK_DLL_VERSION_MINOR)
}

/// Extracts the major field of a version word.
pub fn version_major(v: u64) -> (maj: u64)
    ensures
        maj == word_major(v as int),
        maj <= 0xFFFF,
{
    proof {
        assert((v >> 16u64) & 0xFFFF == ((v / 0x10000) % 0x10000) && (v >> 16u64) & 0xFFFF <= 0xFFFF)
            by (bit_vector);
    }
    (v >> 16u64) & 0xFFFF
}

/// Extracts the minor field of a version word.
pub fn version_minor(v: u64) -> (min: u64)
    ensures
        min == word_minor(v as int),
        min <= 0xFFFF,
{
    proof {
        assert(v & 0xFFFF == v % 0x10000 && v & 0xFFFF <= 0xFFFF) by (bit_vector);
    }
    v & 0xFFFF
}

/// The host's compatibility rule on version words: equal major fields, and
/// the plugin's minor field no newer than the host's.
pub open spec fn spec_compatible(host: int, plugin: int) -> bool {
    word_major(host) == word_major(plugin) && word_minor(plugin) <= word_minor(host)
}

/// Decides whether a plugin version word is acceptable to a host version
/// word: a major mismatch is rejected, and a plugin minor version greater
/// than the host's is rejected.
pub fn version_compatible(host: u64, plugin: u64) -> (ok: bool)
    ensures
        ok == spec_compatible(host as int, plugin as int),
{
    version_major(host) == version_major(plugin) && version_minor(plugin) <= version_minor(host)
}

/// Packing a major and a minor version and reading the two fields back
/// recovers exactly the pair that was packed.
pub proof fn lemma_version_round_trip(maj: int, min: int)
    requires
        0 <= maj <= 0xFFFF,
        0 <= min <= 0xFFFF,
    ensures
        word_major(version_word(maj, min)) == maj,
        word_minor(version_word(maj, min)) == min,
{
    assert((maj * 0x10000 + min) / 0x10000 == maj) by (nonlinear_arith)
        requires
            0 <= maj && 0 <= min <= 0xFFFF,
    ;
    assert((maj * 0x10000 + min) % 0x10000 == min) by (nonlinear_arith)
        requires
            0 <= maj && 0 <= min <= 0xFFFF,
    ;
}

} // verus!
