//! Rejection of encrypted PEM bodies before they reach the parser.
//!
//! A PEM block whose encapsulated headers carry a `Proc-Type` field (the
//! RFC 1421 form used for encrypted bodies) sends OpenSSL's PEM readers to
//! their passphrase callback, and with none installed the default callback
//! prompts on the terminal. Input carrying that header anywhere is rejected
//! up front, so the parsers below are only ever handed bytes on which their
//! outcome is a pure function of the input.

use vstd::prelude::*;

verus! {

/// The `Proc-Type:` header marker stands at position `i` of `bytes`: the
/// ten bytes from `i` spell `Proc-Type:`.
pub open spec fn marker_at(bytes: Seq<u8>, i: int) -> bool {
    &&& 0 <= i
    &&& i + 10 <= bytes.len()
    &&& bytes[i] == 80
    &&& bytes[i + 1] == 114
    &&& bytes[i + 2] == 111
    &&& bytes[i + 3] == 99
    &&& bytes[i + 4] == 45
    &&& bytes[i + 5] == 84
    &&& bytes[i + 6] == 121
    &&& bytes[i + 7] == 112
    &&& bytes[i + 8] == 101
    &&& bytes[i + 9] == 58
}

/// Whether the bytes carry the `Proc-Type:` header marker anywhere.
pub open spec fn declares_pem_encryption(bytes: Seq<u8>) -> bool {
    exists|i: int| marker_at(bytes, i)
}

/// Whether the ten bytes from position `i` spell `Proc-Type:`.
fn marker_matches_at(bytes: &[u8], i: usize) -> (r: bool)
    requires
        i + 10 <= bytes@.len(),
    ensures
        r == marker_at(bytes@, i as int),
{
    bytes[i] == 80 && bytes[i + 1] == 114 && bytes[i + 2] == 111 && bytes[i + 3] == 99
        && bytes[i + 4] == 45 && bytes[i + 5] == 84 && bytes[i + 6] == 121 && bytes[i + 7] == 112
        && bytes[i + 8] == 101 && bytes[i + 9] == 58
}

/// Scans the bytes for the `Proc-Type:` header marker.
pub fn contains_encryption_marker(bytes: &[u8]) -> (r: bool)
    ensures
        r == declares_pem_encryption(bytes@),
{
    let n = bytes.len();
    if n < 10 {
        return false;
    }
    let mut i: usize = 0;
    while i <= n - 10
        invariant
            10 <= n,
            n == bytes@.len(),
            i <= n - 10 + 1,
            forall|k: int| 0 <= k < i ==> !marker_at(bytes@, k),
        decreases n - i,
    {
        if marker_matches_at(bytes, i) {
            return true;
        }
        i += 1;
    }
    false
}

} // verus!
