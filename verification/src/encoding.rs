//! Hexadecimal text of digests, for diagnostics.

use vstd::prelude::*;
use vstd::string::StringExecFns;

verus! {

/// The lower-case hexadecimal digit of a value below sixteen.
pub open spec fn hex_digit(n: int) -> char
    recommends
        0 <= n < 16,
{
    seq!['0', '1', '2', '3', '4', '5', '6', '7', '8', '9', 'a', 'b', 'c', 'd', 'e', 'f'][n]
}

/// Lower-case hexadecimal text of a byte string: two digits for each byte,
/// the high half first.
pub open spec fn hex_lower(bytes: Seq<u8>) -> Seq<char> {
    Seq::new(
        2 * bytes.len(),
        |i: int|
            if i % 2 == 0 {
                hex_digit(bytes[i / 2] as int / 16)
            } else {
                hex_digit(bytes[i / 2] as int % 16)
            },
    )
}

/// Calls `hex::encode`. Trusted: the result is the lower-case hexadecimal
/// text of `data`, two digits for each byte, as `hex` builds it from its
/// table of lower-case digits.
#[verifier::external_body]
fn hex_encode(data: &[u8]) -> (res: String)
    ensures
        res@ == hex_lower(data@),
{
    hex::encode(data)
}

/// Text of a chain hash mismatch. It carries both hashes: the one derived
/// from the received info packet, then the one that was expected.
pub open spec fn mismatch_details(received: Seq<u8>, expected: Seq<u8>) -> Seq<char> {
    "rcv("@ + hex_lower(received) + ") != bp("@ + hex_lower(expected) + ")"@
}

/// Builds the text of a chain hash mismatch from the derived hash and the
/// expected one.
pub fn chain_hash_mismatch_details(received: &[u8], expected: &[u8]) -> (res: String)
    ensures
        res@ == mismatch_details(received@, expected@),
{
    let mut text = String::from_str("rcv(");
    let received_hex = hex_encode(received);
    text.append(received_hex.as_str());
    text.append(") != bp(");
    let expected_hex = hex_encode(expected);
    text.append(expected_hex.as_str());
    text.append(")");
    text
}

/// Whether two byte strings are equal.
pub fn bytes_equal(a: &[u8], b: &[u8]) -> (res: bool)
    ensures
        res == (a@ == b@),
{
    if a.len() != b.len() {
        return false;
    }
    let mut i: usize = 0;
    while i < a.len()
        invariant
            a.len() == b.len(),
            i <= a.len(),
            forall|k: int| 0 <= k < i ==> a@[k] == b@[k],
        decreases a.len() - i,
    {
        if a[i] != b[i] {
            return false;
        }
        i += 1;
    }
    assert(a@ =~= b@);
    true
}

} // verus!
