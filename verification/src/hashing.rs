//! SHA-256 digests and their hexadecimal text.

use vstd::prelude::*;

verus! {

/// The SHA-256 digest of a byte string.
pub uninterp spec fn sha256_of(data: Seq<u8>) -> Seq<u8>;

/// The sixteen hexadecimal digits, lower or upper case.
pub open spec fn hex_digits(upper: bool) -> Seq<char> {
    if upper {
        seq!['0', '1', '2', '3', '4', '5', '6', '7', '8', '9', 'A', 'B', 'C', 'D', 'E', 'F']
    } else {
        seq!['0', '1', '2', '3', '4', '5', '6', '7', '8', '9', 'a', 'b', 'c', 'd', 'e', 'f']
    }
}

/// Two hexadecimal digits per byte, the high nibble first.
pub open spec fn hex_of(bytes: Seq<u8>, upper: bool) -> Seq<char> {
    Seq::new(
        2 * bytes.len(),
        |i: int|
            if i % 2 == 0 {
                hex_digits(upper)[(bytes[i / 2] as int) / 16]
            } else {
                hex_digits(upper)[(bytes[i / 2] as int) % 16]
            },
    )
}

/// Every character of a hexadecimal rendering is ASCII.
pub proof fn lemma_hex_is_ascii(bytes: Seq<u8>, upper: bool)
    ensures
        vstd::utf8::is_ascii_chars(hex_of(bytes, upper)),
        hex_of(bytes, upper).len() == 2 * bytes.len(),
{
    assert forall|i: int| 0 <= i < hex_of(bytes, upper).len() implies '\0' <= #[trigger] hex_of(
        bytes,
        upper,
    )[i] <= '\u{7f}' by {
        let b = bytes[i / 2] as int;
        let n: int = if i % 2 == 0 {
            b / 16
        } else {
            b % 16
        };
        assert(0 <= n < 16);
        assert(hex_of(bytes, upper)[i] == hex_digits(upper)[n]);
    }
}

/// Runs `ring::digest::Context` with `SHA256` over `data`. Trusted: the bytes
/// handed back are the SHA-256 digest of `data`, which is 32 bytes long.
#[verifier::external_body]
pub(crate) fn sha256(data: &[u8]) -> (out: Vec<u8>)
    ensures
        out@ == sha256_of(data@),
        out@.len() == 32,
{
    let mut context = ring::digest::Context::new(&ring::digest::SHA256);
    context.update(data);
    context.finish().as_ref().to_vec()
}

/// Calls `data_encoding::HEXLOWER.encode`. Trusted: the text holds two lower
/// case hexadecimal digits for each byte, in order.
#[verifier::external_body]
pub(crate) fn hex_lower(bytes: &[u8]) -> (out: String)
    ensures
        out@ == hex_of(bytes@, false),
{
    data_encoding::HEXLOWER.encode(bytes)
}

/// Calls `data_encoding::HEXUPPER.encode`. Trusted: the text holds two upper
/// case hexadecimal digits for each byte, in order.
#[verifier::external_body]
pub(crate) fn hex_upper(bytes: &[u8]) -> (out: String)
    ensures
        out@ == hex_of(bytes@, true),
{
    data_encoding::HEXUPPER.encode(bytes)
}

} // verus!
