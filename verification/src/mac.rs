//! The MAC address that a guest gets where it names none.

use vstd::prelude::*;
use vstd::string::*;
use crate::hashing::{hex_digits, hex_lower, hex_of};
use crate::patterns::{is_lower_hex, is_mac};

verus! {

/// `66`, and then a colon and two hexadecimal digits for each of the bytes
/// `1..k`.
pub open spec fn mac_prefix(bytes: Seq<u8>, k: int) -> Seq<char>
    decreases k,
{
    if k <= 1 {
        seq!['6', '6']
    } else {
        mac_prefix(bytes, k - 1) + seq![':'] + hex_of(seq![bytes[k - 1]], false)
    }
}

/// The default MAC address that six random bytes give: its first byte is
/// `66`, and the bytes `1..6` follow.
pub open spec fn default_mac_of(bytes: Seq<u8>) -> Seq<char> {
    mac_prefix(bytes, 6)
}

/// Whether the places `0..s.len()` hold what a MAC address holds there.
pub open spec fn mac_so_far(s: Seq<char>) -> bool {
    forall|i: int|
        0 <= i < s.len() ==> if i % 3 == 2 {
            #[trigger] s[i] == ':'
        } else {
            is_lower_hex(s[i])
        }
}

/// Each of the sixteen lower case digits is one that a MAC address admits.
proof fn lemma_digits_are_lower_hex(n: int)
    requires
        0 <= n < 16,
    ensures
        is_lower_hex(hex_digits(false)[n]),
{
}

/// Calls `rand::thread_rng` and fills six bytes from it with
/// `RngCore::fill_bytes`. Trusted: six bytes come back; nothing is said of
/// what they hold.
#[verifier::external_body]
fn random_bytes() -> (r: Vec<u8>)
    ensures
        r@.len() == 6,
{
    let mut data = [0u8; 6];
    rand::RngCore::fill_bytes(&mut rand::thread_rng(), &mut data);
    data.to_vec()
}

/// The default MAC address that six bytes give.
pub fn default_mac_from(bytes: &Vec<u8>) -> (r: String)
    requires
        bytes@.len() == 6,
    ensures
        r@ == default_mac_of(bytes@),
        is_mac(r@),
{
    let mut r = String::from_str("66");
    proof {
        reveal_strlit("66");
        reveal_strlit(":");
        assert(r@ =~= mac_prefix(bytes@, 1));
    }
    let mut k: usize = 1;
    while k < 6
        invariant
            1 <= k <= 6,
            bytes@.len() == 6,
            r@ == mac_prefix(bytes@, k as int),
            r@.len() == 3 * k - 1,
            mac_so_far(r@),
        decreases 6 - k,
    {
        let mut one: Vec<u8> = Vec::new();
        one.push(bytes[k]);
        let pair = hex_lower(one.as_slice());
        let ghost before = r@;
        r.append(":");
        r.append(pair.as_str());
        proof {
            reveal_strlit(":");
            assert(one@ =~= seq![bytes@[k as int]]);
            let b = bytes@[k as int] as int;
            lemma_digits_are_lower_hex(b / 16);
            lemma_digits_are_lower_hex(b % 16);
            assert(pair@.len() == 2);
            assert(pair@[0] == hex_digits(false)[b / 16]);
            assert(pair@[1] == hex_digits(false)[b % 16]);
            assert(r@ =~= before + seq![':'] + pair@);
            assert(mac_so_far(r@)) by {
                assert forall|i: int| 0 <= i < r@.len() implies if i % 3 == 2 {
                    #[trigger] r@[i] == ':'
                } else {
                    is_lower_hex(r@[i])
                } by {
                    if i < before.len() {
                        assert(r@[i] == before[i]);
                    } else if i == before.len() {
                        assert(r@[i] == ':');
                    } else {
                        assert(r@[i] == pair@[i - before.len() - 1]);
                    }
                }
            }
        }
        k = k + 1;
    }
    r
}

/// A default MAC address with five random bytes after the first, which is
/// `66`.
pub fn generate_default_mac() -> (r: String)
    ensures
        is_mac(r@),
        r@[0] == '6',
        r@[1] == '6',
        exists|bytes: Seq<u8>| bytes.len() == 6 && r@ == #[trigger] default_mac_of(bytes),
{
    let bytes = random_bytes();
    let r = default_mac_from(&bytes);
    proof {
        lemma_mac_begins_with_66(bytes@, 6);
    }
    r
}

/// Every prefix of a default MAC address begins with `66`.
proof fn lemma_mac_begins_with_66(bytes: Seq<u8>, k: int)
    requires
        k >= 1,
    ensures
        mac_prefix(bytes, k).len() >= 2,
        mac_prefix(bytes, k)[0] == '6',
        mac_prefix(bytes, k)[1] == '6',
    decreases k,
{
    if k > 1 {
        lemma_mac_begins_with_66(bytes, k - 1);
    }
}

} // verus!
