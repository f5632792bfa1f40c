//! Hardware addresses of BLE radios, and the address of the health scale.

use vstd::prelude::*;
use vstd::string::{is_ascii, is_ascii_spec_bytes};

verus! {

/// The 6-byte hardware address that identifies a BLE device's radio.
///
/// An address is binary: two addresses are the same exactly when their six
/// octets are the same, in order.
#[derive(Clone, Copy, Debug, PartialEq, Eq)]
pub struct HardwareAddress {
    pub octets: [u8; 6],
}

impl View for HardwareAddress {
    type V = Seq<u8>;

    open spec fn view(&self) -> Seq<u8> {
        self.octets@
    }
}

impl DeepView for HardwareAddress {
    type V = Seq<u8>;

    open spec fn deep_view(&self) -> Seq<u8> {
        self.octets@
    }
}

impl HardwareAddress {
    /// Builds an address from its six octets; `octets[0]` is the most
    /// significant one.
    pub fn new(octets: [u8; 6]) -> (address: HardwareAddress)
        ensures
            address.octets == octets,
            address@ == octets@,
            address@.len() == 6,
    {
        HardwareAddress { octets }
    }

    /// The six octets of the address.
    pub fn octets(&self) -> (octets: [u8; 6])
        ensures
            octets == self.octets,
            octets@ == self@,
    {
        self.octets
    }

    /// Octet-for-octet comparison of two addresses.
    pub fn same_as(&self, other: &HardwareAddress) -> (same: bool)
        ensures
            same == (self@ == other@),
    {
        let mut i: usize = 0;
        while i < 6
            invariant
                i <= 6,
                forall|k: int| 0 <= k < i ==> self@[k] == other@[k],
            decreases 6 - i,
        {
            if self.octets[i] != other.octets[i] {
                return false;
            }
            i += 1;
        }
        assert(self@ =~= other@);
        true
    }
}

/// Whether `digit` is the ASCII code of one of `0-9`, `A-F`, `a-f`.
pub open spec fn is_hex_digit(digit: u8) -> bool {
    (0x30 <= digit && digit <= 0x39) || (0x41 <= digit && digit <= 0x46) || (0x61 <= digit
        && digit <= 0x66)
}

/// The number between 0 and 15 that a hexadecimal digit stands for.
pub open spec fn hex_digit_value(digit: u8) -> int
    recommends
        is_hex_digit(digit),
{
    if 0x30 <= digit && digit <= 0x39 {
        digit - 0x30
    } else if 0x41 <= digit && digit <= 0x46 {
        digit - 0x41 + 10
    } else {
        digit - 0x61 + 10
    }
}

/// Whether `text` is the hexadecimal notation of a hardware address: twelve
/// hexadecimal digits and nothing else.
pub open spec fn is_address_hex(text: Seq<u8>) -> bool {
    &&& text.len() == 12
    &&& forall|i: int| 0 <= i < text.len() ==> is_hex_digit(#[trigger] text[i])
}

/// The octet that the `i`-th pair of digits of `text` writes: the first
/// digit of the pair is the high half.
pub open spec fn hex_octet(text: Seq<u8>, i: int) -> int {
    16 * hex_digit_value(text[2 * i]) + hex_digit_value(text[2 * i + 1])
}

/// The six octets that twelve hexadecimal digits write.
pub open spec fn address_from_hex(text: Seq<u8>) -> Seq<u8> {
    Seq::new(6, |i: int| hex_octet(text, i) as u8)
}

/// The octets of the health scale's address, `34:03:DE:08:C7:B9`.
pub open spec fn health_scale_octets() -> Seq<u8> {
    seq![0x34u8, 0x03u8, 0xDEu8, 0x08u8, 0xC7u8, 0xB9u8]
}

/// Decodes twelve hexadecimal digits into six octets with
/// `const_decoder::Decoder::Hex.decode`.
///
/// Trusted: the contract claims that, on twelve hexadecimal digits of
/// either case, the decoder does not panic, and that octet `i` of its
/// output is sixteen times the value of digit `2 * i` plus the value of
/// digit `2 * i + 1`.
#[verifier::external_body]
fn decode_address_hex(text: &[u8]) -> (octets: [u8; 6])
    requires
        is_address_hex(text@),
    ensures
        octets@ == address_from_hex(text@),
{
    const_decoder::Decoder::Hex.decode(text)
}

/// The hardware address of the health scale, `34:03:DE:08:C7:B9`, decoded
/// from its hexadecimal notation.
pub fn health_scale_address() -> (address: HardwareAddress)
    ensures
        address@ == health_scale_octets(),
{
    let text = "3403DE08C7B9";
    let digits = text.as_bytes();
    proof {
        reveal_strlit("3403DE08C7B9");
        assert(is_ascii(text));
        is_ascii_spec_bytes(text);
    }
    let octets = decode_address_hex(digits);
    assert(octets@ =~= health_scale_octets());
    HardwareAddress::new(octets)
}

} // verus!
