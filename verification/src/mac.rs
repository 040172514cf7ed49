//! Message authentication and PIN-block handling.
//!
//! The MAC is an HMAC-SHA256 tag truncated to eight bytes, computed with a
//! mock symmetric key: the reference deployment defines the interface
//! while production key management lives in a hardware module.  The PIN
//! block follows ISO 9564-1 format 0: the PIN field XOR the PAN field,
//! returned unencrypted by this mock.

use vstd::prelude::*;

use crate::bitmap::{remove_ws, strip_ws};
use crate::hexutil::{bytes_to_hex, hex_chars_to_bytes, hex_parse, valid_hex};
use crate::strutil::{dec_seq, digit_filter, right_pad_zeros, upper};

verus! {

/// What HMAC-SHA256 returns: a function of the key and data alone.
pub uninterp spec fn hmac_sha256_of(key: Seq<u8>, data: Seq<u8>) -> Seq<u8>;

/// Relies on `ring::hmac::sign` with `HMAC_SHA256`: the tag depends on
/// the key and the data alone, and is as long as a SHA-256 digest,
/// 32 bytes.
#[verifier::external_body]
fn hmac_sha256(key: &[u8], data: &[u8]) -> (r: Vec<u8>)
    ensures
        r@ == hmac_sha256_of(key@, data@),
        r@.len() == 32,
{
    let k = ring::hmac::Key::new(ring::hmac::HMAC_SHA256, key);
    let tag = ring::hmac::sign(&k, data);
    tag.as_ref().to_vec()
}

/// The eight-byte MAC of `data` under `key`, as upper-case hex text.
pub open spec fn spec_mac_hex(key: Seq<u8>, data: Seq<u8>) -> Seq<char> {
    bytes_to_hex(hmac_sha256_of(key, data).take(8))
}

/// MAC generation and verification over a mock key.
pub struct MacCalculator {
    mock_key: Vec<u8>,
}

impl MacCalculator {
    pub closed spec fn key(&self) -> Seq<u8> {
        self.mock_key@
    }

    /// The demonstration key; production would fetch one from secure
    /// storage.
    pub fn new_mock() -> (r: MacCalculator)
        ensures
            r.key() == mock_key_bytes(),
    {
        MacCalculator { mock_key: mock_key_vec() }
    }

    /// A calculator over a caller-supplied key.
    pub fn with_key(key: Vec<u8>) -> (r: MacCalculator)
        ensures
            r.key() == key@,
    {
        MacCalculator { mock_key: key }
    }

    /// The eight-byte MAC of `data`, as sixteen hex characters.
    pub fn calculate_mac(&self, data: &[u8]) -> (r: String)
        ensures
            r@ == spec_mac_hex(self.key(), data@),
            r@.len() == 16,
    {
        let tag = hmac_sha256(self.mock_key.as_slice(), data);
        let head = &tag.as_slice()[0..8];
        proof {
            assert(head@ =~= hmac_sha256_of(self.key(), data@).take(8));
        }
        crate::hexutil::bytes_to_hex_upper(head)
    }

    /// Whether `expected_mac` (letter case ignored) is the MAC of `data`.
    pub fn verify_mac(&self, data: &[u8], expected_mac: &str) -> (r: bool)
        ensures
            r == (spec_mac_hex(self.key(), data@) == upper(expected_mac@)),
    {
        let calculated = self.calculate_mac(data);
        proof {
            lemma_upper_hex_fixed(hmac_sha256_of(self.key(), data@).take(8));
        }
        crate::strutil::str_eq_ignore_case(calculated.as_str(), expected_mac)
    }

    /// The MAC of a whole hex-carried message.
    pub fn calculate_iso_mac(&self, message_hex: &str) -> (r: Result<String, String>)
        ensures
            r is Ok <==> valid_hex(strip_ws(message_hex@)),
            r is Ok ==> r->Ok_0@ == spec_mac_hex(self.key(), hex_parse(strip_ws(message_hex@))),
    {
        let cleaned = remove_ws(message_hex);
        let bytes = match hex_chars_to_bytes(&cleaned) {
            Ok(b) => b,
            Err(_) => {
                return Err("Invalid hex string".to_owned());
            },
        };
        Ok(self.calculate_mac(bytes.as_slice()))
    }

    /// Whether `mac` (letter case ignored) authenticates a hex-carried
    /// message.
    pub fn verify_iso_mac(&self, message_hex: &str, mac: &str) -> (r: Result<bool, String>)
        ensures
            r is Ok <==> valid_hex(strip_ws(message_hex@)),
            r is Ok ==> r->Ok_0 == (spec_mac_hex(self.key(), hex_parse(strip_ws(message_hex@)))
                == upper(mac@)),
    {
        let calculated = match self.calculate_iso_mac(message_hex) {
            Ok(c) => c,
            Err(e) => {
                return Err(e);
            },
        };
        proof {
            lemma_upper_hex_fixed(hmac_sha256_of(self.key(), hex_parse(strip_ws(message_hex@))).take(8));
        }
        Ok(crate::strutil::str_eq_ignore_case(calculated.as_str(), mac))
    }
}

/// The sixteen bytes of the demonstration key.
pub open spec fn mock_key_bytes() -> Seq<u8> {
    seq![
        0x01u8,
        0x23,
        0x45,
        0x67,
        0x89,
        0xAB,
        0xCD,
        0xEF,
        0xFE,
        0xDC,
        0xBA,
        0x98,
        0x76,
        0x54,
        0x32,
        0x10,
    ]
}

/// The demonstration key value.
fn mock_key_vec() -> (r: Vec<u8>)
    ensures
        r@ == mock_key_bytes(),
{
    let mut k: Vec<u8> = Vec::new();
    k.push(0x01);
    k.push(0x23);
    k.push(0x45);
    k.push(0x67);
    k.push(0x89);
    k.push(0xAB);
    k.push(0xCD);
    k.push(0xEF);
    k.push(0xFE);
    k.push(0xDC);
    k.push(0xBA);
    k.push(0x98);
    k.push(0x76);
    k.push(0x54);
    k.push(0x32);
    k.push(0x10);
    proof {
        assert(k@ =~= mock_key_bytes());
    }
    k
}

/// Hex renderings are all upper case already, so upper-casing fixes them.
proof fn lemma_upper_hex_fixed(bs: Seq<u8>)
    ensures
        upper(bytes_to_hex(bs)) == bytes_to_hex(bs),
{
    let s = bytes_to_hex(bs);
    assert forall|i: int| 0 <= i < s.len() implies crate::strutil::to_upper_char(#[trigger] s[i])
        == s[i] by {
        if i % 2 == 0 {
            assert(0 <= bs[i / 2] / 16 < 16);
        } else {
            assert(0 <= bs[i / 2] % 16 < 16);
        }
    }
    assert(upper(s) =~= s);
}

/// The digit filter yields decimal digits only.
proof fn lemma_digit_filter_digits(s: Seq<char>)
    ensures
        forall|i: int| 0 <= i < digit_filter(s).len() ==> '0' <= #[trigger] digit_filter(s)[i]
            <= '9',
    decreases s.len(),
{
    if s.len() > 0 {
        lemma_digit_filter_digits(s.drop_last());
        assert forall|i: int|
            0 <= i < digit_filter(s).len() implies '0' <= #[trigger] digit_filter(s)[i]
            <= '9' by {
            if '0' <= s.last() <= '9' {
                assert(digit_filter(s) == digit_filter(s.drop_last()).push(s.last()));
                if i < digit_filter(s).len() - 1 {
                    assert(digit_filter(s)[i] == digit_filter(s.drop_last())[i]);
                }
            } else {
                assert(digit_filter(s) == digit_filter(s.drop_last()));
            }
        }
    }
}

/// The PIN field: format flag 0, the PIN length, then the PIN padded
/// right with zeros to fourteen characters.
pub open spec fn spec_pin_field(pin: Seq<char>) -> Seq<char> {
    seq!['0'] + dec_seq(pin.len() as int, if pin.len() < 10 { 1int } else { 2 }) + right_pad_zeros(
        pin,
        14,
    )
}

/// The PAN field: four zeros then the twelve digits before the check
/// digit.
pub open spec fn spec_pan_field(pan: Seq<char>) -> Seq<char> {
    let digits = digit_filter(pan);
    "0000"@ + digits.subrange(digits.len() - 13, digits.len() - 1)
}

/// Byte-wise XOR of the first eight bytes of each operand.
pub open spec fn spec_xor8(a: Seq<u8>, b: Seq<u8>) -> Seq<u8> {
    Seq::new(8, |i: int| a[i] ^ b[i])
}

/// The format-0 PIN block of a PIN and PAN, as hex text.
pub open spec fn spec_pin_block(pin: Seq<char>, pan: Seq<char>) -> Seq<char> {
    bytes_to_hex(spec_xor8(hex_parse(spec_pin_field(pin)), hex_parse(spec_pan_field(pan))))
}

/// Mock PIN-block construction and verification.
pub struct PinBlockHandler {
    mock_pin_key: Vec<u8>,
}

impl PinBlockHandler {
    /// The demonstration PIN key.
    pub fn new_mock() -> (r: PinBlockHandler)
        ensures
            r.pin_key() == mock_key_bytes(),
    {
        PinBlockHandler { mock_pin_key: mock_key_vec() }
    }

    pub closed spec fn pin_key(&self) -> Seq<u8> {
        self.mock_pin_key@
    }

    /// Build the format-0 PIN block: the PIN field XOR the PAN field.
    /// The PIN must be four to twelve digits and the PAN must carry at
    /// least thirteen digits; the mock returns the XOR without final
    /// encryption.
    pub fn encrypt_pin(&self, pin: &str, pan: &str) -> (r: Result<String, String>)
        ensures
            pin@.len() < 4 || pin@.len() > 12 ==> (r matches Err(e)
                && e@ == "PIN must be 4-12 digits"@),
            4 <= pin@.len() <= 12 && digit_filter(pan@).len() < 13 ==> (r matches Err(e)
                && e@ == "Invalid PAN length"@),
            4 <= pin@.len() <= 12 && digit_filter(pan@).len() >= 13 ==> (if valid_hex(
                spec_pin_field(pin@),
            ) {
                r is Ok && r->Ok_0@ == spec_pin_block(pin@, pan@)
            } else {
                r matches Err(e) && e@ == "Failed to encode PIN field"@
            }),
    {
        let plen = pin.unicode_len();
        if plen < 4 || plen > 12 {
            return Err("PIN must be 4-12 digits".to_owned());
        }
        proof {
            assert(crate::strutil::pow10(0) == 1);
            assert(crate::strutil::pow10(1) == 10);
            assert(crate::strutil::pow10(2) == 100);
        }
        let len_text = if plen < 10 {
            crate::strutil::format_dec(plen as u64, 1)
        } else {
            crate::strutil::format_dec(plen as u64, 2)
        };
        let pin_field = "0".to_owned().concat(len_text.as_str()).concat(
            crate::strutil::pad_right_zeros(pin, 14).as_str(),
        );
        proof {
            reveal_strlit("0");
            assert(pin_field@ =~= spec_pin_field(pin@));
        }
        let pan_digits = crate::strutil::filter_digits(pan);
        if pan_digits.len() < 13 {
            return Err("Invalid PAN length".to_owned());
        }
        let mut pan_field_chars: Vec<char> = Vec::new();
        pan_field_chars.push('0');
        pan_field_chars.push('0');
        pan_field_chars.push('0');
        pan_field_chars.push('0');
        let mut i: usize = pan_digits.len() - 13;
        while i < pan_digits.len() - 1
            invariant
                13 <= pan_digits@.len(),
                pan_digits@.len() - 13 <= i <= pan_digits@.len() - 1,
                pan_field_chars@ == seq!['0', '0', '0', '0'] + pan_digits@.subrange(
                    pan_digits@.len() - 13,
                    i as int,
                ),
            decreases pan_digits@.len() - i,
        {
            pan_field_chars.push(pan_digits[i]);
            proof {
                assert(pan_field_chars@ =~= seq!['0', '0', '0', '0'] + pan_digits@.subrange(
                    pan_digits@.len() - 13,
                    i + 1,
                ));
            }
            i = i + 1;
        }
        proof {
            reveal_strlit("0000");
            assert(pan_field_chars@ =~= spec_pan_field(pan@));
        }
        let pin_chars = crate::strutil::str_to_chars(pin_field.as_str());
        let pin_bytes = match hex_chars_to_bytes(&pin_chars) {
            Ok(b) => b,
            Err(_) => {
                return Err("Failed to encode PIN field".to_owned());
            },
        };
        proof {
            lemma_digit_filter_digits(pan@);
            reveal_strlit("0000");
            assert forall|j: int|
                0 <= j < pan_field_chars@.len() implies crate::hexutil::is_hex_digit(
                #[trigger] pan_field_chars@[j],
            ) by {
                if j >= 4 {
                    assert('0' <= pan_field_chars@[j] <= '9');
                }
            }
            assert(valid_hex(pan_field_chars@));
        }
        let pan_bytes = match hex_chars_to_bytes(&pan_field_chars) {
            Ok(b) => b,
            Err(_) => {
                proof {
                    assert(false);
                }
                return Err("Failed to encode PAN field".to_owned());
            },
        };
        let mut result: Vec<u8> = Vec::new();
        let mut i: usize = 0;
        while i < 8
            invariant
                pin_bytes@.len() == 8,
                pan_bytes@.len() == 8,
                i <= 8,
                result@ == spec_xor8(pin_bytes@, pan_bytes@).take(i as int),
            decreases 8 - i,
        {
            result.push(pin_bytes[i] ^ pan_bytes[i]);
            proof {
                assert(result@ =~= spec_xor8(pin_bytes@, pan_bytes@).take(i + 1));
            }
            i = i + 1;
        }
        proof {
            assert(spec_xor8(pin_bytes@, pan_bytes@).take(8) =~= spec_xor8(
                pin_bytes@,
                pan_bytes@,
            ));
        }
        Ok(crate::hexutil::bytes_to_hex_upper(result.as_slice()))
    }

    /// Whether a PIN block (letter case ignored) matches the PIN and PAN.
    pub fn verify_pin(&self, encrypted_pin: &str, pin: &str, pan: &str) -> (r: Result<
        bool,
        String,
    >)
        ensures
            r is Ok ==> r->Ok_0 == (spec_pin_block(pin@, pan@) == upper(encrypted_pin@)),
            r is Err ==> !(4 <= pin@.len() <= 12 && digit_filter(pan@).len() >= 13 && valid_hex(
                spec_pin_field(pin@),
            )),
    {
        let calculated = match self.encrypt_pin(pin, pan) {
            Ok(c) => c,
            Err(e) => {
                return Err(e);
            },
        };
        proof {
            lemma_upper_hex_fixed(
                spec_xor8(
                    hex_parse(spec_pin_field(pin@)),
                    hex_parse(spec_pan_field(pan@)),
                ),
            );
        }
        Ok(crate::strutil::str_eq_ignore_case(calculated.as_str(), encrypted_pin))
    }
}

} // verus!
