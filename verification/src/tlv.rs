//! BER-TLV parser for EMV chip data (the content of data element 55).
//!
//! Tags follow the BER rule: a first byte whose low five bits are all set
//! opens a multi-byte tag that runs while the following bytes have their
//! high bit set.  Lengths use the BER short and long forms (`0x81`..`0x83`
//! prefixes).  A declared length that overruns the data salvages the
//! remaining bytes as a final truncated element instead of failing: chip
//! capture is lossy in the field, and this is the one deliberate tolerance.

use vstd::prelude::*;

use crate::hexutil::{bytes_to_hex, hex_chars_to_bytes, hex_parse, valid_hex};
use crate::bitmap::{remove_ws, strip_ws};

verus! {

/// Errors of TLV parsing.
#[derive(Debug, Clone, PartialEq, Eq)]
pub enum TlvParseError {
    /// Carrier hex text has odd length.
    InvalidHexLength,
    /// Carrier hex text holds a non-hex character.
    InvalidHexChar(String),
    /// Data ends inside a length field.
    UnexpectedEndOfData,
    /// A length byte outside the supported BER forms.
    InvalidLengthEncoding(u8),
    /// A malformed tag.
    InvalidTag,
}

/// Spec-level value of one TLV element.
pub struct TlvModel {
    pub tag: Seq<char>,
    pub length: int,
    pub value: Seq<u8>,
}

/// One parsed tag-length-value element.  The tag is upper-case hex text;
/// `length` is the byte count of `value` (for a salvaged final element,
/// the count actually available rather than the declared one).
#[derive(Debug, Clone)]
pub struct TlvElement {
    pub tag: String,
    pub length: usize,
    pub value: Vec<u8>,
}

impl View for TlvElement {
    type V = TlvModel;

    open spec fn view(&self) -> TlvModel {
        TlvModel { tag: self.tag@, length: self.length as int, value: self.value@ }
    }
}

/// End position (exclusive) of a multi-byte tag that started before `i`:
/// bytes run while their high bit is set, and the stream end also ends
/// the tag.
pub open spec fn spec_tag_end(bytes: Seq<u8>, i: int) -> int
    decreases bytes.len() - i,
{
    if i >= bytes.len() {
        bytes.len() as int
    } else if bytes[i] & 0x80 == 0 {
        i + 1
    } else {
        spec_tag_end(bytes, i + 1)
    }
}

/// Bytes occupied by the tag at the head of `bytes`.
pub open spec fn spec_tag_len(bytes: Seq<u8>) -> int {
    if bytes[0] & 0x1F == 0x1F {
        spec_tag_end(bytes, 1)
    } else {
        1
    }
}

pub proof fn lemma_tag_end_bounds(bytes: Seq<u8>, i: int)
    requires
        0 <= i <= bytes.len(),
    ensures
        i <= spec_tag_end(bytes, i) <= bytes.len(),
        i < bytes.len() ==> i < spec_tag_end(bytes, i),
    decreases bytes.len() - i,
{
    if i < bytes.len() && bytes[i] & 0x80 != 0 {
        lemma_tag_end_bounds(bytes, i + 1);
    }
}

/// Why a BER length could not be read.
pub enum SpecLenError {
    /// Data ended inside the length field.
    TooShort,
    /// The introducing byte is not a supported BER form.
    BadByte(u8),
}

/// BER length at the head of `bytes`: the value and the bytes consumed.
pub open spec fn spec_parse_length(bytes: Seq<u8>) -> Result<(int, int), SpecLenError> {
    if bytes.len() == 0 {
        Err(SpecLenError::TooShort)
    } else if bytes[0] <= 0x7F {
        Ok((bytes[0] as int, 1))
    } else if bytes[0] == 0x81 {
        if bytes.len() < 2 {
            Err(SpecLenError::TooShort)
        } else {
            Ok((bytes[1] as int, 2))
        }
    } else if bytes[0] == 0x82 {
        if bytes.len() < 3 {
            Err(SpecLenError::TooShort)
        } else {
            Ok((256 * bytes[1] + bytes[2], 3))
        }
    } else if bytes[0] == 0x83 {
        if bytes.len() < 4 {
            Err(SpecLenError::TooShort)
        } else {
            Ok((65536 * bytes[1] + 256 * bytes[2] + bytes[3], 4))
        }
    } else {
        Err(SpecLenError::BadByte(bytes[0]))
    }
}

/// The element stream denoted by `bytes`.  A trailing lone tag is
/// dropped; a declared length past the end salvages the remaining bytes
/// as a final truncated element; a bad length field fails the stream.
pub open spec fn spec_parse_tlvs(bytes: Seq<u8>) -> Result<Seq<TlvModel>, SpecLenError>
    decreases bytes.len(),
    via spec_parse_tlvs_dec
{
    if bytes.len() == 0 {
        Ok(Seq::empty())
    } else {
        let tc = spec_tag_len(bytes);
        if tc >= bytes.len() {
            Ok(Seq::empty())
        } else {
            let tag = bytes_to_hex(bytes.take(tc));
            match spec_parse_length(bytes.skip(tc)) {
                Err(e) => Err(e),
                Ok((l, lc)) => {
                    let vs = tc + lc;
                    if vs + l > bytes.len() {
                        Ok(
                            seq![
                                TlvModel {
                                    tag,
                                    length: bytes.len() - vs,
                                    value: bytes.skip(vs),
                                },
                            ],
                        )
                    } else {
                        match spec_parse_tlvs(bytes.skip(vs + l)) {
                            Err(e) => Err(e),
                            Ok(rest) => Ok(
                                seq![
                                    TlvModel { tag, length: l, value: bytes.subrange(vs, vs + l) },
                                ] + rest,
                            ),
                        }
                    }
                },
            }
        }
    }
}

#[via_fn]
proof fn spec_parse_tlvs_dec(bytes: Seq<u8>) {
    if bytes.len() > 0 {
        if bytes[0] & 0x1F == 0x1F {
            lemma_tag_end_bounds(bytes, 1);
        }
    }
}

/// TLV parser over hex text or raw bytes.
pub struct TlvParser;

impl TlvParser {
    /// Convert carrier hex text (whitespace ignored) to bytes.
    pub fn hex_to_bytes(hex: &str) -> (r: Result<Vec<u8>, TlvParseError>)
        ensures
            r is Ok <==> valid_hex(strip_ws(hex@)),
            r is Ok ==> r->Ok_0@ == hex_parse(strip_ws(hex@)),
            r is Err && strip_ws(hex@).len() % 2 != 0 ==> r->Err_0 == TlvParseError::InvalidHexLength,
    {
        let cleaned = remove_ws(hex);
        match hex_chars_to_bytes(&cleaned) {
            Ok(b) => Ok(b),
            Err(crate::hexutil::HexError::OddLength) => Err(TlvParseError::InvalidHexLength),
            Err(crate::hexutil::HexError::BadDigit) => Err(
                TlvParseError::InvalidHexChar("non-hex character".to_owned()),
            ),
        }
    }

    /// Read the tag at the head of `bytes`: its upper-case hex text and
    /// the bytes consumed.
    fn parse_tag(bytes: &[u8]) -> (r: Result<(String, usize), TlvParseError>)
        ensures
            r is Ok <==> bytes@.len() > 0,
            r is Ok ==> {
                let tc = spec_tag_len(bytes@);
                r->Ok_0.0@ == bytes_to_hex(bytes@.take(tc)) && r->Ok_0.1 == tc
            },
            r is Err ==> r->Err_0 == TlvParseError::UnexpectedEndOfData,
    {
        if bytes.len() == 0 {
            return Err(TlvParseError::UnexpectedEndOfData);
        }
        let first = bytes[0];
        if first & 0x1F == 0x1F {
            let mut i: usize = 1;
            while i < bytes.len() && bytes[i] & 0x80 != 0
                invariant
                    bytes@.len() > 0,
                    bytes@[0] & 0x1F == 0x1F,
                    1 <= i <= bytes@.len(),
                    spec_tag_end(bytes@, 1) == spec_tag_end(bytes@, i as int),
                decreases bytes@.len() - i,
            {
                i = i + 1;
            }
            let tc = if i < bytes.len() {
                i + 1
            } else {
                i
            };
            proof {
                assert(spec_tag_end(bytes@, i as int) == tc);
            }
            Ok((crate::hexutil::bytes_to_hex_upper(&bytes[0..tc]), tc))
        } else {
            proof {
                assert(bytes@.take(1) =~= seq![bytes@[0]]);
            }
            Ok((crate::hexutil::bytes_to_hex_upper(&bytes[0..1]), 1))
        }
    }

    /// Read a BER length at the head of `bytes`: the value and the bytes
    /// consumed.
    fn parse_length(bytes: &[u8]) -> (r: Result<(usize, usize), TlvParseError>)
        ensures
            match spec_parse_length(bytes@) {
                Ok((l, c)) => r is Ok && r->Ok_0.0 == l && r->Ok_0.1 == c,
                Err(SpecLenError::TooShort) => r == Err::<(usize, usize), TlvParseError>(
                    TlvParseError::UnexpectedEndOfData,
                ),
                Err(SpecLenError::BadByte(b)) => r == Err::<(usize, usize), TlvParseError>(
                    TlvParseError::InvalidLengthEncoding(b),
                ),
            },
    {
        if bytes.len() == 0 {
            return Err(TlvParseError::UnexpectedEndOfData);
        }
        let first = bytes[0];
        if first <= 0x7F {
            Ok((first as usize, 1))
        } else if first == 0x81 {
            if bytes.len() < 2 {
                return Err(TlvParseError::UnexpectedEndOfData);
            }
            Ok((bytes[1] as usize, 2))
        } else if first == 0x82 {
            if bytes.len() < 3 {
                return Err(TlvParseError::UnexpectedEndOfData);
            }
            Ok((256 * (bytes[1] as usize) + (bytes[2] as usize), 3))
        } else if first == 0x83 {
            if bytes.len() < 4 {
                return Err(TlvParseError::UnexpectedEndOfData);
            }
            Ok((65536 * (bytes[1] as usize) + 256 * (bytes[2] as usize) + (bytes[3] as usize), 4))
        } else {
            Err(TlvParseError::InvalidLengthEncoding(first))
        }
    }

    /// Parse a byte stream into its ordered elements.
    pub fn parse_bytes_to_vec(bytes: &[u8]) -> (r: Result<Vec<TlvElement>, TlvParseError>)
        ensures
            match spec_parse_tlvs(bytes@) {
                Ok(models) => r is Ok && r->Ok_0@.len() == models.len() && (forall|i: int|
                    0 <= i < models.len() ==> #[trigger] r->Ok_0@[i]@ == models[i]),
                Err(SpecLenError::TooShort) => r == Err::<Vec<TlvElement>, TlvParseError>(
                    TlvParseError::UnexpectedEndOfData,
                ),
                Err(SpecLenError::BadByte(b)) => r == Err::<Vec<TlvElement>, TlvParseError>(
                    TlvParseError::InvalidLengthEncoding(b),
                ),
            },
    {
        let ghost full = bytes@;
        let mut elements: Vec<TlvElement> = Vec::new();
        let mut pos: usize = 0;
        proof {
            assert(bytes@.skip(0) =~= bytes@);
        }
        while pos < bytes.len()
            invariant
                pos <= bytes@.len(),
                spec_parse_tlvs(bytes@) matches Ok(whole) ==> (spec_parse_tlvs(
                    bytes@.skip(pos as int),
                ) matches Ok(rest) && whole.len() == elements@.len() + rest.len() && (forall|
                    i: int,
                |
                    0 <= i < whole.len() ==> #[trigger] whole[i] == if i < elements@.len() {
                        elements@[i]@
                    } else {
                        rest[i - elements@.len()]
                    })),
                spec_parse_tlvs(bytes@) matches Err(e) ==> spec_parse_tlvs(bytes@.skip(pos as int))
                    == Err::<Seq<TlvModel>, SpecLenError>(e),
            decreases bytes@.len() - pos,
        {
            let ghost suffix = bytes@.skip(pos as int);
            let tail = &bytes[pos..bytes.len()];
            proof {
                assert(tail@ =~= suffix);
            }
            let (tag, tc) = match Self::parse_tag(tail) {
                Ok(t) => t,
                Err(_) => {
                    proof {
                        assert(false);
                    }
                    return Err(TlvParseError::UnexpectedEndOfData);
                },
            };
            proof {
                if suffix[0] & 0x1F == 0x1F {
                    lemma_tag_end_bounds(suffix, 1);
                }
                assert(1 <= tc <= suffix.len());
            }
            if tc >= bytes.len() - pos {
                proof {
                    assert(spec_parse_tlvs(suffix) == Ok::<Seq<TlvModel>, SpecLenError>(
                        Seq::empty(),
                    ));
                }
                return Ok(elements);
            }
            let after_tag = &bytes[pos + tc..bytes.len()];
            proof {
                assert(after_tag@ =~= suffix.skip(tc as int));
            }
            let (length, lc) = match Self::parse_length(after_tag) {
                Ok(p) => p,
                Err(e) => {
                    return Err(e);
                },
            };
            let vs = pos + tc + lc;
            if length > bytes.len() - vs {
                let avail = bytes.len() - vs;
                let value_slice = &bytes[vs..bytes.len()];
                let elem = TlvElement {
                    tag,
                    length: avail,
                    value: vstd::slice::slice_to_vec(value_slice),
                };
                proof {
                    assert(value_slice@ =~= suffix.skip((tc + lc) as int));
                }
                elements.push(elem);
                proof {
                    let salvaged = spec_parse_tlvs(suffix)->Ok_0;
                    assert(salvaged.len() == 1);
                }
                return Ok(elements);
            }
            let value_slice = &bytes[vs..vs + length];
            let elem = TlvElement {
                tag,
                length,
                value: vstd::slice::slice_to_vec(value_slice),
            };
            proof {
                assert(value_slice@ =~= suffix.subrange((tc + lc) as int, (tc + lc) as int
                    + length));
            }
            let ghost elems_old = elements@;
            elements.push(elem);
            proof {
                assert(bytes@.skip((vs + length) as int) =~= suffix.skip(
                    (tc + lc + length) as int,
                ));
            }
            pos = vs + length;
        }
        proof {
            assert(bytes@.skip(bytes@.len() as int) =~= Seq::<u8>::empty());
        }
        Ok(elements)
    }

    /// Parse carrier hex text into its ordered elements.
    pub fn parse_to_vec(hex_string: &str) -> (r: Result<Vec<TlvElement>, TlvParseError>)
        ensures
            valid_hex(strip_ws(hex_string@)) ==> (match spec_parse_tlvs(
                hex_parse(strip_ws(hex_string@)),
            ) {
                Ok(models) => r is Ok && r->Ok_0@.len() == models.len() && (forall|i: int|
                    0 <= i < models.len() ==> #[trigger] r->Ok_0@[i]@ == models[i]),
                Err(_) => r is Err,
            }),
            !valid_hex(strip_ws(hex_string@)) ==> r is Err,
    {
        let bytes = match Self::hex_to_bytes(hex_string) {
            Ok(b) => b,
            Err(e) => {
                return Err(e);
            },
        };
        Self::parse_bytes_to_vec(bytes.as_slice())
    }
}


/// Human-readable description of a known EMV tag.
pub open spec fn spec_tag_description(t: Seq<char>) -> Seq<char> {
    if t == "4F"@ {
        "Application Identifier (AID)"@
    } else if t == "50"@ {
        "Application Label"@
    } else if t == "57"@ {
        "Track 2 Equivalent Data"@
    } else if t == "5A"@ {
        "Application Primary Account Number (PAN)"@
    } else if t == "5F20"@ {
        "Cardholder Name"@
    } else if t == "5F24"@ {
        "Application Expiration Date"@
    } else if t == "5F25"@ {
        "Application Effective Date"@
    } else if t == "5F28"@ {
        "Issuer Country Code"@
    } else if t == "5F2A"@ {
        "Transaction Currency Code"@
    } else if t == "5F2D"@ {
        "Language Preference"@
    } else if t == "5F30"@ {
        "Service Code"@
    } else if t == "5F34"@ {
        "PAN Sequence Number"@
    } else if t == "82"@ {
        "Application Interchange Profile (AIP)"@
    } else if t == "84"@ {
        "Dedicated File (DF) Name"@
    } else if t == "8C"@ {
        "Card Risk Management Data Object List 1 (CDOL1)"@
    } else if t == "8D"@ {
        "Card Risk Management Data Object List 2 (CDOL2)"@
    } else if t == "8E"@ {
        "Cardholder Verification Method (CVM) List"@
    } else if t == "94"@ {
        "Application File Locator (AFL)"@
    } else if t == "95"@ {
        "Terminal Verification Results (TVR)"@
    } else if t == "9A"@ {
        "Transaction Date"@
    } else if t == "9C"@ {
        "Transaction Type"@
    } else if t == "9F02"@ {
        "Amount, Authorized (Numeric)"@
    } else if t == "9F03"@ {
        "Amount, Other (Numeric)"@
    } else if t == "9F06"@ {
        "Application Identifier (AID) - Terminal"@
    } else if t == "9F07"@ {
        "Application Usage Control"@
    } else if t == "9F09"@ {
        "Application Version Number"@
    } else if t == "9F10"@ {
        "Issuer Application Data (IAD)"@
    } else if t == "9F11"@ {
        "Issuer Code Table Index"@
    } else if t == "9F12"@ {
        "Application Preferred Name"@
    } else if t == "9F1A"@ {
        "Terminal Country Code"@
    } else if t == "9F1E"@ {
        "Interface Device (IFD) Serial Number"@
    } else if t == "9F21"@ {
        "Transaction Time"@
    } else if t == "9F26"@ {
        "Application Cryptogram (AC)"@
    } else if t == "9F27"@ {
        "Cryptogram Information Data (CID)"@
    } else if t == "9F33"@ {
        "Terminal Capabilities"@
    } else if t == "9F34"@ {
        "Cardholder Verification Method (CVM) Results"@
    } else if t == "9F35"@ {
        "Terminal Type"@
    } else if t == "9F36"@ {
        "Application Transaction Counter (ATC)"@
    } else if t == "9F37"@ {
        "Unpredictable Number"@
    } else if t == "9F38"@ {
        "Processing Options Data Object List (PDOL)"@
    } else if t == "9F39"@ {
        "Point-of-Service (POS) Entry Mode"@
    } else if t == "9F40"@ {
        "Additional Terminal Capabilities"@
    } else if t == "9F41"@ {
        "Transaction Sequence Counter"@
    } else if t == "9F42"@ {
        "Application Currency Code"@
    } else if t == "9F53"@ {
        "Transaction Category Code"@
    } else if t == "9F66"@ {
        "Terminal Transaction Qualifiers (TTQ)"@
    } else if t == "DF8101"@ {
        "Online Response Data"@
    } else {
        "Unknown Tag"@
    }
}

/// Descriptions of the EMV tags this engine knows.
pub struct EmvTags;

impl EmvTags {
    /// Description text for a tag, or "Unknown Tag".
    pub fn get_description(tag: &str) -> (r: &'static str)
        ensures
            r@ == spec_tag_description(tag@),
    {
        if crate::strutil::str_eq(tag, "4F") {
            "Application Identifier (AID)"
        } else if crate::strutil::str_eq(tag, "50") {
            "Application Label"
        } else if crate::strutil::str_eq(tag, "57") {
            "Track 2 Equivalent Data"
        } else if crate::strutil::str_eq(tag, "5A") {
            "Application Primary Account Number (PAN)"
        } else if crate::strutil::str_eq(tag, "5F20") {
            "Cardholder Name"
        } else if crate::strutil::str_eq(tag, "5F24") {
            "Application Expiration Date"
        } else if crate::strutil::str_eq(tag, "5F25") {
            "Application Effective Date"
        } else if crate::strutil::str_eq(tag, "5F28") {
            "Issuer Country Code"
        } else if crate::strutil::str_eq(tag, "5F2A") {
            "Transaction Currency Code"
        } else if crate::strutil::str_eq(tag, "5F2D") {
            "Language Preference"
        } else if crate::strutil::str_eq(tag, "5F30") {
            "Service Code"
        } else if crate::strutil::str_eq(tag, "5F34") {
            "PAN Sequence Number"
        } else if crate::strutil::str_eq(tag, "82") {
            "Application Interchange Profile (AIP)"
        } else if crate::strutil::str_eq(tag, "84") {
            "Dedicated File (DF) Name"
        } else if crate::strutil::str_eq(tag, "8C") {
            "Card Risk Management Data Object List 1 (CDOL1)"
        } else if crate::strutil::str_eq(tag, "8D") {
            "Card Risk Management Data Object List 2 (CDOL2)"
        } else if crate::strutil::str_eq(tag, "8E") {
            "Cardholder Verification Method (CVM) List"
        } else if crate::strutil::str_eq(tag, "94") {
            "Application File Locator (AFL)"
        } else if crate::strutil::str_eq(tag, "95") {
            "Terminal Verification Results (TVR)"
        } else if crate::strutil::str_eq(tag, "9A") {
            "Transaction Date"
        } else if crate::strutil::str_eq(tag, "9C") {
            "Transaction Type"
        } else if crate::strutil::str_eq(tag, "9F02") {
            "Amount, Authorized (Numeric)"
        } else if crate::strutil::str_eq(tag, "9F03") {
            "Amount, Other (Numeric)"
        } else if crate::strutil::str_eq(tag, "9F06") {
            "Application Identifier (AID) - Terminal"
        } else if crate::strutil::str_eq(tag, "9F07") {
            "Application Usage Control"
        } else if crate::strutil::str_eq(tag, "9F09") {
            "Application Version Number"
        } else if crate::strutil::str_eq(tag, "9F10") {
            "Issuer Application Data (IAD)"
        } else if crate::strutil::str_eq(tag, "9F11") {
            "Issuer Code Table Index"
        } else if crate::strutil::str_eq(tag, "9F12") {
            "Application Preferred Name"
        } else if crate::strutil::str_eq(tag, "9F1A") {
            "Terminal Country Code"
        } else if crate::strutil::str_eq(tag, "9F1E") {
            "Interface Device (IFD) Serial Number"
        } else if crate::strutil::str_eq(tag, "9F21") {
            "Transaction Time"
        } else if crate::strutil::str_eq(tag, "9F26") {
            "Application Cryptogram (AC)"
        } else if crate::strutil::str_eq(tag, "9F27") {
            "Cryptogram Information Data (CID)"
        } else if crate::strutil::str_eq(tag, "9F33") {
            "Terminal Capabilities"
        } else if crate::strutil::str_eq(tag, "9F34") {
            "Cardholder Verification Method (CVM) Results"
        } else if crate::strutil::str_eq(tag, "9F35") {
            "Terminal Type"
        } else if crate::strutil::str_eq(tag, "9F36") {
            "Application Transaction Counter (ATC)"
        } else if crate::strutil::str_eq(tag, "9F37") {
            "Unpredictable Number"
        } else if crate::strutil::str_eq(tag, "9F38") {
            "Processing Options Data Object List (PDOL)"
        } else if crate::strutil::str_eq(tag, "9F39") {
            "Point-of-Service (POS) Entry Mode"
        } else if crate::strutil::str_eq(tag, "9F40") {
            "Additional Terminal Capabilities"
        } else if crate::strutil::str_eq(tag, "9F41") {
            "Transaction Sequence Counter"
        } else if crate::strutil::str_eq(tag, "9F42") {
            "Application Currency Code"
        } else if crate::strutil::str_eq(tag, "9F53") {
            "Transaction Category Code"
        } else if crate::strutil::str_eq(tag, "9F66") {
            "Terminal Transaction Qualifiers (TTQ)"
        } else if crate::strutil::str_eq(tag, "DF8101") {
            "Online Response Data"
        } else {
            "Unknown Tag"
        }
    }
}

impl TlvElement {
    /// The value as upper-case hex text.
    pub fn value_hex(&self) -> (r: String)
        ensures
            r@ == bytes_to_hex(self@.value),
    {
        crate::hexutil::bytes_to_hex_upper(self.value.as_slice())
    }

    /// The value as text, when every byte is printable ASCII.
    pub fn value_ascii(&self) -> (r: Option<String>)
        ensures
            all_printable(self@.value) <==> r is Some,
            r is Some ==> r->0@ == crate::strutil::ascii_chars(self@.value),
    {
        let mut i: usize = 0;
        while i < self.value.len()
            invariant
                i <= self.value@.len(),
                forall|j: int| 0 <= j < i ==> 0x20 <= #[trigger] self.value@[j] <= 0x7E,
            decreases self.value@.len() - i,
        {
            let b = self.value[i];
            if b < 0x20 || b > 0x7E {
                return None;
            }
            i = i + 1;
        }
        Some(crate::strutil::string_from_ascii(&self.value))
    }

    /// The value read as packed decimal digits, rendered as hex text.
    pub fn value_bcd(&self) -> (r: String)
        ensures
            r@ == bytes_to_hex(self@.value),
    {
        crate::hexutil::bytes_to_hex_upper(self.value.as_slice())
    }
}

/// Bytes that are all printable ASCII.
pub open spec fn all_printable(bs: Seq<u8>) -> bool {
    forall|i: int| 0 <= i < bs.len() ==> 0x20 <= #[trigger] bs[i] <= 0x7E
}

/// The element a keyed lookup finds for a tag: the last occurrence, as a
/// map insert for each element in order would leave it.
pub open spec fn spec_lookup(s: Seq<TlvModel>, t: Seq<char>) -> Option<TlvModel>
    decreases s.len(),
{
    if s.len() == 0 {
        None
    } else if s.last().tag == t {
        Some(s.last())
    } else {
        spec_lookup(s.drop_last(), t)
    }
}

impl TlvParser {
    /// Parse carrier hex text into a tag-keyed element table: one element
    /// per tag, the last occurrence winning, as the stream order would
    /// fill a map.
    pub fn parse(hex_string: &str) -> (r: Result<Vec<TlvElement>, TlvParseError>)
        ensures
            valid_hex(strip_ws(hex_string@)) ==> (match spec_parse_tlvs(
                hex_parse(strip_ws(hex_string@)),
            ) {
                Ok(models) => {
                    &&& r is Ok
                    &&& (forall|a: int, b: int|
                        0 <= a < b < r->Ok_0@.len() ==> r->Ok_0@[a]@.tag != r->Ok_0@[b]@.tag)
                    &&& (forall|a: int|
                        0 <= a < r->Ok_0@.len() ==> spec_lookup(models, #[trigger] r->Ok_0@[a]@.tag)
                            == Some(r->Ok_0@[a]@))
                    &&& (forall|k: int|
                        0 <= k < models.len() ==> exists|a: int|
                            0 <= a < r->Ok_0@.len() && r->Ok_0@[a]@.tag == #[trigger] models[k].tag)
                },
                Err(_) => r is Err,
            }),
            !valid_hex(strip_ws(hex_string@)) ==> r is Err,
    {
        let ordered = match Self::parse_to_vec(hex_string) {
            Ok(v) => v,
            Err(e) => {
                return Err(e);
            },
        };
        let deduped = Self::dedup_by_tag(&ordered);
        proof {
            if valid_hex(strip_ws(hex_string@)) {
                if let Ok(models) = spec_parse_tlvs(hex_parse(strip_ws(hex_string@))) {
                    assert(models_of(ordered@) =~= models);
                }
            }
        }
        Ok(deduped)
    }

    /// Keep the last element of each tag, in first-seen tag order.
    fn dedup_by_tag(ordered: &Vec<TlvElement>) -> (r: Vec<TlvElement>)
        ensures
            forall|a: int, b: int| 0 <= a < b < r@.len() ==> r@[a]@.tag != r@[b]@.tag,
            forall|a: int|
                0 <= a < r@.len() ==> spec_lookup(models_of(ordered@), #[trigger] r@[a]@.tag)
                    == Some(r@[a]@),
            forall|k: int|
                0 <= k < ordered@.len() ==> exists|a: int|
                    0 <= a < r@.len() && r@[a]@.tag == #[trigger] ordered@[k]@.tag,
    {
        let ghost models = models_of(ordered@);
        let mut r: Vec<TlvElement> = Vec::new();
        let mut i: usize = 0;
        while i < ordered.len()
            invariant
                models == models_of(ordered@),
                i <= ordered@.len(),
                forall|a: int, b: int| 0 <= a < b < r@.len() ==> r@[a]@.tag != r@[b]@.tag,
                forall|a: int|
                    0 <= a < r@.len() ==> spec_lookup(models.take(i as int), #[trigger] r@[a]@.tag)
                        == Some(r@[a]@),
                forall|k: int|
                    0 <= k < i ==> exists|a: int|
                        0 <= a < r@.len() && r@[a]@.tag == #[trigger] ordered@[k]@.tag,
            decreases ordered@.len() - i,
        {
            let e = &ordered[i];
            proof {
                assert(models.take(i + 1).drop_last() =~= models.take(i as int));
                assert(models.take(i + 1).last() == ordered@[i as int]@);
            }
            let mut j: usize = 0;
            let mut found = false;
            while j < r.len() && !found
                invariant
                    j <= r@.len(),
                    !found ==> forall|a: int| 0 <= a < j ==> r@[a]@.tag != e@.tag,
                    found ==> j < r@.len() && r@[j as int]@.tag == e@.tag,
                decreases r@.len() - j + (if found { 0int } else { 1 }),
            {
                if crate::strutil::str_eq(r[j].tag.as_str(), e.tag.as_str()) {
                    found = true;
                } else {
                    j = j + 1;
                }
            }
            let ghost r_old = r@;
            if found {
                r.set(j, e.clone_elem());
                proof {
                    assert forall|a: int|
                        0 <= a < r@.len() implies spec_lookup(
                        models.take(i + 1),
                        #[trigger] r@[a]@.tag,
                    ) == Some(r@[a]@) by {
                        if a == j {
                            assert(r@[a]@.tag == e@.tag);
                        } else {
                            assert(r@[a]@ == r_old[a]@);
                            assert(r_old[a]@.tag != e@.tag);
                        }
                    }
                    assert forall|k: int|
                        0 <= k < i + 1 implies exists|a: int|
                        0 <= a < r@.len() && r@[a]@.tag == #[trigger] ordered@[k]@.tag by {
                        if k == i {
                            assert(r@[j as int]@.tag == ordered@[i as int]@.tag);
                        } else {
                            let a0 = choose|a0: int|
                                0 <= a0 < r_old.len() && r_old[a0]@.tag == ordered@[k]@.tag;
                            assert(r@[a0]@.tag == ordered@[k]@.tag);
                        }
                    }
                }
            } else {
                r.push(e.clone_elem());
                proof {
                    assert forall|a: int|
                        0 <= a < r@.len() implies spec_lookup(
                        models.take(i + 1),
                        #[trigger] r@[a]@.tag,
                    ) == Some(r@[a]@) by {
                        if a == r@.len() - 1 {
                            assert(r@[a]@.tag == e@.tag);
                        } else {
                            assert(r@[a]@ == r_old[a]@);
                            assert(r_old[a]@.tag != e@.tag);
                        }
                    }
                    assert forall|k: int|
                        0 <= k < i + 1 implies exists|a: int|
                        0 <= a < r@.len() && r@[a]@.tag == #[trigger] ordered@[k]@.tag by {
                        if k == i {
                            assert(r@[r@.len() - 1]@.tag == ordered@[i as int]@.tag);
                        } else {
                            let a0 = choose|a0: int|
                                0 <= a0 < r_old.len() && r_old[a0]@.tag == ordered@[k]@.tag;
                            assert(r@[a0]@.tag == ordered@[k]@.tag);
                        }
                    }
                }
            }
            i = i + 1;
        }
        proof {
            assert(models.take(ordered@.len() as int) =~= models);
        }
        r
    }
}

impl TlvElement {
    /// A deep copy of this element.
    pub fn clone_elem(&self) -> (r: TlvElement)
        ensures
            r@ == self@,
    {
        TlvElement {
            tag: self.tag.clone(),
            length: self.length,
            value: vstd::slice::slice_to_vec(self.value.as_slice()),
        }
    }
}

/// The spec-level elements of a parsed vector.
pub open spec fn models_of(s: Seq<TlvElement>) -> Seq<TlvModel> {
    s.map(|i: int, e: TlvElement| e@)
}

/// Parsed EMV chip data: the ordered elements of one decode pass, and a
/// tag-keyed table where the last occurrence of a tag wins.
#[derive(Debug, Clone)]
pub struct ParsedEmvData {
    /// One element per distinct tag, last occurrence winning.
    pub elements: Vec<TlvElement>,
    /// Every element, in stream order.
    pub ordered_elements: Vec<TlvElement>,
}

impl ParsedEmvData {
    /// The spec-level elements in stream order.
    pub open spec fn models(&self) -> Seq<TlvModel> {
        models_of(self.ordered_elements@)
    }

    /// Parse the hex content of data element 55.
    pub fn from_de55(hex_string: &str) -> (r: Result<ParsedEmvData, TlvParseError>)
        ensures
            valid_hex(strip_ws(hex_string@)) ==> (match spec_parse_tlvs(
                hex_parse(strip_ws(hex_string@)),
            ) {
                Ok(ms) => r is Ok && r->Ok_0.models() == ms,
                Err(_) => r is Err,
            }),
            !valid_hex(strip_ws(hex_string@)) ==> r is Err,
    {
        let ordered_elements = match TlvParser::parse_to_vec(hex_string) {
            Ok(v) => v,
            Err(e) => {
                return Err(e);
            },
        };
        let elements = TlvParser::dedup_by_tag(&ordered_elements);
        let r = ParsedEmvData { elements, ordered_elements };
        proof {
            if valid_hex(strip_ws(hex_string@)) {
                if let Ok(ms) = spec_parse_tlvs(hex_parse(strip_ws(hex_string@))) {
                    assert(r.models() =~= ms);
                }
            }
        }
        Ok(r)
    }

    /// The element a tag denotes, if present: its last occurrence.
    pub fn get(&self, tag: &str) -> (r: Option<&TlvElement>)
        ensures
            match spec_lookup(self.models(), tag@) {
                None => r is None,
                Some(m) => r is Some && r->0@ == m,
            },
    {
        let ghost ms = self.models();
        let n = self.ordered_elements.len();
        let mut back: usize = 0;
        proof {
            assert(ms.take(n as int) =~= ms);
        }
        while back < n
            invariant
                ms == self.models(),
                n == self.ordered_elements@.len(),
                back <= n,
                spec_lookup(ms, tag@) == spec_lookup(ms.take((n - back) as int), tag@),
            decreases n - back,
        {
            let i = n - 1 - back;
            let e = &self.ordered_elements[i];
            proof {
                assert(ms.take((i + 1) as int).last() == e@);
                assert(ms.take((i + 1) as int).drop_last() =~= ms.take(i as int));
            }
            if crate::strutil::str_eq(e.tag.as_str(), tag) {
                return Some(e);
            }
            back = back + 1;
        }
        proof {
            assert(ms.take(0) =~= Seq::<TlvModel>::empty());
        }
        None
    }

    /// PAN, tag 5A, as packed digits rendered hex.
    pub fn get_pan(&self) -> (r: Option<String>)
        ensures
            hex_of_lookup(self.models(), "5A"@, r),
    {
        match self.get("5A") {
            Some(e) => Some(e.value_bcd()),
            None => None,
        }
    }

    /// Any tag's value as hex text.
    pub fn get_value(&self, tag: &str) -> (r: Option<String>)
        ensures
            hex_of_lookup(self.models(), tag@, r),
    {
        match self.get(tag) {
            Some(e) => Some(e.value_hex()),
            None => None,
        }
    }

    /// Cardholder name, tag 5F20, when printable.
    pub fn get_cardholder_name(&self) -> (r: Option<String>)
        ensures
            ascii_of_lookup(self.models(), "5F20"@, r),
    {
        match self.get("5F20") {
            Some(e) => e.value_ascii(),
            None => None,
        }
    }

    /// Expiry date, tag 5F24 (YYMMDD digits).
    pub fn get_expiry_date(&self) -> (r: Option<String>)
        ensures
            hex_of_lookup(self.models(), "5F24"@, r),
    {
        match self.get("5F24") {
            Some(e) => Some(e.value_bcd()),
            None => None,
        }
    }

    /// Application identifier, tag 4F.
    pub fn get_aid(&self) -> (r: Option<String>)
        ensures
            hex_of_lookup(self.models(), "4F"@, r),
    {
        match self.get("4F") {
            Some(e) => Some(e.value_hex()),
            None => None,
        }
    }

    /// Amount authorized, tag 9F02.
    pub fn get_amount(&self) -> (r: Option<String>)
        ensures
            hex_of_lookup(self.models(), "9F02"@, r),
    {
        match self.get("9F02") {
            Some(e) => Some(e.value_bcd()),
            None => None,
        }
    }

    /// Transaction date, tag 9A (YYMMDD digits).
    pub fn get_transaction_date(&self) -> (r: Option<String>)
        ensures
            hex_of_lookup(self.models(), "9A"@, r),
    {
        match self.get("9A") {
            Some(e) => Some(e.value_bcd()),
            None => None,
        }
    }

    /// Transaction time, tag 9F21 (HHMMSS digits).
    pub fn get_transaction_time(&self) -> (r: Option<String>)
        ensures
            hex_of_lookup(self.models(), "9F21"@, r),
    {
        match self.get("9F21") {
            Some(e) => Some(e.value_bcd()),
            None => None,
        }
    }

    /// Transaction type, tag 9C: the first value byte.
    pub fn get_transaction_type(&self) -> (r: Option<u8>)
        ensures
            match spec_lookup(self.models(), "9C"@) {
                None => r is None,
                Some(m) => {
                    if m.value.len() > 0 {
                        r == Some(m.value[0])
                    } else {
                        r is None
                    }
                },
            },
    {
        match self.get("9C") {
            Some(e) => {
                if e.value.len() > 0 {
                    Some(e.value[0])
                } else {
                    None
                }
            },
            None => None,
        }
    }

    /// Currency code, tag 5F2A.
    pub fn get_currency_code(&self) -> (r: Option<String>)
        ensures
            hex_of_lookup(self.models(), "5F2A"@, r),
    {
        match self.get("5F2A") {
            Some(e) => Some(e.value_bcd()),
            None => None,
        }
    }

    /// Application transaction counter, tag 9F36.
    pub fn get_atc(&self) -> (r: Option<String>)
        ensures
            hex_of_lookup(self.models(), "9F36"@, r),
    {
        match self.get("9F36") {
            Some(e) => Some(e.value_hex()),
            None => None,
        }
    }

    /// Issuer application data, tag 9F10.
    pub fn get_iad(&self) -> (r: Option<String>)
        ensures
            hex_of_lookup(self.models(), "9F10"@, r),
    {
        match self.get("9F10") {
            Some(e) => Some(e.value_hex()),
            None => None,
        }
    }

    /// Terminal identifier, tag 9F1E, when printable.
    pub fn get_terminal_id(&self) -> (r: Option<String>)
        ensures
            ascii_of_lookup(self.models(), "9F1E"@, r),
    {
        match self.get("9F1E") {
            Some(e) => e.value_ascii(),
            None => None,
        }
    }

    /// Any tag's value as hex text.
    pub fn get_tag_hex(&self, tag: &str) -> (r: Option<String>)
        ensures
            hex_of_lookup(self.models(), tag@, r),
    {
        match self.get(tag) {
            Some(e) => Some(e.value_hex()),
            None => None,
        }
    }

    /// Any tag's value as text, when printable.
    pub fn get_tag_ascii(&self, tag: &str) -> (r: Option<String>)
        ensures
            ascii_of_lookup(self.models(), tag@, r),
    {
        match self.get(tag) {
            Some(e) => e.value_ascii(),
            None => None,
        }
    }
}

/// The relation of a hex-rendering accessor to the keyed lookup.
pub open spec fn hex_of_lookup(ms: Seq<TlvModel>, tag: Seq<char>, r: Option<String>) -> bool {
    match spec_lookup(ms, tag) {
        None => r is None,
        Some(m) => r is Some && r->0@ == bytes_to_hex(m.value),
    }
}

/// The relation of a printable-text accessor to the keyed lookup.
pub open spec fn ascii_of_lookup(ms: Seq<TlvModel>, tag: Seq<char>, r: Option<String>) -> bool {
    match spec_lookup(ms, tag) {
        None => r is None,
        Some(m) => {
            if all_printable(m.value) {
                r is Some && r->0@ == crate::strutil::ascii_chars(m.value)
            } else {
                r is None
            }
        },
    }
}

/// Minimal BER encoding of a length.
pub open spec fn spec_len_encoding(l: int) -> Seq<u8> {
    if l <= 0x7F {
        seq![l as u8]
    } else if l <= 0xFF {
        seq![0x81u8, l as u8]
    } else if l <= 0xFFFF {
        seq![0x82u8, (l / 256) as u8, (l % 256) as u8]
    } else {
        seq![0x83u8, (l / 65536) as u8, ((l / 256) % 256) as u8, (l % 256) as u8]
    }
}

/// Wire bytes of one element: tag bytes, minimal length, value.
pub open spec fn spec_elem_bytes(e: TlvModel) -> Seq<u8> {
    hex_parse(e.tag) + spec_len_encoding(e.value.len() as int) + e.value
}

/// Wire bytes of an element sequence.
pub open spec fn spec_tlv_encode(elems: Seq<TlvModel>) -> Seq<u8>
    decreases elems.len(),
{
    if elems.len() == 0 {
        Seq::empty()
    } else {
        spec_elem_bytes(elems[0]) + spec_tlv_encode(elems.skip(1))
    }
}

/// A stream on which parsing loses nothing: every element is complete
/// (no trailing lone tag, no salvage) and every length uses the minimal
/// BER form, so that re-encoding the parsed elements reproduces the
/// bytes.
pub open spec fn wf_tlv_stream(bytes: Seq<u8>) -> bool
    decreases bytes.len(),
    via wf_tlv_stream_dec
{
    if bytes.len() == 0 {
        true
    } else {
        let tc = spec_tag_len(bytes);
        if tc >= bytes.len() {
            false
        } else {
            match spec_parse_length(bytes.skip(tc)) {
                Err(_) => false,
                Ok((l, lc)) => {
                    &&& lc == (if l <= 0x7F {
                        1int
                    } else if l <= 0xFF {
                        2
                    } else if l <= 0xFFFF {
                        3
                    } else {
                        4
                    })
                    &&& tc + lc + l <= bytes.len()
                    &&& wf_tlv_stream(bytes.skip(tc + lc + l))
                },
            }
        }
    }
}

#[via_fn]
proof fn wf_tlv_stream_dec(bytes: Seq<u8>) {
    if bytes.len() > 0 {
        if bytes[0] & 0x1F == 0x1F {
            lemma_tag_end_bounds(bytes, 1);
        }
    }
}

/// A minimally encoded BER length field re-encodes to its own bytes.
proof fn lemma_len_encoding_inverse(bytes: Seq<u8>, tc: int, l: int, lc: int)
    requires
        0 <= tc,
        spec_parse_length(bytes.skip(tc)) == Ok::<(int, int), SpecLenError>((l, lc)),
        lc == (if l <= 0x7F {
            1int
        } else if l <= 0xFF {
            2
        } else if l <= 0xFFFF {
            3
        } else {
            4
        }),
        tc + lc <= bytes.len(),
    ensures
        spec_len_encoding(l) =~= bytes.subrange(tc, tc + lc),
{
    let lb = spec_len_encoding(l);
    let lenfield = bytes.skip(tc);
    if l <= 0x7F {
        assert(lenfield[0] == l as u8);
        assert(lb =~= bytes.subrange(tc, tc + 1));
    } else if l <= 0xFF {
        assert(lenfield[0] == 0x81);
        assert(l == lenfield[1]);
        assert(lb =~= bytes.subrange(tc, tc + 2));
    } else if l <= 0xFFFF {
        assert(lenfield[0] == 0x82);
        let a = lenfield[1] as int;
        let b = lenfield[2] as int;
        assert(l == 256 * a + b);
        assert(l / 256 == a && l % 256 == b) by (nonlinear_arith)
            requires
                l == 256 * a + b,
                0 <= a < 256,
                0 <= b < 256,
        ;
        assert(lb =~= bytes.subrange(tc, tc + 3));
    } else {
        assert(lenfield[0] == 0x83);
        let a = lenfield[1] as int;
        let b = lenfield[2] as int;
        let c = lenfield[3] as int;
        assert(l == 65536 * a + 256 * b + c);
        assert(l / 65536 == a && (l / 256) % 256 == b && l % 256 == c) by (nonlinear_arith)
            requires
                l == 65536 * a + 256 * b + c,
                0 <= a < 256,
                0 <= b < 256,
                0 <= c < 256,
        ;
        assert(lb =~= bytes.subrange(tc, tc + 4));
    }
}

/// Re-encoding distributes over appending one element.
proof fn lemma_encode_snoc(s: Seq<TlvModel>, e: TlvModel)
    ensures
        spec_tlv_encode(s.push(e)) == spec_tlv_encode(s) + spec_elem_bytes(e),
    decreases s.len(),
{
    if s.len() == 0 {
        let p = s.push(e);
        assert(p[0] == e);
        assert(p.skip(1) =~= Seq::<TlvModel>::empty());
        assert(spec_tlv_encode(p) == spec_elem_bytes(e) + spec_tlv_encode(p.skip(1)));
        assert(spec_elem_bytes(e) + Seq::<u8>::empty() =~= spec_elem_bytes(e));
        assert(Seq::<u8>::empty() + spec_elem_bytes(e) =~= spec_elem_bytes(e));
        assert(spec_tlv_encode(s) == Seq::<u8>::empty());
    } else {
        assert(s.push(e).skip(1) =~= s.skip(1).push(e));
        lemma_encode_snoc(s.skip(1), e);
        assert(s.push(e)[0] == s[0]);
        assert(spec_tlv_encode(s.push(e)) =~= spec_tlv_encode(s) + spec_elem_bytes(e));
    }
}

/// The reconstruction law: on a stream whose elements are complete and
/// whose lengths are minimally encoded, parsing and re-encoding
/// tag + length + value reproduces the original bytes.
#[verifier::rlimit(60)]
pub proof fn lemma_tlv_round_trip(bytes: Seq<u8>)
    requires
        wf_tlv_stream(bytes),
    ensures
        spec_parse_tlvs(bytes) is Ok,
        spec_tlv_encode(spec_parse_tlvs(bytes)->Ok_0) == bytes,
    decreases bytes.len(),
{
    if bytes.len() == 0 {
        assert(spec_tlv_encode(Seq::empty()) =~= bytes);
    } else {
        let tc = spec_tag_len(bytes);
        if bytes[0] & 0x1F == 0x1F {
            lemma_tag_end_bounds(bytes, 1);
        }
        let (l, lc) = spec_parse_length(bytes.skip(tc))->Ok_0;
        let vs = tc + lc;
        lemma_tlv_round_trip(bytes.skip(vs + l));
        let m = TlvModel { tag: bytes_to_hex(bytes.take(tc)), length: l, value: bytes.subrange(vs, vs + l) };
        let rest = spec_parse_tlvs(bytes.skip(vs + l))->Ok_0;
        assert(spec_parse_tlvs(bytes)->Ok_0 == seq![m] + rest);
        assert((seq![m] + rest)[0] == m);
        assert((seq![m] + rest).skip(1) =~= rest);
        crate::hexutil::lemma_hex_round_trip(bytes.take(tc));
        assert(hex_parse(m.tag) == bytes.take(tc));
        assert(m.value.len() == l);
        lemma_len_encoding_inverse(bytes, tc, l, lc);
        let lb = spec_len_encoding(l);
        assert(spec_elem_bytes(m) == bytes.take(tc) + bytes.subrange(tc, vs) + bytes.subrange(
            vs,
            vs + l,
        ));
        assert(spec_tlv_encode(seq![m] + rest) == spec_elem_bytes(m) + spec_tlv_encode(rest));
        assert(spec_elem_bytes(m) + bytes.skip(vs + l) =~= bytes);
    }
}

impl TlvParser {
    /// Rebuild the wire bytes of parsed elements: tag bytes, minimal BER
    /// length, then the value, for each element in order.
    pub fn reconstruct(elements: &Vec<TlvElement>) -> (r: Result<Vec<u8>, TlvParseError>)
        ensures
            r is Ok <==> forall|i: int|
                0 <= i < elements@.len() ==> valid_hex(#[trigger] elements@[i]@.tag)
                    && elements@[i]@.value.len() <= 0xFFFFFF,
            r is Ok ==> r->Ok_0@ == spec_tlv_encode(models_of(elements@)),
    {
        let ghost ms = models_of(elements@);
        let mut out: Vec<u8> = Vec::new();
        let mut i: usize = 0;
        proof {
            assert(spec_tlv_encode(ms.take(0)) =~= Seq::<u8>::empty());
        }
        while i < elements.len()
            invariant
                ms == models_of(elements@),
                i <= elements@.len(),
                forall|k: int| 0 <= k < i ==> valid_hex(#[trigger] elements@[k]@.tag),
                forall|k: int|
                    0 <= k < i ==> #[trigger] elements@[k]@.value.len() <= 0xFFFFFF,
                out@ == spec_tlv_encode(ms.take(i as int)),
            decreases elements@.len() - i,
        {
            let e = &elements[i];
            let tag_chars = crate::strutil::str_to_chars(e.tag.as_str());
            let tag_bytes = match hex_chars_to_bytes(&tag_chars) {
                Ok(b) => b,
                Err(_) => {
                    proof {
                        assert(!valid_hex(elements@[i as int]@.tag));
                    }
                    return Err(TlvParseError::InvalidTag);
                },
            };
            let l = e.value.len();
            if l > 0xFFFFFF {
                proof {
                    assert(!(valid_hex(elements@[i as int]@.tag) && elements@[i as int]@.value.len()
                        <= 0xFFFFFF));
                }
                return Err(TlvParseError::InvalidLengthEncoding(0x84));
            }
            let ghost out_old = out@;
            out.extend_from_slice(tag_bytes.as_slice());
            if l <= 0x7F {
                out.push(l as u8);
            } else if l <= 0xFF {
                out.push(0x81);
                out.push(l as u8);
            } else if l <= 0xFFFF {
                out.push(0x82);
                out.push((l / 256) as u8);
                out.push((l % 256) as u8);
            } else {
                out.push(0x83);
                out.push((l / 65536) as u8);
                out.push(((l / 256) % 256) as u8);
                out.push((l % 256) as u8);
            }
            out.extend_from_slice(e.value.as_slice());
            proof {
                assert(valid_hex(elements@[i as int]@.tag));
                assert(elements@[i as int]@.value.len() <= 0xFFFFFF);
                assert(out@ =~= out_old + spec_elem_bytes(ms[i as int]));
                assert(ms.take(i + 1) =~= ms.take(i as int).push(ms[i as int]));
                lemma_encode_snoc(ms.take(i as int), ms[i as int]);
            }
            i = i + 1;
        }
        proof {
            assert(ms.take(elements@.len() as int) =~= ms);
        }
        Ok(out)
    }
}

} // verus!
