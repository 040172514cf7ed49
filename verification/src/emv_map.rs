//! The mapping between EMV tags and ISO8583 data elements: which element
//! carries each tag, and which tags belong inside data element 55.

use vstd::prelude::*;

verus! {

/// Wire encoding family of a mapped value.
#[derive(Debug, Clone, Copy, PartialEq, Eq, Structural)]
pub enum DataFormat {
    /// Raw bytes carried as hex.
    Binary,
    /// Packed decimal digits.
    Numeric,
    /// ASCII text.
    Alphanumeric,
    /// Two digits per byte.
    CompressedNumeric,
    /// Track 2 equivalent data.
    Track2,
}

/// One EMV tag's place in the ISO8583 message.
#[derive(Debug, Clone)]
pub struct EmvIsoMapping {
    pub emv_tag: &'static str,
    pub emv_name: &'static str,
    pub iso_de: u8,
    pub iso_subfield: Option<u8>,
    pub iso_de_name: &'static str,
    pub format: DataFormat,
    pub max_length: usize,
}

/// The mapped element, subfield, format and width of a tag.
pub open spec fn spec_emv_mapping(t: Seq<char>) -> Option<(int, Option<int>, DataFormat, int)> {
    if t == "5A"@ {
        Some((2int, None, DataFormat::Numeric, 19int))
    } else if t == "5F24"@ {
        Some((14int, None, DataFormat::Numeric, 4int))
    } else if t == "9F39"@ {
        Some((22int, None, DataFormat::Numeric, 3int))
    } else if t == "5F34"@ {
        Some((23int, None, DataFormat::Numeric, 3int))
    } else if t == "57"@ {
        Some((35int, None, DataFormat::Track2, 37int))
    } else if t == "9F1E"@ {
        Some((41int, None, DataFormat::Alphanumeric, 8int))
    } else if t == "5F2A"@ {
        Some((49int, None, DataFormat::Numeric, 3int))
    } else if t == "4F"@ {
        Some((55int, Some(1int), DataFormat::Binary, 16int))
    } else if t == "82"@ {
        Some((55int, Some(2int), DataFormat::Binary, 2int))
    } else if t == "9F36"@ {
        Some((55int, Some(3int), DataFormat::Binary, 2int))
    } else if t == "9F26"@ {
        Some((55int, Some(4int), DataFormat::Binary, 8int))
    } else if t == "9F27"@ {
        Some((55int, Some(5int), DataFormat::Binary, 1int))
    } else if t == "9F10"@ {
        Some((55int, Some(6int), DataFormat::Binary, 32int))
    } else if t == "95"@ {
        Some((55int, Some(7int), DataFormat::Binary, 5int))
    } else if t == "9A"@ {
        Some((55int, Some(8int), DataFormat::Numeric, 3int))
    } else if t == "9C"@ {
        Some((55int, Some(9int), DataFormat::Numeric, 1int))
    } else if t == "9F02"@ {
        Some((55int, Some(10int), DataFormat::Numeric, 6int))
    } else if t == "9F03"@ {
        Some((55int, Some(11int), DataFormat::Numeric, 6int))
    } else if t == "9F1A"@ {
        Some((55int, Some(12int), DataFormat::Numeric, 2int))
    } else if t == "9F37"@ {
        Some((55int, Some(13int), DataFormat::Binary, 4int))
    } else if t == "9F33"@ {
        Some((55int, Some(14int), DataFormat::Binary, 3int))
    } else if t == "9F34"@ {
        Some((55int, Some(15int), DataFormat::Binary, 3int))
    } else if t == "9F35"@ {
        Some((55int, Some(16int), DataFormat::Numeric, 1int))
    } else if t == "9F09"@ {
        Some((55int, Some(17int), DataFormat::Binary, 2int))
    } else if t == "84"@ {
        Some((55int, Some(18int), DataFormat::Binary, 16int))
    } else {
        None
    }
}

/// The mapping of an EMV tag, when the engine knows one.
pub fn get_iso_de_for_emv(emv_tag: &str) -> (r: Option<EmvIsoMapping>)
    ensures
        r is Some <==> spec_emv_mapping(emv_tag@) is Some,
        r is Some ==> {
            let (de, sub, fmt, ml) = spec_emv_mapping(emv_tag@)->0;
            &&& r->0.emv_tag@ == emv_tag@
            &&& r->0.iso_de == de
            &&& r->0.iso_subfield.deep_view() == (match sub {
                Some(s) => Some(s as u8),
                None => None::<u8>,
            })
            &&& r->0.format == fmt
            &&& r->0.max_length == ml
        },
{
    if crate::strutil::str_eq(emv_tag, "5A") {
        Some(EmvIsoMapping {
            emv_tag: "5A",
            emv_name: "Application PAN",
            iso_de: 2,
            iso_subfield: None,
            iso_de_name: "Primary Account Number",
            format: DataFormat::Numeric,
            max_length: 19,
        })
    } else if crate::strutil::str_eq(emv_tag, "5F24") {
        Some(EmvIsoMapping {
            emv_tag: "5F24",
            emv_name: "Application Expiration Date",
            iso_de: 14,
            iso_subfield: None,
            iso_de_name: "Date, Expiration",
            format: DataFormat::Numeric,
            max_length: 4,
        })
    } else if crate::strutil::str_eq(emv_tag, "9F39") {
        Some(EmvIsoMapping {
            emv_tag: "9F39",
            emv_name: "POS Entry Mode",
            iso_de: 22,
            iso_subfield: None,
            iso_de_name: "Point of Service Entry Mode",
            format: DataFormat::Numeric,
            max_length: 3,
        })
    } else if crate::strutil::str_eq(emv_tag, "5F34") {
        Some(EmvIsoMapping {
            emv_tag: "5F34",
            emv_name: "PAN Sequence Number",
            iso_de: 23,
            iso_subfield: None,
            iso_de_name: "Card Sequence Number",
            format: DataFormat::Numeric,
            max_length: 3,
        })
    } else if crate::strutil::str_eq(emv_tag, "57") {
        Some(EmvIsoMapping {
            emv_tag: "57",
            emv_name: "Track 2 Equivalent Data",
            iso_de: 35,
            iso_subfield: None,
            iso_de_name: "Track 2 Data",
            format: DataFormat::Track2,
            max_length: 37,
        })
    } else if crate::strutil::str_eq(emv_tag, "9F1E") {
        Some(EmvIsoMapping {
            emv_tag: "9F1E",
            emv_name: "IFD Serial Number",
            iso_de: 41,
            iso_subfield: None,
            iso_de_name: "Card Acceptor Terminal ID",
            format: DataFormat::Alphanumeric,
            max_length: 8,
        })
    } else if crate::strutil::str_eq(emv_tag, "5F2A") {
        Some(EmvIsoMapping {
            emv_tag: "5F2A",
            emv_name: "Transaction Currency Code",
            iso_de: 49,
            iso_subfield: None,
            iso_de_name: "Currency Code, Transaction",
            format: DataFormat::Numeric,
            max_length: 3,
        })
    } else if crate::strutil::str_eq(emv_tag, "4F") {
        Some(EmvIsoMapping {
            emv_tag: "4F",
            emv_name: "Application Identifier (AID)",
            iso_de: 55,
            iso_subfield: Some(1),
            iso_de_name: "DE55 - AID",
            format: DataFormat::Binary,
            max_length: 16,
        })
    } else if crate::strutil::str_eq(emv_tag, "82") {
        Some(EmvIsoMapping {
            emv_tag: "82",
            emv_name: "Application Interchange Profile",
            iso_de: 55,
            iso_subfield: Some(2),
            iso_de_name: "DE55 - AIP",
            format: DataFormat::Binary,
            max_length: 2,
        })
    } else if crate::strutil::str_eq(emv_tag, "9F36") {
        Some(EmvIsoMapping {
            emv_tag: "9F36",
            emv_name: "Application Transaction Counter",
            iso_de: 55,
            iso_subfield: Some(3),
            iso_de_name: "DE55 - ATC",
            format: DataFormat::Binary,
            max_length: 2,
        })
    } else if crate::strutil::str_eq(emv_tag, "9F26") {
        Some(EmvIsoMapping {
            emv_tag: "9F26",
            emv_name: "Application Cryptogram",
            iso_de: 55,
            iso_subfield: Some(4),
            iso_de_name: "DE55 - Cryptogram",
            format: DataFormat::Binary,
            max_length: 8,
        })
    } else if crate::strutil::str_eq(emv_tag, "9F27") {
        Some(EmvIsoMapping {
            emv_tag: "9F27",
            emv_name: "Cryptogram Information Data",
            iso_de: 55,
            iso_subfield: Some(5),
            iso_de_name: "DE55 - CID",
            format: DataFormat::Binary,
            max_length: 1,
        })
    } else if crate::strutil::str_eq(emv_tag, "9F10") {
        Some(EmvIsoMapping {
            emv_tag: "9F10",
            emv_name: "Issuer Application Data",
            iso_de: 55,
            iso_subfield: Some(6),
            iso_de_name: "DE55 - IAD",
            format: DataFormat::Binary,
            max_length: 32,
        })
    } else if crate::strutil::str_eq(emv_tag, "95") {
        Some(EmvIsoMapping {
            emv_tag: "95",
            emv_name: "Terminal Verification Results",
            iso_de: 55,
            iso_subfield: Some(7),
            iso_de_name: "DE55 - TVR",
            format: DataFormat::Binary,
            max_length: 5,
        })
    } else if crate::strutil::str_eq(emv_tag, "9A") {
        Some(EmvIsoMapping {
            emv_tag: "9A",
            emv_name: "Transaction Date",
            iso_de: 55,
            iso_subfield: Some(8),
            iso_de_name: "DE55 - Transaction Date",
            format: DataFormat::Numeric,
            max_length: 3,
        })
    } else if crate::strutil::str_eq(emv_tag, "9C") {
        Some(EmvIsoMapping {
            emv_tag: "9C",
            emv_name: "Transaction Type",
            iso_de: 55,
            iso_subfield: Some(9),
            iso_de_name: "DE55 - Transaction Type",
            format: DataFormat::Numeric,
            max_length: 1,
        })
    } else if crate::strutil::str_eq(emv_tag, "9F02") {
        Some(EmvIsoMapping {
            emv_tag: "9F02",
            emv_name: "Amount, Authorized",
            iso_de: 55,
            iso_subfield: Some(10),
            iso_de_name: "DE55 - Amount Authorized",
            format: DataFormat::Numeric,
            max_length: 6,
        })
    } else if crate::strutil::str_eq(emv_tag, "9F03") {
        Some(EmvIsoMapping {
            emv_tag: "9F03",
            emv_name: "Amount, Other",
            iso_de: 55,
            iso_subfield: Some(11),
            iso_de_name: "DE55 - Amount Other",
            format: DataFormat::Numeric,
            max_length: 6,
        })
    } else if crate::strutil::str_eq(emv_tag, "9F1A") {
        Some(EmvIsoMapping {
            emv_tag: "9F1A",
            emv_name: "Terminal Country Code",
            iso_de: 55,
            iso_subfield: Some(12),
            iso_de_name: "DE55 - Terminal Country Code",
            format: DataFormat::Numeric,
            max_length: 2,
        })
    } else if crate::strutil::str_eq(emv_tag, "9F37") {
        Some(EmvIsoMapping {
            emv_tag: "9F37",
            emv_name: "Unpredictable Number",
            iso_de: 55,
            iso_subfield: Some(13),
            iso_de_name: "DE55 - UN",
            format: DataFormat::Binary,
            max_length: 4,
        })
    } else if crate::strutil::str_eq(emv_tag, "9F33") {
        Some(EmvIsoMapping {
            emv_tag: "9F33",
            emv_name: "Terminal Capabilities",
            iso_de: 55,
            iso_subfield: Some(14),
            iso_de_name: "DE55 - Terminal Capabilities",
            format: DataFormat::Binary,
            max_length: 3,
        })
    } else if crate::strutil::str_eq(emv_tag, "9F34") {
        Some(EmvIsoMapping {
            emv_tag: "9F34",
            emv_name: "CVM Results",
            iso_de: 55,
            iso_subfield: Some(15),
            iso_de_name: "DE55 - CVM Results",
            format: DataFormat::Binary,
            max_length: 3,
        })
    } else if crate::strutil::str_eq(emv_tag, "9F35") {
        Some(EmvIsoMapping {
            emv_tag: "9F35",
            emv_name: "Terminal Type",
            iso_de: 55,
            iso_subfield: Some(16),
            iso_de_name: "DE55 - Terminal Type",
            format: DataFormat::Numeric,
            max_length: 1,
        })
    } else if crate::strutil::str_eq(emv_tag, "9F09") {
        Some(EmvIsoMapping {
            emv_tag: "9F09",
            emv_name: "Application Version Number",
            iso_de: 55,
            iso_subfield: Some(17),
            iso_de_name: "DE55 - App Version",
            format: DataFormat::Binary,
            max_length: 2,
        })
    } else if crate::strutil::str_eq(emv_tag, "84") {
        Some(EmvIsoMapping {
            emv_tag: "84",
            emv_name: "Dedicated File Name",
            iso_de: 55,
            iso_subfield: Some(18),
            iso_de_name: "DE55 - DF Name",
            format: DataFormat::Binary,
            max_length: 16,
        })
    } else {
        None
    }
}

/// The EMV tags carried by an ISO8583 data element, in table order.
pub open spec fn spec_tags_for_de(de: int) -> Option<Seq<Seq<char>>> {
    if de == 2 {
        Some(seq!["5A"@])
    } else if de == 14 {
        Some(seq!["5F24"@])
    } else if de == 22 {
        Some(seq!["9F39"@])
    } else if de == 23 {
        Some(seq!["5F34"@])
    } else if de == 35 {
        Some(seq!["57"@])
    } else if de == 41 {
        Some(seq!["9F1E"@])
    } else if de == 49 {
        Some(seq!["5F2A"@])
    } else if de == 55 {
        Some(seq!["4F"@, "82"@, "9F36"@, "9F26"@, "9F27"@, "9F10"@, "95"@, "9A"@, "9C"@, "9F02"@, "9F03"@, "9F1A"@, "9F37"@, "9F33"@, "9F34"@, "9F35"@, "9F09"@, "84"@])
    } else {
        None
    }
}

/// The EMV tags that map to a data element, when any do.
pub fn get_emv_tags_for_iso_de(iso_de: u8) -> (r: Option<Vec<&'static str>>)
    ensures
        r is Some <==> spec_tags_for_de(iso_de as int) is Some,
        r is Some ==> r->0.deep_view() == spec_tags_for_de(iso_de as int)->0,
{
    match iso_de {
        2 => {
            let mut r: Vec<&'static str> = Vec::new();
            r.push("5A");
            proof {
                assert(r.deep_view() =~= seq!["5A"@]);
            }
            Some(r)
        },
        14 => {
            let mut r: Vec<&'static str> = Vec::new();
            r.push("5F24");
            proof {
                assert(r.deep_view() =~= seq!["5F24"@]);
            }
            Some(r)
        },
        22 => {
            let mut r: Vec<&'static str> = Vec::new();
            r.push("9F39");
            proof {
                assert(r.deep_view() =~= seq!["9F39"@]);
            }
            Some(r)
        },
        23 => {
            let mut r: Vec<&'static str> = Vec::new();
            r.push("5F34");
            proof {
                assert(r.deep_view() =~= seq!["5F34"@]);
            }
            Some(r)
        },
        35 => {
            let mut r: Vec<&'static str> = Vec::new();
            r.push("57");
            proof {
                assert(r.deep_view() =~= seq!["57"@]);
            }
            Some(r)
        },
        41 => {
            let mut r: Vec<&'static str> = Vec::new();
            r.push("9F1E");
            proof {
                assert(r.deep_view() =~= seq!["9F1E"@]);
            }
            Some(r)
        },
        49 => {
            let mut r: Vec<&'static str> = Vec::new();
            r.push("5F2A");
            proof {
                assert(r.deep_view() =~= seq!["5F2A"@]);
            }
            Some(r)
        },
        55 => {
            let mut r: Vec<&'static str> = Vec::new();
            r.push("4F");
            r.push("82");
            r.push("9F36");
            r.push("9F26");
            r.push("9F27");
            r.push("9F10");
            r.push("95");
            r.push("9A");
            r.push("9C");
            r.push("9F02");
            r.push("9F03");
            r.push("9F1A");
            r.push("9F37");
            r.push("9F33");
            r.push("9F34");
            r.push("9F35");
            r.push("9F09");
            r.push("84");
            proof {
                assert(r.deep_view() =~= seq!["4F"@, "82"@, "9F36"@, "9F26"@, "9F27"@, "9F10"@, "95"@, "9A"@, "9C"@, "9F02"@, "9F03"@, "9F1A"@, "9F37"@, "9F33"@, "9F34"@, "9F35"@, "9F09"@, "84"@]);
            }
            Some(r)
        },
        _ => None,
    }
}

/// Whether a tag belongs inside data element 55.
pub fn is_de55_tag(emv_tag: &str) -> (r: bool)
    ensures
        r == (spec_emv_mapping(emv_tag@) matches Some(m) && m.0 == 55),
{
    match get_iso_de_for_emv(emv_tag) {
        Some(m) => m.iso_de == 55,
        None => false,
    }
}

/// Every tag that goes into data element 55, in table order.
pub fn get_de55_tags() -> (r: Vec<&'static str>)
    ensures
        r.deep_view() == seq!["4F"@, "82"@, "9F36"@, "9F26"@, "9F27"@, "9F10"@, "95"@, "9A"@, "9C"@, "9F02"@, "9F03"@, "9F1A"@, "9F37"@, "9F33"@, "9F34"@, "9F35"@, "9F09"@, "84"@],
{
    let mut r: Vec<&'static str> = Vec::new();
    r.push("4F");
    r.push("82");
    r.push("9F36");
    r.push("9F26");
    r.push("9F27");
    r.push("9F10");
    r.push("95");
    r.push("9A");
    r.push("9C");
    r.push("9F02");
    r.push("9F03");
    r.push("9F1A");
    r.push("9F37");
    r.push("9F33");
    r.push("9F34");
    r.push("9F35");
    r.push("9F09");
    r.push("84");
    proof {
        assert(r.deep_view() =~= seq!["4F"@, "82"@, "9F36"@, "9F26"@, "9F27"@, "9F10"@, "95"@, "9A"@, "9C"@, "9F02"@, "9F03"@, "9F1A"@, "9F37"@, "9F33"@, "9F34"@, "9F35"@, "9F09"@, "84"@]);
    }
    r
}

} // verus!
