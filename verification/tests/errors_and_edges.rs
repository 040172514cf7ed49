//! Error variants, edge cases, and behavior that depends on the outside
//! calls the engine relies on.

use iso8583_engine::bitmap::Bitmap;
use iso8583_engine::codec::{Iso8583Parser, ParseError};
use iso8583_engine::mac::MacCalculator;
use iso8583_engine::message::Iso8583Message;
use iso8583_engine::service::mask_pan;
use iso8583_engine::emv_map::{get_de55_tags, get_emv_tags_for_iso_de, get_iso_de_for_emv, is_de55_tag};
use iso8583_engine::mac::PinBlockHandler;
use iso8583_engine::profile::{get_profile_by_type, TcpTransactionType, TransactionType};
use iso8583_engine::qr::{QrReqDto, QrRespDto};
use iso8583_engine::tlv::{EmvTags, ParsedEmvData, TlvParseError, TlvParser};
use iso8583_engine::transaction::TransactionState;

#[test]
fn bitmap_rejects_wrong_lengths_and_bad_digits() {
    assert!(Bitmap::from_hex("00FF").is_err());
    assert!(Bitmap::from_hex("").is_err());
    assert!(Bitmap::from_hex("ZZZZZZZZZZZZZZZZ").is_err());
    assert!(Bitmap::from_hex("4000000000000000").is_ok());
    // Whitespace between bytes is tolerated.
    assert!(Bitmap::from_hex("40 00 00 00 00 00 00 00").is_ok());
}

#[test]
fn tlv_reports_each_malformation() {
    assert_eq!(
        TlvParser::parse_to_vec("5A0").unwrap_err(),
        TlvParseError::InvalidHexLength
    );
    assert!(matches!(
        TlvParser::parse_to_vec("5G05"),
        Err(TlvParseError::InvalidHexChar(_))
    ));
    // 0x84 is not a supported length form.
    assert_eq!(
        TlvParser::parse_to_vec("5A840000000001FF").unwrap_err(),
        TlvParseError::InvalidLengthEncoding(0x84)
    );
    // A long form cut short ends the data inside the length field.
    assert_eq!(
        TlvParser::parse_to_vec("5A81").unwrap_err(),
        TlvParseError::UnexpectedEndOfData
    );
    // An empty stream parses to no elements.
    assert_eq!(TlvParser::parse_to_vec("").unwrap().len(), 0);
    // A trailing lone tag is dropped.
    assert_eq!(TlvParser::parse_to_vec("5A01015F").unwrap().len(), 1);
}

#[test]
fn duplicate_tags_keep_the_last_occurrence() {
    let parsed = ParsedEmvData::from_de55("9C01009C0120").unwrap();
    assert_eq!(parsed.ordered_elements.len(), 2);
    assert_eq!(parsed.elements.len(), 1);
    assert_eq!(parsed.get_transaction_type(), Some(0x20));
}

#[test]
fn emv_accessors_read_their_tags() {
    let mut de55 = String::new();
    de55.push_str("5A084111111111111111");
    de55.push_str("5F2403260930");
    de55.push_str("5F20064A204B4F4E47");
    de55.push_str("9F3602003C");
    de55.push_str("9A03260101");
    let parsed = ParsedEmvData::from_de55(&de55).unwrap();
    assert_eq!(parsed.get_pan().unwrap(), "4111111111111111");
    assert_eq!(parsed.get_expiry_date().unwrap(), "260930");
    assert_eq!(parsed.get_cardholder_name().unwrap(), "J KONG");
    assert_eq!(parsed.get_atc().unwrap(), "003C");
    assert_eq!(parsed.get_transaction_date().unwrap(), "260101");
    assert!(parsed.get_aid().is_none());
    // A non-printable value yields no text.
    let parsed = ParsedEmvData::from_de55("5F200300FF01").unwrap();
    assert!(parsed.get_cardholder_name().is_none());
}

#[test]
fn message_parse_reports_each_failure() {
    let parser = Iso8583Parser::new();
    assert!(matches!(
        parser.parse("XYZ"),
        Err(ParseError::HexError(_))
    ));
    assert!(matches!(
        parser.parse("30313030"),
        Err(ParseError::InvalidLength(_))
    ));
    // Twelve bytes whose first four are not ASCII.
    assert!(matches!(
        parser.parse("FF3230300000000000000000"),
        Err(ParseError::InvalidMti(_))
    ));
    // Bit 1 announces a secondary bitmap that is missing.
    assert!(matches!(
        parser.parse("303130308000000000000000"),
        Err(ParseError::InvalidBitmap(_))
    ));
    // DE5 is announced but the engine has no format for it.
    let mut msg = Iso8583Message::new("0100");
    msg.set_field(5, "01".to_string());
    let err = parser.build(&mut msg).unwrap_err();
    assert!(matches!(err, ParseError::InvalidField { de: 5, .. }));
}

#[test]
fn parse_undoes_build_for_a_full_message() {
    let parser = Iso8583Parser::new();
    let mut msg = Iso8583Message::new("0200");
    msg.set_field(3, "000000".to_string());
    msg.set_field(11, "000001".to_string());
    msg.set_field(41, "TERM0001".to_string());
    msg.set_field(70, "301".to_string());
    msg.set_field(128, "00FF00FF00FF00FF".to_string());
    let wire = parser.build(&mut msg).unwrap();
    let parsed = parser.parse(&wire).unwrap();
    assert_eq!(parsed.get_field(3).unwrap(), "000000");
    assert_eq!(parsed.get_field(11).unwrap(), "000001");
    assert_eq!(parsed.get_field(41).unwrap(), "TERM0001");
    assert_eq!(parsed.get_field(70).unwrap(), "301");
    assert_eq!(parsed.get_field(128).unwrap(), "00FF00FF00FF00FF");
    assert!(parsed.is_request());
    assert_eq!(parsed.get_response_mti().unwrap(), "0210");
}

#[test]
fn mac_is_not_the_message_itself() {
    // Guards the reliance on the outside HMAC: handing the input back
    // unchanged would make the MAC the hex of the first eight bytes.
    let calculator = MacCalculator::new_mock();
    let data = b"Hello, World!";
    let mac = calculator.calculate_mac(data);
    assert_ne!(mac, "48656C6C6F2C2057");
    // And the MAC of a hex-carried message matches the raw-byte MAC.
    let hex_mac = calculator.calculate_iso_mac("48656C6C6F2C2057").unwrap();
    let raw_mac = calculator.calculate_mac(&[0x48, 0x65, 0x6C, 0x6C, 0x6F, 0x2C, 0x20, 0x57]);
    assert_eq!(hex_mac, raw_mac);
    assert!(calculator.calculate_iso_mac("GG").is_err());
}

#[test]
fn pin_rules_reject_bad_inputs() {
    let handler = PinBlockHandler::new_mock();
    assert_eq!(
        handler.encrypt_pin("123", "4111111111111111").unwrap_err(),
        "PIN must be 4-12 digits"
    );
    assert_eq!(
        handler.encrypt_pin("1234", "411111").unwrap_err(),
        "Invalid PAN length"
    );
}

#[test]
fn pan_masking_keeps_six_and_four() {
    assert_eq!(mask_pan("4111111111111111"), "411111******1111");
    assert_eq!(mask_pan("41111111"), "********");
    assert_eq!(mask_pan(""), "");
}

#[test]
fn tag_descriptions_cover_known_and_unknown() {
    assert_eq!(EmvTags::get_description("5A"), "Application Primary Account Number (PAN)");
    assert_eq!(EmvTags::get_description("9F26"), "Application Cryptogram (AC)");
    assert_eq!(EmvTags::get_description("ZZ"), "Unknown Tag");
}

#[test]
fn emv_mapping_answers_both_directions() {
    let m = get_iso_de_for_emv("5A").unwrap();
    assert_eq!(m.iso_de, 2);
    assert!(m.iso_subfield.is_none());
    assert!(is_de55_tag("9F26"));
    assert!(!is_de55_tag("5A"));
    assert!(get_iso_de_for_emv("FFFF").is_none());
    let tags = get_emv_tags_for_iso_de(55).unwrap();
    assert!(tags.contains(&"9F26"));
    assert_eq!(get_de55_tags().len(), 18);
    assert!(get_emv_tags_for_iso_de(3).is_none());
}

#[test]
fn profile_lookup_accepts_aliases_and_case() {
    assert_eq!(get_profile_by_type("purchase").unwrap().name, "PURCHASE");
    assert_eq!(get_profile_by_type("WITHDRAWAL").unwrap().name, "CASH_WITHDRAWAL");
    assert_eq!(get_profile_by_type("vietqr").unwrap().name, "QR_PAYMENT");
    assert!(get_profile_by_type("nonsense").is_none());
    assert_eq!(
        TcpTransactionType::from_str("sale").unwrap(),
        TcpTransactionType::Sale
    );
    assert_eq!(
        TcpTransactionType::from_str("sale").unwrap().to_internal(),
        TransactionType::Purchase
    );
    assert!(TcpTransactionType::from_str("bogus").is_err());
}

#[test]
fn transaction_states_read_and_print() {
    assert_eq!(TransactionState::from_str("approved"), Some(TransactionState::Approved));
    assert_eq!(TransactionState::from_str("REVERSED"), Some(TransactionState::Reversed));
    assert_eq!(TransactionState::from_str("nope"), None);
    assert_eq!(TransactionState::Timeout.as_str(), "TIMEOUT");
}

#[test]
fn qr_validation_rules_hold() {
    let mut req = QrReqDto::new();
    assert!(req.validate().is_err());
    req.amount = 1000;
    assert!(req.validate().is_ok());
    let mut resp = QrRespDto::new();
    assert!(resp.validate().is_err());
    resp.qr_code = "QRDATA".to_string();
    assert!(resp.validate().is_ok());
}
