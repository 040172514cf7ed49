//! The engine's unit tests: bitmaps, message building, MAC and PIN
//! handling, response codes, and transaction profiles.

use iso8583_engine::bitmap::Bitmap;
use iso8583_engine::codec::Iso8583Parser;
use iso8583_engine::mac::{MacCalculator, PinBlockHandler};
use iso8583_engine::message::Iso8583Message;
use iso8583_engine::profile::{
    get_profile, validate_transaction_fields, TransactionType,
};
use iso8583_engine::response::ResponseCode;
use iso8583_engine::transaction::TransactionState;

#[test]
fn test_bitmap_creation() {
    let mut bitmap = Bitmap::new();
    bitmap.set_bit(2);
    bitmap.set_bit(3);
    bitmap.set_bit(4);

    assert!(bitmap.is_set(2));
    assert!(bitmap.is_set(3));
    assert!(bitmap.is_set(4));
    assert!(!bitmap.is_set(5));
}

#[test]
fn test_bitmap_secondary() {
    let mut bitmap = Bitmap::new();
    bitmap.set_bit(65);

    assert!(bitmap.is_set(1));
    assert!(bitmap.is_set(65));
}

#[test]
fn test_bitmap_hex_conversion() {
    let mut bitmap = Bitmap::new();
    bitmap.set_bit(2);
    bitmap.set_bit(3);

    let hex = bitmap.to_hex();
    let parsed = Bitmap::from_hex(&hex).unwrap();

    assert!(parsed.is_set(2));
    assert!(parsed.is_set(3));
    assert!(!parsed.is_set(4));
}

#[test]
fn test_build_simple_message() {
    let parser = Iso8583Parser::new();
    let mut msg = Iso8583Message::new("0200");

    msg.set_field(3, "000000".to_string());
    msg.set_field(4, "000000100000".to_string());
    msg.set_field(11, "123456".to_string());

    let result = parser.build(&mut msg);
    assert!(result.is_ok());
}

#[test]
fn test_mac_calculation() {
    let calculator = MacCalculator::new_mock();
    let data = b"Hello, World!";

    let mac1 = calculator.calculate_mac(data);
    let mac2 = calculator.calculate_mac(data);

    assert_eq!(mac1, mac2);
    assert_eq!(mac1.len(), 16);
}

#[test]
fn test_mac_verification() {
    let calculator = MacCalculator::new_mock();
    let data = b"Test message";

    let mac = calculator.calculate_mac(data);
    assert!(calculator.verify_mac(data, &mac));
    assert!(!calculator.verify_mac(data, "0000000000000000"));
}

#[test]
fn test_pin_encryption() {
    let handler = PinBlockHandler::new_mock();
    let pin = "1234";
    let pan = "4111111111111111";

    let encrypted = handler.encrypt_pin(pin, pan);
    assert!(encrypted.is_ok());

    let encrypted_pin = encrypted.unwrap();
    assert_eq!(encrypted_pin.len(), 16);
}

#[test]
fn test_pin_verification() {
    let handler = PinBlockHandler::new_mock();
    let pin = "1234";
    let pan = "4111111111111111";

    let encrypted = handler.encrypt_pin(pin, pan).unwrap();
    assert!(handler.verify_pin(&encrypted, pin, pan).unwrap());
    assert!(!handler.verify_pin(&encrypted, "5678", pan).unwrap());
}

#[test]
fn test_response_code_conversion() {
    let code = ResponseCode::Approved;
    assert_eq!(code.as_str(), "00");
    assert_eq!(code.to_transaction_state(), TransactionState::Approved);

    let code = ResponseCode::InsufficientFunds;
    assert_eq!(code.as_str(), "51");
    assert_eq!(code.to_transaction_state(), TransactionState::Declined);
}

#[test]
fn test_get_purchase_profile() {
    let profile = get_profile(TransactionType::Purchase).unwrap();
    assert_eq!(profile.name, "Purchase");
    assert!(profile.required_iso_des.contains(&2));
    assert!(profile.required_iso_des.contains(&55));
}

#[test]
fn test_transaction_mti() {
    assert_eq!(TransactionType::Purchase.get_mti(), "0200");
    assert_eq!(TransactionType::PreAuth.get_mti(), "0100");
    assert_eq!(TransactionType::Void.get_mti(), "0400");
}

#[test]
fn test_processing_codes() {
    assert_eq!(TransactionType::Purchase.get_processing_code(), "000000");
    assert_eq!(
        TransactionType::CashWithdrawal.get_processing_code(),
        "010000"
    );
    assert_eq!(
        TransactionType::BalanceInquiry.get_processing_code(),
        "310000"
    );
    assert_eq!(TransactionType::Refund.get_processing_code(), "200000");
}

#[test]
fn test_validate_transaction() {
    let present_des: Vec<u8> = vec![2, 3, 4, 11, 12, 13, 14, 22, 23, 25, 26, 35, 41, 42, 49, 55];
    let present_tags: Vec<String> = ["5A", "5F24", "9F26", "9F27", "9F10", "9F36", "9F37", "95"]
        .iter()
        .map(|s| s.to_string())
        .collect();

    let result = validate_transaction_fields(TransactionType::Purchase, &present_des, &present_tags);

    assert!(result.is_valid);
}

#[test]
fn test_missing_fields_detection() {
    let present_des: Vec<u8> = vec![2, 3, 4, 11];
    let present_tags: Vec<String> = vec!["5A".to_string()];

    let result = validate_transaction_fields(TransactionType::Purchase, &present_des, &present_tags);

    assert!(!result.is_valid);
    assert!(!result.missing_iso_des.is_empty());
    assert!(!result.missing_emv_tags.is_empty());
}

#[test]
fn test_de55_required_tags() {
    let profile = get_profile(TransactionType::Purchase).unwrap();

    assert!(profile.de55_required_tags.contains(&"9F26"));
    assert!(profile.de55_required_tags.contains(&"9F27"));
    assert!(profile.de55_required_tags.contains(&"9F10"));
    assert!(profile.de55_required_tags.contains(&"9F36"));
}
