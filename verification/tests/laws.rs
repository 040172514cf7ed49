//! Scenario tests of the engine's stated laws: codec round trips, bitmap
//! round trips, TLV reconstruction, the trace-number policy, response
//! resolution, reversal rules, and the end-to-end flow.

use iso8583_engine::bitmap::Bitmap;
use iso8583_engine::codec::Iso8583Parser;
use iso8583_engine::message::Iso8583Message;
use iso8583_engine::response::{build_mock_response, MockDecision, ResponseHandler};
use iso8583_engine::reversal::{ReversalError, ReversalReason, ReversalService};
use iso8583_engine::service::{CardData, CardRequest, EmvData, Iso8583TransactionService};
use iso8583_engine::stan::StanGenerator;
use iso8583_engine::tlv::TlvParser;
use iso8583_engine::transaction::{Iso8583Transaction, Timestamp, TransactionState};

fn test_timestamp() -> Timestamp {
    Timestamp {
        date8: "20260101".to_string(),
        time6: "120000".to_string(),
        date4: "0101".to_string(),
        datetime10: "0101120000".to_string(),
        datetime14: "20260101120000".to_string(),
        rfc3339: "2026-01-01T12:00:00+07:00".to_string(),
    }
}

#[test]
fn field_formats_round_trip_through_the_codec() {
    // One value per wire format, within each format's constraints.
    let parser = Iso8583Parser::new();
    let mut msg = Iso8583Message::new("0200");
    msg.set_field(2, "4111111111111111".to_string()); // LLVAR text
    msg.set_field(3, "000000".to_string()); // fixed numeric, even width
    msg.set_field(22, "051".to_string()); // fixed numeric, odd width
    msg.set_field(37, "REF123456789".to_string()); // fixed alpha, exact width
    msg.set_field(52, "0011223344556677".to_string()); // binary, 8 bytes
    msg.set_field(55, "5A080011223344556677".to_string()); // LLLVAR hex

    let wire = parser.build(&mut msg).unwrap();
    let parsed = parser.parse(&wire).unwrap();

    assert_eq!(parsed.mti, "0200");
    assert_eq!(parsed.get_field(2).unwrap(), "4111111111111111");
    assert_eq!(parsed.get_field(3).unwrap(), "000000");
    assert_eq!(parsed.get_field(22).unwrap(), "051");
    assert_eq!(parsed.get_field(37).unwrap(), "REF123456789");
    assert_eq!(parsed.get_field(52).unwrap(), "0011223344556677");
    assert_eq!(parsed.get_field(55).unwrap(), "5A080011223344556677");
}

#[test]
fn fixed_alpha_round_trip_keeps_exact_width_values() {
    let parser = Iso8583Parser::new();
    let mut msg = Iso8583Message::new("0210");
    msg.set_field(38, "AUTH01".to_string());
    msg.set_field(39, "00".to_string());
    let wire = parser.build(&mut msg).unwrap();
    let parsed = parser.parse(&wire).unwrap();
    assert_eq!(parsed.get_field(38).unwrap(), "AUTH01");
    assert_eq!(parsed.get_field(39).unwrap(), "00");
}

#[test]
fn bitmap_hex_round_trips_all_bits() {
    let mut bitmap = Bitmap::new();
    for de in [2u8, 3, 11, 44, 64, 70, 128] {
        bitmap.set_bit(de);
    }
    let hex = bitmap.to_hex();
    assert_eq!(hex.len(), 32); // secondary present
    let parsed = Bitmap::from_hex(&hex).unwrap();
    for de in 1u8..=128 {
        assert_eq!(parsed.is_set(de), bitmap.is_set(de));
    }
}

#[test]
fn primary_only_bitmap_has_no_secondary_indicator() {
    let mut bitmap = Bitmap::new();
    bitmap.set_bit(2);
    bitmap.set_bit(64);
    let hex = bitmap.to_hex();
    assert_eq!(hex.len(), 16); // eight bytes only
    assert!(!bitmap.is_set(1)); // bit 1 never forced without a DE above 64
    let parsed = Bitmap::from_hex(&hex).unwrap();
    assert!(!parsed.is_set(1));
}

#[test]
fn setting_high_data_element_forces_bit_one() {
    for de in [65u8, 90, 128] {
        let mut bitmap = Bitmap::new();
        bitmap.set_bit(de);
        assert!(bitmap.is_set(1));
        assert_eq!(bitmap.to_hex().len(), 32);
    }
}

#[test]
fn tlv_parse_then_reconstruct_reproduces_the_bytes() {
    // Single-byte tag, length 5, five value bytes.
    let elements = TlvParser::parse_to_vec("5A050102030405").unwrap();
    assert_eq!(elements.len(), 1);
    assert_eq!(elements[0].tag, "5A");
    assert_eq!(elements[0].length, 5);
    let rebuilt = TlvParser::reconstruct(&elements).unwrap();
    assert_eq!(rebuilt, vec![0x5A, 0x05, 0x01, 0x02, 0x03, 0x04, 0x05]);

    // Several elements with a multi-byte tag and a long-form length.
    let mut long_value = String::from("9F10");
    long_value.push_str("8190"); // 0x81 length form, 0x90 bytes
    for _ in 0..0x90 {
        long_value.push_str("AB");
    }
    long_value.push_str("9C0100");
    let bytes = TlvParser::hex_to_bytes(&long_value).unwrap();
    let elements = TlvParser::parse_bytes_to_vec(&bytes).unwrap();
    assert_eq!(elements.len(), 2);
    assert_eq!(elements[0].tag, "9F10");
    assert_eq!(elements[0].length, 0x90);
    assert_eq!(elements[1].tag, "9C");
    let rebuilt = TlvParser::reconstruct(&elements).unwrap();
    assert_eq!(rebuilt, bytes);
}

#[test]
fn truncated_tlv_salvages_the_tail() {
    // Tag 5A declares 5 bytes but only 2 remain.
    let elements = TlvParser::parse_to_vec("5A050102").unwrap();
    assert_eq!(elements.len(), 1);
    assert_eq!(elements[0].tag, "5A");
    assert_eq!(elements[0].length, 2);
    assert_eq!(elements[0].value, vec![0x01, 0x02]);
}

#[test]
fn test_stan_generation() {
    let mut generator = StanGenerator::new("20260101");

    let stan1 = generator.next("20260101");
    let stan2 = generator.next("20260101");
    let stan3 = generator.next("20260101");

    assert_eq!(stan1, "000001");
    assert_eq!(stan2, "000002");
    assert_eq!(stan3, "000003");
}

#[test]
fn test_stan_format() {
    let mut generator = StanGenerator::new("20260101");

    let stan = generator.next("20260101");
    assert_eq!(stan.len(), 6);
    assert!(stan.chars().all(|c| c.is_digit(10)));
}

#[test]
fn test_stan_reset() {
    let mut generator = StanGenerator::new("20260101");

    let _ = generator.next("20260101");
    let _ = generator.next("20260101");

    generator.reset("20260101");

    let stan = generator.next("20260101");
    assert_eq!(stan, "000001");
}

#[test]
fn stan_wraps_to_one_after_the_maximum() {
    let mut generator = StanGenerator::new("20260101");
    for _ in 0..999_998 {
        let _ = generator.next("20260101");
    }
    assert_eq!(generator.next("20260101"), "999999");
    assert_eq!(generator.next("20260101"), "000001");
}

#[test]
fn stan_restarts_on_a_new_day() {
    let mut generator = StanGenerator::new("20260101");
    let _ = generator.next("20260101");
    let _ = generator.next("20260101");
    assert_eq!(generator.next("20260102"), "000001");
}

#[test]
fn unrecognized_response_code_fails_with_no_code() {
    let mut reply = Iso8583Message::new("0210");
    reply.set_field(39, "77".to_string());
    let (state, code) = ResponseHandler::parse_response(&reply);
    assert_eq!(state, TransactionState::Failed);
    assert!(code.is_none());

    let empty = Iso8583Message::new("0210");
    let (state, code) = ResponseHandler::parse_response(&empty);
    assert_eq!(state, TransactionState::Failed);
    assert!(code.is_none());
}

#[test]
fn test_mock_response_generation() {
    let mut request = Iso8583Message::new("0200");
    request.set_field(2, "4111111111111111".to_string());
    request.set_field(4, "000000100000".to_string());
    request.set_field(11, "123456".to_string());

    let decision = MockDecision {
        approved: true,
        decline_idx: 0,
        rrn: "260011200001".to_string(),
        auth_code: "654321".to_string(),
    };
    let response = build_mock_response(&request, &decision, &test_timestamp());

    assert_eq!(response.mti, "0210");
    assert!(response.has_field(37));
    assert!(response.has_field(39));
    assert_eq!(response.get_field(39).unwrap(), "00");
    assert_eq!(response.get_field(2).unwrap(), "4111111111111111");
}

#[test]
fn reversing_an_approved_transaction_is_refused() {
    let mut tx = Iso8583Transaction::new("123456", "0200", &test_timestamp());
    tx.tr_type = Some("APPROVED".to_string());
    assert_eq!(
        ReversalService::check_eligibility(&tx),
        Err(ReversalError::TransactionAlreadyCompleted)
    );

    tx.tr_type = Some("REVERSED".to_string());
    assert_eq!(
        ReversalService::check_eligibility(&tx),
        Err(ReversalError::AlreadyReversed)
    );

    tx.tr_type = Some("SENT".to_string());
    assert_eq!(ReversalService::check_eligibility(&tx), Ok(()));
}

#[test]
fn test_reversal_creation() {
    let now = test_timestamp();
    let mut tx = Iso8583Transaction::new("123456", "0200", &now);
    tx.set_field(2, Some("4111111111111111".to_string()));
    tx.set_field(3, Some("000000".to_string()));
    tx.set_field(4, Some("000000100000".to_string()));
    tx.set_field(41, Some("TERM0001".to_string()));
    tx.set_field(42, Some("MERCHANT001".to_string()));
    tx.set_field(49, Some("704".to_string()));
    tx.tr_uniq_no = "1".to_string();

    let mut service = ReversalService::new(StanGenerator::new("20260101"));
    let reversal = service
        .create_reversal(&tx, ReversalReason::Timeout, &now, "20260101")
        .unwrap();

    assert_eq!(reversal.mti, "0400");
    assert!(reversal.has_field(11));
    assert!(reversal.has_field(90));
    // DE90 is original DE13 ++ DE12 ++ unique transaction number.
    assert_eq!(reversal.get_field(90).unwrap(), "01011200001");
    assert_eq!(reversal.get_field(56).unwrap(), "68");
    assert_eq!(reversal.get_field(2).unwrap(), "4111111111111111");
}

#[test]
fn end_to_end_sale_yields_a_decided_result() {
    let request = CardRequest {
        msg_type: "SALE".to_string(),
        trm_id: "T001".to_string(),
        transaction_id: "1".to_string(),
        amount_minor: 10000, // 100.0 in major units
        transaction_type: "SALE".to_string(),
        merchant_id: None,
        card_data: None,
        qr_data: None,
        additional_data: None,
    };
    let decision = MockDecision {
        approved: true,
        decline_idx: 0,
        rrn: "260011200002".to_string(),
        auth_code: "111111".to_string(),
    };
    let mut service = Iso8583TransactionService::new(StanGenerator::new("20260101"));
    let outcome = service
        .process_transaction(&request, &decision, &test_timestamp(), "20260101")
        .unwrap();

    assert_eq!(outcome.result.transaction_id, "1");
    assert_eq!(outcome.result.stan.len(), 6);
    assert!(outcome.result.stan.chars().all(|c| c.is_digit(10)));
    assert!(outcome.result.status == "APPROVED" || outcome.result.status == "DECLINED");
    assert_eq!(outcome.result.status, "APPROVED");
    assert_eq!(outcome.state, TransactionState::Approved);
    assert_eq!(outcome.request_msg.get_field(3).unwrap(), "000000");
    assert_eq!(outcome.request_msg.get_field(4).unwrap(), "000000010000");

    let declined = MockDecision {
        approved: false,
        decline_idx: 1,
        rrn: "260011200003".to_string(),
        auth_code: String::new(),
    };
    let outcome = service
        .process_transaction(&request, &declined, &test_timestamp(), "20260101")
        .unwrap();
    assert_eq!(outcome.result.status, "DECLINED");
    assert_eq!(outcome.result.response_code.as_deref(), Some("51"));
    assert_eq!(outcome.state, TransactionState::Declined);
}

#[test]
fn chip_data_feeds_the_card_fields_of_the_request() {
    // 5A: PAN 4111111111111111; 5F24: expiry 260930.
    let de55 = "5A084111111111111111".to_string() + "5F2403260930";
    let request = CardRequest {
        msg_type: "SALE".to_string(),
        trm_id: "T001".to_string(),
        transaction_id: "2".to_string(),
        amount_minor: 5000,
        transaction_type: "SALE".to_string(),
        merchant_id: Some("M1".to_string()),
        card_data: Some(CardData {
            emv_data: EmvData { de55, de55_length: None },
        }),
        qr_data: None,
        additional_data: None,
    };
    let service = Iso8583TransactionService::new(StanGenerator::new("20260101"));
    let msg = service
        .build_iso_message(&request, "000007", &test_timestamp())
        .unwrap();
    assert_eq!(msg.get_field(2).unwrap(), "4111111111111111");
    assert_eq!(msg.get_field(14).unwrap(), "260930");
    assert_eq!(msg.get_field(41).unwrap(), "T001");
    assert_eq!(msg.get_field(42).unwrap(), "M1             ");
    assert_eq!(msg.get_field(55).unwrap(), "5A0841111111111111115F2403260930");
}
