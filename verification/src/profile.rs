//! Transaction profiles: which data elements and EMV tags each
//! transaction type requires, and validation of a field set against a
//! profile.

use vstd::prelude::*;

use crate::strutil::{dec_seq, upper};

verus! {

/// The transaction types the engine profiles.
#[derive(Debug, Clone, Copy, PartialEq, Eq, Hash, Structural)]
pub enum TransactionType {
    /// Purchase (MTI 0200).
    Purchase,
    /// Cash withdrawal (MTI 0200).
    CashWithdrawal,
    /// Balance inquiry (MTI 0200).
    BalanceInquiry,
    /// Refund/return (MTI 0200).
    Refund,
    /// Pre-authorization (MTI 0100).
    PreAuth,
    /// Pre-authorization completion (MTI 0200).
    PreAuthCompletion,
    /// Void (MTI 0400).
    Void,
    /// Reversal (MTI 0400).
    Reversal,
    /// Cash advance (MTI 0200).
    CashAdvance,
    /// QR payment (MTI 0200).
    QrPayment,
}

/// The MTI of a type.
pub open spec fn spec_type_mti(t: TransactionType) -> Seq<char> {
    match t {
        TransactionType::Purchase => "0200"@,
        TransactionType::CashWithdrawal => "0200"@,
        TransactionType::BalanceInquiry => "0200"@,
        TransactionType::Refund => "0200"@,
        TransactionType::PreAuth => "0100"@,
        TransactionType::PreAuthCompletion => "0200"@,
        TransactionType::Void => "0400"@,
        TransactionType::Reversal => "0400"@,
        TransactionType::CashAdvance => "0200"@,
        TransactionType::QrPayment => "0200"@,
    }
}

/// The processing code (data element 3) of a type.
pub open spec fn spec_type_processing_code(t: TransactionType) -> Seq<char> {
    match t {
        TransactionType::Purchase => "000000"@,
        TransactionType::CashWithdrawal => "010000"@,
        TransactionType::BalanceInquiry => "310000"@,
        TransactionType::Refund => "200000"@,
        TransactionType::PreAuth => "000000"@,
        TransactionType::PreAuthCompletion => "000000"@,
        TransactionType::Void => "000000"@,
        TransactionType::Reversal => "000000"@,
        TransactionType::CashAdvance => "010000"@,
        TransactionType::QrPayment => "000000"@,
    }
}

/// The EMV transaction type byte (tag 9C) of a type.
pub open spec fn spec_type_emv_tt(t: TransactionType) -> u8 {
    match t {
        TransactionType::Purchase => 0x00,
        TransactionType::CashWithdrawal => 0x01,
        TransactionType::BalanceInquiry => 0x31,
        TransactionType::Refund => 0x20,
        TransactionType::PreAuth => 0x00,
        TransactionType::PreAuthCompletion => 0x00,
        TransactionType::Void => 0x00,
        TransactionType::Reversal => 0x00,
        TransactionType::CashAdvance => 0x01,
        TransactionType::QrPayment => 0x00,
    }
}

impl TransactionType {
    /// The message type indicator this type uses.
    pub fn get_mti(&self) -> (r: &'static str)
        ensures
            r@ == spec_type_mti(*self),
    {
        match self {
            TransactionType::Purchase => "0200",
            TransactionType::CashWithdrawal => "0200",
            TransactionType::BalanceInquiry => "0200",
            TransactionType::Refund => "0200",
            TransactionType::PreAuth => "0100",
            TransactionType::PreAuthCompletion => "0200",
            TransactionType::Void => "0400",
            TransactionType::Reversal => "0400",
            TransactionType::CashAdvance => "0200",
            TransactionType::QrPayment => "0200",
        }
    }

    /// The processing code this type places in data element 3.
    pub fn get_processing_code(&self) -> (r: &'static str)
        ensures
            r@ == spec_type_processing_code(*self),
    {
        match self {
            TransactionType::Purchase => "000000",
            TransactionType::CashWithdrawal => "010000",
            TransactionType::BalanceInquiry => "310000",
            TransactionType::Refund => "200000",
            TransactionType::PreAuth => "000000",
            TransactionType::PreAuthCompletion => "000000",
            TransactionType::Void => "000000",
            TransactionType::Reversal => "000000",
            TransactionType::CashAdvance => "010000",
            TransactionType::QrPayment => "000000",
        }
    }

    /// The EMV transaction type byte (tag 9C) of this type.
    pub fn get_emv_transaction_type(&self) -> (r: u8)
        ensures
            r == spec_type_emv_tt(*self),
    {
        match self {
            TransactionType::Purchase => 0x00,
            TransactionType::CashWithdrawal => 0x01,
            TransactionType::BalanceInquiry => 0x31,
            TransactionType::Refund => 0x20,
            TransactionType::PreAuth => 0x00,
            TransactionType::PreAuthCompletion => 0x00,
            TransactionType::Void => 0x00,
            TransactionType::Reversal => 0x00,
            TransactionType::CashAdvance => 0x01,
            TransactionType::QrPayment => 0x00,
        }
    }
}

/// Whether a type has a profile.
pub open spec fn spec_has_profile(t: TransactionType) -> bool {
    t == TransactionType::Purchase || t == TransactionType::CashWithdrawal || t
        == TransactionType::BalanceInquiry || t == TransactionType::Refund || t
        == TransactionType::PreAuth || t == TransactionType::Void || t
        == TransactionType::QrPayment
}

/// The display name of a profiled type.
pub open spec fn spec_profile_name(t: TransactionType) -> Seq<char> {
    match t {
        TransactionType::Purchase => "Purchase"@,
        TransactionType::CashWithdrawal => "Cash Withdrawal"@,
        TransactionType::BalanceInquiry => "Balance Inquiry"@,
        TransactionType::Refund => "Refund"@,
        TransactionType::PreAuth => "Pre-Authorization"@,
        TransactionType::Void => "Void"@,
        TransactionType::QrPayment => "QR Payment"@,
        _ => ""@,
    }
}

/// The `required_iso_des` list of a profiled type.
pub open spec fn spec_required_iso_des(t: TransactionType) -> Seq<u8> {
    match t {
        TransactionType::Purchase => seq![2u8, 3u8, 4u8, 11u8, 12u8, 13u8, 14u8, 22u8, 23u8, 25u8, 26u8, 35u8, 41u8, 42u8, 49u8, 55u8],
        TransactionType::CashWithdrawal => seq![2u8, 3u8, 4u8, 11u8, 12u8, 13u8, 14u8, 22u8, 23u8, 25u8, 35u8, 41u8, 42u8, 49u8, 52u8, 55u8],
        TransactionType::BalanceInquiry => seq![2u8, 3u8, 11u8, 12u8, 13u8, 14u8, 22u8, 35u8, 41u8, 42u8, 49u8],
        TransactionType::Refund => seq![2u8, 3u8, 4u8, 11u8, 12u8, 13u8, 14u8, 22u8, 25u8, 35u8, 37u8, 41u8, 42u8, 49u8],
        TransactionType::PreAuth => seq![2u8, 3u8, 4u8, 11u8, 12u8, 13u8, 14u8, 22u8, 23u8, 25u8, 35u8, 41u8, 42u8, 49u8, 55u8],
        TransactionType::Void => seq![2u8, 3u8, 4u8, 11u8, 12u8, 13u8, 22u8, 25u8, 37u8, 38u8, 41u8, 42u8, 49u8],
        TransactionType::QrPayment => seq![3u8, 4u8, 11u8, 12u8, 13u8, 25u8, 41u8, 42u8, 49u8],
        _ => Seq::<u8>::empty(),
    }
}

/// The `optional_iso_des` list of a profiled type.
pub open spec fn spec_optional_iso_des(t: TransactionType) -> Seq<u8> {
    match t {
        TransactionType::Purchase => seq![32u8, 37u8, 38u8, 39u8, 43u8, 52u8, 54u8],
        TransactionType::CashWithdrawal => seq![32u8, 37u8, 38u8, 39u8, 43u8, 54u8],
        TransactionType::BalanceInquiry => seq![23u8, 25u8, 32u8, 37u8, 38u8, 39u8, 43u8, 52u8, 54u8, 55u8],
        TransactionType::Refund => seq![23u8, 32u8, 38u8, 39u8, 43u8, 55u8],
        TransactionType::PreAuth => seq![32u8, 37u8, 38u8, 39u8, 43u8, 52u8, 54u8],
        TransactionType::Void => seq![14u8, 23u8, 32u8, 35u8, 39u8, 43u8, 55u8],
        TransactionType::QrPayment => seq![2u8, 32u8, 37u8, 38u8, 39u8, 43u8, 102u8, 103u8],
        _ => Seq::<u8>::empty(),
    }
}

/// The `required_emv_tags` list of a profiled type.
pub open spec fn spec_required_emv_tags(t: TransactionType) -> Seq<Seq<char>> {
    match t {
        TransactionType::Purchase => seq!["5A"@, "5F24"@, "9F26"@, "9F27"@, "9F10"@, "9F36"@, "9F37"@, "95"@],
        TransactionType::CashWithdrawal => seq!["5A"@, "5F24"@, "9F26"@, "9F27"@, "9F10"@, "9F36"@, "9F37"@, "95"@],
        TransactionType::BalanceInquiry => seq!["5A"@, "5F24"@],
        TransactionType::Refund => seq!["5A"@, "5F24"@],
        TransactionType::PreAuth => seq!["5A"@, "5F24"@, "9F26"@, "9F27"@, "9F10"@, "9F36"@, "9F37"@, "95"@],
        TransactionType::Void => seq!["5A"@],
        TransactionType::QrPayment => Seq::<Seq<char>>::empty(),
        _ => Seq::<Seq<char>>::empty(),
    }
}

/// The `optional_emv_tags` list of a profiled type.
pub open spec fn spec_optional_emv_tags(t: TransactionType) -> Seq<Seq<char>> {
    match t {
        TransactionType::Purchase => seq!["5F20"@, "5F34"@, "9F33"@, "9F34"@, "9F35"@],
        TransactionType::CashWithdrawal => seq!["5F20"@, "5F34"@, "9F33"@, "9F34"@, "9F35"@],
        TransactionType::BalanceInquiry => seq!["9F26"@, "9F27"@, "9F10"@, "9F36"@, "95"@],
        TransactionType::Refund => seq!["9F26"@, "9F27"@, "9F10"@, "9F36"@, "95"@],
        TransactionType::PreAuth => seq!["5F20"@, "5F34"@, "9F33"@, "9F34"@, "9F35"@],
        TransactionType::Void => seq!["5F24"@, "9F26"@, "9F27"@, "9F10"@, "9F36"@, "95"@],
        TransactionType::QrPayment => Seq::<Seq<char>>::empty(),
        _ => Seq::<Seq<char>>::empty(),
    }
}

/// The `de55_required_tags` list of a profiled type.
pub open spec fn spec_de55_required_tags(t: TransactionType) -> Seq<Seq<char>> {
    match t {
        TransactionType::Purchase => seq!["9F26"@, "9F27"@, "9F10"@, "9F37"@, "9F36"@, "95"@, "9A"@, "9C"@, "9F02"@, "5F2A"@, "82"@, "9F1A"@, "9F34"@, "9F33"@, "9F35"@, "4F"@, "84"@],
        TransactionType::CashWithdrawal => seq!["9F26"@, "9F27"@, "9F10"@, "9F37"@, "9F36"@, "95"@, "9A"@, "9C"@, "9F02"@, "5F2A"@, "82"@, "9F1A"@, "9F34"@, "9F33"@, "9F35"@, "4F"@, "84"@],
        TransactionType::BalanceInquiry => seq!["4F"@, "9A"@, "9C"@, "5F2A"@, "9F1A"@],
        TransactionType::Refund => seq!["4F"@, "9A"@, "9C"@, "9F02"@, "5F2A"@, "9F1A"@],
        TransactionType::PreAuth => seq!["9F26"@, "9F27"@, "9F10"@, "9F37"@, "9F36"@, "95"@, "9A"@, "9C"@, "9F02"@, "5F2A"@, "82"@, "9F1A"@, "9F34"@, "9F33"@, "4F"@, "84"@],
        TransactionType::Void => seq!["4F"@, "9A"@, "9C"@, "9F02"@, "5F2A"@, "9F1A"@],
        TransactionType::QrPayment => Seq::<Seq<char>>::empty(),
        _ => Seq::<Seq<char>>::empty(),
    }
}


/// Required and optional fields of one transaction type.
#[derive(Debug, Clone)]
pub struct TransactionProfile {
    pub transaction_type: TransactionType,
    pub name: &'static str,
    pub description: &'static str,
    /// Required ISO8583 data elements.
    pub required_iso_des: Vec<u8>,
    /// Optional ISO8583 data elements.
    pub optional_iso_des: Vec<u8>,
    /// Required EMV tags for chip transactions.
    pub required_emv_tags: Vec<&'static str>,
    /// Optional EMV tags.
    pub optional_emv_tags: Vec<&'static str>,
    /// Tags that must be present in data element 55 for online
    /// authorization.
    pub de55_required_tags: Vec<&'static str>,
}

/// The profile of a type, when it has one.
pub fn get_profile(tx_type: TransactionType) -> (r: Option<TransactionProfile>)
    ensures
        r is Some <==> spec_has_profile(tx_type),
        r is Some ==> {
            let p = r->0;
            &&& p.transaction_type == tx_type
            &&& p.name@ == spec_profile_name(tx_type)
            &&& p.required_iso_des@ == spec_required_iso_des(tx_type)
            &&& p.optional_iso_des@ == spec_optional_iso_des(tx_type)
            &&& p.required_emv_tags.deep_view() == spec_required_emv_tags(tx_type)
            &&& p.optional_emv_tags.deep_view() == spec_optional_emv_tags(tx_type)
            &&& p.de55_required_tags.deep_view() == spec_de55_required_tags(tx_type)
        },
{
    match tx_type {
        TransactionType::Purchase => {
            let mut required_iso_des: Vec<u8> = Vec::new();
        required_iso_des.push(2);
        required_iso_des.push(3);
        required_iso_des.push(4);
        required_iso_des.push(11);
        required_iso_des.push(12);
        required_iso_des.push(13);
        required_iso_des.push(14);
        required_iso_des.push(22);
        required_iso_des.push(23);
        required_iso_des.push(25);
        required_iso_des.push(26);
        required_iso_des.push(35);
        required_iso_des.push(41);
        required_iso_des.push(42);
        required_iso_des.push(49);
        required_iso_des.push(55);
            let mut optional_iso_des: Vec<u8> = Vec::new();
        optional_iso_des.push(32);
        optional_iso_des.push(37);
        optional_iso_des.push(38);
        optional_iso_des.push(39);
        optional_iso_des.push(43);
        optional_iso_des.push(52);
        optional_iso_des.push(54);
            let mut required_emv_tags: Vec<&'static str> = Vec::new();
        required_emv_tags.push("5A");
        required_emv_tags.push("5F24");
        required_emv_tags.push("9F26");
        required_emv_tags.push("9F27");
        required_emv_tags.push("9F10");
        required_emv_tags.push("9F36");
        required_emv_tags.push("9F37");
        required_emv_tags.push("95");
            let mut optional_emv_tags: Vec<&'static str> = Vec::new();
        optional_emv_tags.push("5F20");
        optional_emv_tags.push("5F34");
        optional_emv_tags.push("9F33");
        optional_emv_tags.push("9F34");
        optional_emv_tags.push("9F35");
            let mut de55_required_tags: Vec<&'static str> = Vec::new();
        de55_required_tags.push("9F26");
        de55_required_tags.push("9F27");
        de55_required_tags.push("9F10");
        de55_required_tags.push("9F37");
        de55_required_tags.push("9F36");
        de55_required_tags.push("95");
        de55_required_tags.push("9A");
        de55_required_tags.push("9C");
        de55_required_tags.push("9F02");
        de55_required_tags.push("5F2A");
        de55_required_tags.push("82");
        de55_required_tags.push("9F1A");
        de55_required_tags.push("9F34");
        de55_required_tags.push("9F33");
        de55_required_tags.push("9F35");
        de55_required_tags.push("4F");
        de55_required_tags.push("84");
            let r = TransactionProfile {
                transaction_type: tx_type,
                name: "Purchase",
                description: "Standard purchase transaction",
                required_iso_des,
                optional_iso_des,
                required_emv_tags,
                optional_emv_tags,
                de55_required_tags,
            };
            proof {
                assert(r.required_iso_des@ =~= spec_required_iso_des(tx_type));
                assert(r.optional_iso_des@ =~= spec_optional_iso_des(tx_type));
                assert(r.required_emv_tags.deep_view() =~= spec_required_emv_tags(tx_type));
                assert(r.optional_emv_tags.deep_view() =~= spec_optional_emv_tags(tx_type));
                assert(r.de55_required_tags.deep_view() =~= spec_de55_required_tags(tx_type));
            }
            Some(r)
        },
        TransactionType::CashWithdrawal => {
            let mut required_iso_des: Vec<u8> = Vec::new();
        required_iso_des.push(2);
        required_iso_des.push(3);
        required_iso_des.push(4);
        required_iso_des.push(11);
        required_iso_des.push(12);
        required_iso_des.push(13);
        required_iso_des.push(14);
        required_iso_des.push(22);
        required_iso_des.push(23);
        required_iso_des.push(25);
        required_iso_des.push(35);
        required_iso_des.push(41);
        required_iso_des.push(42);
        required_iso_des.push(49);
        required_iso_des.push(52);
        required_iso_des.push(55);
            let mut optional_iso_des: Vec<u8> = Vec::new();
        optional_iso_des.push(32);
        optional_iso_des.push(37);
        optional_iso_des.push(38);
        optional_iso_des.push(39);
        optional_iso_des.push(43);
        optional_iso_des.push(54);
            let mut required_emv_tags: Vec<&'static str> = Vec::new();
        required_emv_tags.push("5A");
        required_emv_tags.push("5F24");
        required_emv_tags.push("9F26");
        required_emv_tags.push("9F27");
        required_emv_tags.push("9F10");
        required_emv_tags.push("9F36");
        required_emv_tags.push("9F37");
        required_emv_tags.push("95");
            let mut optional_emv_tags: Vec<&'static str> = Vec::new();
        optional_emv_tags.push("5F20");
        optional_emv_tags.push("5F34");
        optional_emv_tags.push("9F33");
        optional_emv_tags.push("9F34");
        optional_emv_tags.push("9F35");
            let mut de55_required_tags: Vec<&'static str> = Vec::new();
        de55_required_tags.push("9F26");
        de55_required_tags.push("9F27");
        de55_required_tags.push("9F10");
        de55_required_tags.push("9F37");
        de55_required_tags.push("9F36");
        de55_required_tags.push("95");
        de55_required_tags.push("9A");
        de55_required_tags.push("9C");
        de55_required_tags.push("9F02");
        de55_required_tags.push("5F2A");
        de55_required_tags.push("82");
        de55_required_tags.push("9F1A");
        de55_required_tags.push("9F34");
        de55_required_tags.push("9F33");
        de55_required_tags.push("9F35");
        de55_required_tags.push("4F");
        de55_required_tags.push("84");
            let r = TransactionProfile {
                transaction_type: tx_type,
                name: "Cash Withdrawal",
                description: "ATM cash withdrawal transaction",
                required_iso_des,
                optional_iso_des,
                required_emv_tags,
                optional_emv_tags,
                de55_required_tags,
            };
            proof {
                assert(r.required_iso_des@ =~= spec_required_iso_des(tx_type));
                assert(r.optional_iso_des@ =~= spec_optional_iso_des(tx_type));
                assert(r.required_emv_tags.deep_view() =~= spec_required_emv_tags(tx_type));
                assert(r.optional_emv_tags.deep_view() =~= spec_optional_emv_tags(tx_type));
                assert(r.de55_required_tags.deep_view() =~= spec_de55_required_tags(tx_type));
            }
            Some(r)
        },
        TransactionType::BalanceInquiry => {
            let mut required_iso_des: Vec<u8> = Vec::new();
        required_iso_des.push(2);
        required_iso_des.push(3);
        required_iso_des.push(11);
        required_iso_des.push(12);
        required_iso_des.push(13);
        required_iso_des.push(14);
        required_iso_des.push(22);
        required_iso_des.push(35);
        required_iso_des.push(41);
        required_iso_des.push(42);
        required_iso_des.push(49);
            let mut optional_iso_des: Vec<u8> = Vec::new();
        optional_iso_des.push(23);
        optional_iso_des.push(25);
        optional_iso_des.push(32);
        optional_iso_des.push(37);
        optional_iso_des.push(38);
        optional_iso_des.push(39);
        optional_iso_des.push(43);
        optional_iso_des.push(52);
        optional_iso_des.push(54);
        optional_iso_des.push(55);
            let mut required_emv_tags: Vec<&'static str> = Vec::new();
        required_emv_tags.push("5A");
        required_emv_tags.push("5F24");
            let mut optional_emv_tags: Vec<&'static str> = Vec::new();
        optional_emv_tags.push("9F26");
        optional_emv_tags.push("9F27");
        optional_emv_tags.push("9F10");
        optional_emv_tags.push("9F36");
        optional_emv_tags.push("95");
            let mut de55_required_tags: Vec<&'static str> = Vec::new();
        de55_required_tags.push("4F");
        de55_required_tags.push("9A");
        de55_required_tags.push("9C");
        de55_required_tags.push("5F2A");
        de55_required_tags.push("9F1A");
            let r = TransactionProfile {
                transaction_type: tx_type,
                name: "Balance Inquiry",
                description: "Balance inquiry transaction",
                required_iso_des,
                optional_iso_des,
                required_emv_tags,
                optional_emv_tags,
                de55_required_tags,
            };
            proof {
                assert(r.required_iso_des@ =~= spec_required_iso_des(tx_type));
                assert(r.optional_iso_des@ =~= spec_optional_iso_des(tx_type));
                assert(r.required_emv_tags.deep_view() =~= spec_required_emv_tags(tx_type));
                assert(r.optional_emv_tags.deep_view() =~= spec_optional_emv_tags(tx_type));
                assert(r.de55_required_tags.deep_view() =~= spec_de55_required_tags(tx_type));
            }
            Some(r)
        },
        TransactionType::Refund => {
            let mut required_iso_des: Vec<u8> = Vec::new();
        required_iso_des.push(2);
        required_iso_des.push(3);
        required_iso_des.push(4);
        required_iso_des.push(11);
        required_iso_des.push(12);
        required_iso_des.push(13);
        required_iso_des.push(14);
        required_iso_des.push(22);
        required_iso_des.push(25);
        required_iso_des.push(35);
        required_iso_des.push(37);
        required_iso_des.push(41);
        required_iso_des.push(42);
        required_iso_des.push(49);
            let mut optional_iso_des: Vec<u8> = Vec::new();
        optional_iso_des.push(23);
        optional_iso_des.push(32);
        optional_iso_des.push(38);
        optional_iso_des.push(39);
        optional_iso_des.push(43);
        optional_iso_des.push(55);
            let mut required_emv_tags: Vec<&'static str> = Vec::new();
        required_emv_tags.push("5A");
        required_emv_tags.push("5F24");
            let mut optional_emv_tags: Vec<&'static str> = Vec::new();
        optional_emv_tags.push("9F26");
        optional_emv_tags.push("9F27");
        optional_emv_tags.push("9F10");
        optional_emv_tags.push("9F36");
        optional_emv_tags.push("95");
            let mut de55_required_tags: Vec<&'static str> = Vec::new();
        de55_required_tags.push("4F");
        de55_required_tags.push("9A");
        de55_required_tags.push("9C");
        de55_required_tags.push("9F02");
        de55_required_tags.push("5F2A");
        de55_required_tags.push("9F1A");
            let r = TransactionProfile {
                transaction_type: tx_type,
                name: "Refund",
                description: "Refund/Return transaction",
                required_iso_des,
                optional_iso_des,
                required_emv_tags,
                optional_emv_tags,
                de55_required_tags,
            };
            proof {
                assert(r.required_iso_des@ =~= spec_required_iso_des(tx_type));
                assert(r.optional_iso_des@ =~= spec_optional_iso_des(tx_type));
                assert(r.required_emv_tags.deep_view() =~= spec_required_emv_tags(tx_type));
                assert(r.optional_emv_tags.deep_view() =~= spec_optional_emv_tags(tx_type));
                assert(r.de55_required_tags.deep_view() =~= spec_de55_required_tags(tx_type));
            }
            Some(r)
        },
        TransactionType::PreAuth => {
            let mut required_iso_des: Vec<u8> = Vec::new();
        required_iso_des.push(2);
        required_iso_des.push(3);
        required_iso_des.push(4);
        required_iso_des.push(11);
        required_iso_des.push(12);
        required_iso_des.push(13);
        required_iso_des.push(14);
        required_iso_des.push(22);
        required_iso_des.push(23);
        required_iso_des.push(25);
        required_iso_des.push(35);
        required_iso_des.push(41);
        required_iso_des.push(42);
        required_iso_des.push(49);
        required_iso_des.push(55);
            let mut optional_iso_des: Vec<u8> = Vec::new();
        optional_iso_des.push(32);
        optional_iso_des.push(37);
        optional_iso_des.push(38);
        optional_iso_des.push(39);
        optional_iso_des.push(43);
        optional_iso_des.push(52);
        optional_iso_des.push(54);
            let mut required_emv_tags: Vec<&'static str> = Vec::new();
        required_emv_tags.push("5A");
        required_emv_tags.push("5F24");
        required_emv_tags.push("9F26");
        required_emv_tags.push("9F27");
        required_emv_tags.push("9F10");
        required_emv_tags.push("9F36");
        required_emv_tags.push("9F37");
        required_emv_tags.push("95");
            let mut optional_emv_tags: Vec<&'static str> = Vec::new();
        optional_emv_tags.push("5F20");
        optional_emv_tags.push("5F34");
        optional_emv_tags.push("9F33");
        optional_emv_tags.push("9F34");
        optional_emv_tags.push("9F35");
            let mut de55_required_tags: Vec<&'static str> = Vec::new();
        de55_required_tags.push("9F26");
        de55_required_tags.push("9F27");
        de55_required_tags.push("9F10");
        de55_required_tags.push("9F37");
        de55_required_tags.push("9F36");
        de55_required_tags.push("95");
        de55_required_tags.push("9A");
        de55_required_tags.push("9C");
        de55_required_tags.push("9F02");
        de55_required_tags.push("5F2A");
        de55_required_tags.push("82");
        de55_required_tags.push("9F1A");
        de55_required_tags.push("9F34");
        de55_required_tags.push("9F33");
        de55_required_tags.push("4F");
        de55_required_tags.push("84");
            let r = TransactionProfile {
                transaction_type: tx_type,
                name: "Pre-Authorization",
                description: "Pre-authorization hold transaction",
                required_iso_des,
                optional_iso_des,
                required_emv_tags,
                optional_emv_tags,
                de55_required_tags,
            };
            proof {
                assert(r.required_iso_des@ =~= spec_required_iso_des(tx_type));
                assert(r.optional_iso_des@ =~= spec_optional_iso_des(tx_type));
                assert(r.required_emv_tags.deep_view() =~= spec_required_emv_tags(tx_type));
                assert(r.optional_emv_tags.deep_view() =~= spec_optional_emv_tags(tx_type));
                assert(r.de55_required_tags.deep_view() =~= spec_de55_required_tags(tx_type));
            }
            Some(r)
        },
        TransactionType::Void => {
            let mut required_iso_des: Vec<u8> = Vec::new();
        required_iso_des.push(2);
        required_iso_des.push(3);
        required_iso_des.push(4);
        required_iso_des.push(11);
        required_iso_des.push(12);
        required_iso_des.push(13);
        required_iso_des.push(22);
        required_iso_des.push(25);
        required_iso_des.push(37);
        required_iso_des.push(38);
        required_iso_des.push(41);
        required_iso_des.push(42);
        required_iso_des.push(49);
            let mut optional_iso_des: Vec<u8> = Vec::new();
        optional_iso_des.push(14);
        optional_iso_des.push(23);
        optional_iso_des.push(32);
        optional_iso_des.push(35);
        optional_iso_des.push(39);
        optional_iso_des.push(43);
        optional_iso_des.push(55);
            let mut required_emv_tags: Vec<&'static str> = Vec::new();
        required_emv_tags.push("5A");
            let mut optional_emv_tags: Vec<&'static str> = Vec::new();
        optional_emv_tags.push("5F24");
        optional_emv_tags.push("9F26");
        optional_emv_tags.push("9F27");
        optional_emv_tags.push("9F10");
        optional_emv_tags.push("9F36");
        optional_emv_tags.push("95");
            let mut de55_required_tags: Vec<&'static str> = Vec::new();
        de55_required_tags.push("4F");
        de55_required_tags.push("9A");
        de55_required_tags.push("9C");
        de55_required_tags.push("9F02");
        de55_required_tags.push("5F2A");
        de55_required_tags.push("9F1A");
            let r = TransactionProfile {
                transaction_type: tx_type,
                name: "Void",
                description: "Void/Cancel transaction",
                required_iso_des,
                optional_iso_des,
                required_emv_tags,
                optional_emv_tags,
                de55_required_tags,
            };
            proof {
                assert(r.required_iso_des@ =~= spec_required_iso_des(tx_type));
                assert(r.optional_iso_des@ =~= spec_optional_iso_des(tx_type));
                assert(r.required_emv_tags.deep_view() =~= spec_required_emv_tags(tx_type));
                assert(r.optional_emv_tags.deep_view() =~= spec_optional_emv_tags(tx_type));
                assert(r.de55_required_tags.deep_view() =~= spec_de55_required_tags(tx_type));
            }
            Some(r)
        },
        TransactionType::QrPayment => {
            let mut required_iso_des: Vec<u8> = Vec::new();
        required_iso_des.push(3);
        required_iso_des.push(4);
        required_iso_des.push(11);
        required_iso_des.push(12);
        required_iso_des.push(13);
        required_iso_des.push(25);
        required_iso_des.push(41);
        required_iso_des.push(42);
        required_iso_des.push(49);
            let mut optional_iso_des: Vec<u8> = Vec::new();
        optional_iso_des.push(2);
        optional_iso_des.push(32);
        optional_iso_des.push(37);
        optional_iso_des.push(38);
        optional_iso_des.push(39);
        optional_iso_des.push(43);
        optional_iso_des.push(102);
        optional_iso_des.push(103);
            let mut required_emv_tags: Vec<&'static str> = Vec::new();
            let mut optional_emv_tags: Vec<&'static str> = Vec::new();
            let mut de55_required_tags: Vec<&'static str> = Vec::new();
            let r = TransactionProfile {
                transaction_type: tx_type,
                name: "QR Payment",
                description: "QR code based payment (VietQR, etc.)",
                required_iso_des,
                optional_iso_des,
                required_emv_tags,
                optional_emv_tags,
                de55_required_tags,
            };
            proof {
                assert(r.required_iso_des@ =~= spec_required_iso_des(tx_type));
                assert(r.optional_iso_des@ =~= spec_optional_iso_des(tx_type));
                assert(r.required_emv_tags.deep_view() =~= spec_required_emv_tags(tx_type));
                assert(r.optional_emv_tags.deep_view() =~= spec_optional_emv_tags(tx_type));
                assert(r.de55_required_tags.deep_view() =~= spec_de55_required_tags(tx_type));
            }
            Some(r)
        },
        _ => None,
    }
}

/// Every profile the engine defines.
pub fn get_all_profiles() -> (r: Vec<TransactionProfile>)
    ensures
        r@.len() == 7,
{
    let mut r: Vec<TransactionProfile> = Vec::new();
    if let Some(p) = get_profile(TransactionType::Purchase) {
        r.push(p);
    }
    if let Some(p) = get_profile(TransactionType::CashWithdrawal) {
        r.push(p);
    }
    if let Some(p) = get_profile(TransactionType::BalanceInquiry) {
        r.push(p);
    }
    if let Some(p) = get_profile(TransactionType::Refund) {
        r.push(p);
    }
    if let Some(p) = get_profile(TransactionType::PreAuth) {
        r.push(p);
    }
    if let Some(p) = get_profile(TransactionType::Void) {
        r.push(p);
    }
    if let Some(p) = get_profile(TransactionType::QrPayment) {
        r.push(p);
    }
    r
}


/// A field set validated against a profile.
#[derive(Debug)]
pub struct ValidationResult {
    pub is_valid: bool,
    pub missing_iso_des: Vec<u8>,
    pub missing_emv_tags: Vec<String>,
    pub warnings: Vec<String>,
}

/// The required entries absent from the present set, in profile order.
pub open spec fn spec_missing_u8(req: Seq<u8>, present: Seq<u8>) -> Seq<u8>
    decreases req.len(),
{
    if req.len() == 0 {
        Seq::empty()
    } else {
        let rest = spec_missing_u8(req.drop_last(), present);
        if present.contains(req.last()) {
            rest
        } else {
            rest.push(req.last())
        }
    }
}

/// The required tags absent from the present set, in profile order.
pub open spec fn spec_missing_tags(req: Seq<Seq<char>>, present: Seq<Seq<char>>) -> Seq<Seq<char>>
    decreases req.len(),
{
    if req.len() == 0 {
        Seq::empty()
    } else {
        let rest = spec_missing_tags(req.drop_last(), present);
        if present.contains(req.last()) {
            rest
        } else {
            rest.push(req.last())
        }
    }
}

/// Decimal digit count of a data element number.
pub open spec fn spec_dec_width(n: int) -> int {
    if n < 10 {
        1
    } else if n < 100 {
        2
    } else {
        3
    }
}

/// The warning text for an absent optional element.
pub open spec fn spec_warning_text(d: int) -> Seq<char> {
    "Optional DE"@ + dec_seq(d, spec_dec_width(d)) + " is missing"@
}

/// One warning per absent optional element, in profile order.
pub open spec fn spec_warnings(optional: Seq<u8>, present: Seq<u8>) -> Seq<Seq<char>>
    decreases optional.len(),
{
    if optional.len() == 0 {
        Seq::empty()
    } else {
        let rest = spec_warnings(optional.drop_last(), present);
        if present.contains(optional.last()) {
            rest
        } else {
            rest.push(spec_warning_text(optional.last() as int))
        }
    }
}

/// Whether a byte list holds a value.
fn contains_u8(v: &Vec<u8>, x: u8) -> (r: bool)
    ensures
        r == v@.contains(x),
{
    let mut i: usize = 0;
    while i < v.len()
        invariant
            i <= v@.len(),
            forall|j: int| 0 <= j < i ==> v@[j] != x,
        decreases v@.len() - i,
    {
        if v[i] == x {
            return true;
        }
        i = i + 1;
    }
    proof {
        assert(!v@.contains(x));
    }
    false
}

/// Whether a text list holds a value.
fn contains_text(v: &Vec<String>, s: &str) -> (r: bool)
    ensures
        r == v.deep_view().contains(s@),
{
    let mut i: usize = 0;
    while i < v.len()
        invariant
            i <= v@.len(),
            forall|j: int| 0 <= j < i ==> v.deep_view()[j] != s@,
        decreases v@.len() - i,
    {
        if crate::strutil::str_eq(v[i].as_str(), s) {
            proof {
                assert(v.deep_view()[i as int] == s@);
            }
            return true;
        }
        i = i + 1;
    }
    proof {
        assert(!v.deep_view().contains(s@));
    }
    false
}

/// A data element number in no more digits than it needs.
fn de_number_text(d: u8) -> (r: String)
    ensures
        r@ == dec_seq(d as int, spec_dec_width(d as int)),
{
    proof {
        assert(crate::strutil::pow10(0) == 1);
        assert(crate::strutil::pow10(1) == 10);
        assert(crate::strutil::pow10(2) == 100);
        assert(crate::strutil::pow10(3) == 1000);
    }
    if d < 10 {
        crate::strutil::format_dec(d as u64, 1)
    } else if d < 100 {
        crate::strutil::format_dec(d as u64, 2)
    } else {
        crate::strutil::format_dec(d as u64, 3)
    }
}

/// Validate a present field set against the profile of a type: every
/// required element and tag must be there; absent optional elements only
/// warn.  An unprofiled type is invalid with a single warning.
pub fn validate_transaction_fields(
    tx_type: TransactionType,
    present_iso_des: &Vec<u8>,
    present_emv_tags: &Vec<String>,
) -> (r: ValidationResult)
    ensures
        !spec_has_profile(tx_type) ==> {
            &&& !r.is_valid
            &&& r.missing_iso_des@ == Seq::<u8>::empty()
            &&& r.missing_emv_tags.deep_view() == Seq::<Seq<char>>::empty()
            &&& r.warnings.deep_view() == seq!["Unknown transaction type"@]
        },
        spec_has_profile(tx_type) ==> {
            &&& r.missing_iso_des@ == spec_missing_u8(
                spec_required_iso_des(tx_type),
                present_iso_des@,
            )
            &&& r.missing_emv_tags.deep_view() == spec_missing_tags(
                spec_required_emv_tags(tx_type),
                present_emv_tags.deep_view(),
            )
            &&& r.warnings.deep_view() == spec_warnings(
                spec_optional_iso_des(tx_type),
                present_iso_des@,
            )
            &&& r.is_valid == (r.missing_iso_des@.len() == 0 && r.missing_emv_tags@.len() == 0)
        },
{
    let profile = match get_profile(tx_type) {
        Some(p) => p,
        None => {
            let mut warnings: Vec<String> = Vec::new();
            warnings.push("Unknown transaction type".to_owned());
            let r = ValidationResult {
                is_valid: false,
                missing_iso_des: Vec::new(),
                missing_emv_tags: Vec::new(),
                warnings,
            };
            proof {
                assert(r.missing_iso_des@ =~= Seq::<u8>::empty());
                assert(r.missing_emv_tags.deep_view() =~= Seq::<Seq<char>>::empty());
                assert(r.warnings.deep_view() =~= seq!["Unknown transaction type"@]);
            }
            return r;
        },
    };
    let ghost req = spec_required_iso_des(tx_type);
    let mut missing_iso: Vec<u8> = Vec::new();
    let mut i: usize = 0;
    while i < profile.required_iso_des.len()
        invariant
            req == profile.required_iso_des@,
            i <= req.len(),
            missing_iso@ == spec_missing_u8(req.take(i as int), present_iso_des@),
        decreases req.len() - i,
    {
        let d = profile.required_iso_des[i];
        proof {
            assert(req.take(i + 1).drop_last() =~= req.take(i as int));
        }
        if !contains_u8(present_iso_des, d) {
            missing_iso.push(d);
        }
        i = i + 1;
    }
    proof {
        assert(req.take(req.len() as int) =~= req);
    }
    let ghost reqt = spec_required_emv_tags(tx_type);
    let mut missing_emv: Vec<String> = Vec::new();
    let mut i: usize = 0;
    while i < profile.required_emv_tags.len()
        invariant
            reqt == profile.required_emv_tags.deep_view(),
            i <= reqt.len(),
            missing_emv.deep_view() == spec_missing_tags(
                reqt.take(i as int),
                present_emv_tags.deep_view(),
            ),
        decreases reqt.len() - i,
    {
        let t = profile.required_emv_tags[i];
        proof {
            assert(reqt.take(i + 1).drop_last() =~= reqt.take(i as int));
            assert(reqt.take(i + 1).last() == t@);
        }
        if !contains_text(present_emv_tags, t) {
            let ghost before = missing_emv.deep_view();
            missing_emv.push(t.to_owned());
            proof {
                assert(missing_emv.deep_view() =~= before.push(t@));
            }
        }
        i = i + 1;
    }
    proof {
        assert(reqt.take(reqt.len() as int) =~= reqt);
    }
    let ghost opt = spec_optional_iso_des(tx_type);
    let mut warnings: Vec<String> = Vec::new();
    let mut i: usize = 0;
    while i < profile.optional_iso_des.len()
        invariant
            opt == profile.optional_iso_des@,
            i <= opt.len(),
            warnings.deep_view() == spec_warnings(opt.take(i as int), present_iso_des@),
        decreases opt.len() - i,
    {
        let d = profile.optional_iso_des[i];
        proof {
            assert(opt.take(i + 1).drop_last() =~= opt.take(i as int));
        }
        if !contains_u8(present_iso_des, d) {
            let ghost before = warnings.deep_view();
            let text = "Optional DE".to_owned().concat(de_number_text(d).as_str()).concat(
                " is missing",
            );
            proof {
                assert(text@ =~= spec_warning_text(d as int));
            }
            warnings.push(text);
            proof {
                assert(warnings.deep_view() =~= before.push(spec_warning_text(d as int)));
            }
        }
        i = i + 1;
    }
    proof {
        assert(opt.take(opt.len() as int) =~= opt);
    }
    let is_valid = missing_iso.len() == 0 && missing_emv.len() == 0;
    ValidationResult { is_valid, missing_iso_des: missing_iso, missing_emv_tags: missing_emv, warnings }
}

/// The transaction kinds a terminal names on the wire.
#[derive(Debug, Clone, Copy, PartialEq, Eq, Hash, Structural)]
pub enum TcpTransactionType {
    Sale,
    Void,
    Reversal,
    Qr,
}

impl TcpTransactionType {
    /// Parse a terminal's transaction kind, letter case ignored.
    pub fn from_str(value: &str) -> (r: Result<TcpTransactionType, String>)
        ensures
            upper(value@) == "SALE"@ <==> r == Ok::<TcpTransactionType, String>(
                TcpTransactionType::Sale,
            ),
            upper(value@) == "VOID"@ <==> r == Ok::<TcpTransactionType, String>(
                TcpTransactionType::Void,
            ),
            upper(value@) == "REVERSAL"@ <==> r == Ok::<TcpTransactionType, String>(
                TcpTransactionType::Reversal,
            ),
            upper(value@) == "QR"@ <==> r == Ok::<TcpTransactionType, String>(
                TcpTransactionType::Qr,
            ),
    {
        proof {
            reveal_strlit("SALE");
            reveal_strlit("VOID");
            reveal_strlit("REVERSAL");
            reveal_strlit("QR");
            assert(upper("SALE"@) =~= "SALE"@);
            assert(upper("VOID"@) =~= "VOID"@);
            assert(upper("REVERSAL"@) =~= "REVERSAL"@);
            assert(upper("QR"@) =~= "QR"@);
            assert("SALE"@[0] == 'S' && "VOID"@[0] == 'V' && "REVERSAL"@[0] == 'R' && "QR"@[0]
                == 'Q');
            assert("SALE"@ != "VOID"@ && "SALE"@ != "REVERSAL"@ && "SALE"@ != "QR"@);
            assert("VOID"@ != "REVERSAL"@ && "VOID"@ != "QR"@ && "REVERSAL"@ != "QR"@);
        }
        if crate::strutil::str_eq_ignore_case(value, "SALE") {
            Ok(TcpTransactionType::Sale)
        } else if crate::strutil::str_eq_ignore_case(value, "VOID") {
            Ok(TcpTransactionType::Void)
        } else if crate::strutil::str_eq_ignore_case(value, "REVERSAL") {
            Ok(TcpTransactionType::Reversal)
        } else if crate::strutil::str_eq_ignore_case(value, "QR") {
            Ok(TcpTransactionType::Qr)
        } else {
            Err("Unsupported TCP transactionType".to_owned())
        }
    }

    /// The profiled type a wire kind stands for.
    pub fn to_internal(self) -> (r: TransactionType)
        ensures
            self == TcpTransactionType::Sale ==> r == TransactionType::Purchase,
            self == TcpTransactionType::Void ==> r == TransactionType::Void,
            self == TcpTransactionType::Reversal ==> r == TransactionType::Reversal,
            self == TcpTransactionType::Qr ==> r == TransactionType::QrPayment,
    {
        match self {
            TcpTransactionType::Sale => TransactionType::Purchase,
            TcpTransactionType::Void => TransactionType::Void,
            TcpTransactionType::Reversal => TransactionType::Reversal,
            TcpTransactionType::Qr => TransactionType::QrPayment,
        }
    }
}

/// EMV tag sets of one message profile.
#[derive(Debug, Clone)]
pub struct EmvProfile {
    pub allowed_tags: Vec<&'static str>,
    pub mandatory_tags: Vec<&'static str>,
}

/// A message profile keyed by the transaction type text.
#[derive(Debug, Clone)]
pub struct IsoMessageProfile {
    pub name: &'static str,
    pub mti: &'static str,
    pub tr_type: &'static str,
    pub required_fields: Vec<u16>,
    pub optional_fields: Vec<u16>,
    pub emv_profile: Option<EmvProfile>,
}

/// The "PURCHASE" message profile.
fn purchase_profile() -> (r: IsoMessageProfile)
    ensures
        r.name@ == "PURCHASE"@,
        r.mti@ == "0200"@,
        r.tr_type@ == "00"@,
        r.required_fields@ == seq![2u16, 3u16, 4u16, 11u16, 12u16, 13u16, 14u16, 22u16, 23u16, 25u16, 35u16, 41u16, 42u16, 49u16, 55u16],
        r.optional_fields@ == seq![32u16, 37u16, 38u16, 39u16, 43u16, 52u16, 54u16],
        r.emv_profile is Some,
{
    let mut required_fields: Vec<u16> = Vec::new();
            required_fields.push(2);
            required_fields.push(3);
            required_fields.push(4);
            required_fields.push(11);
            required_fields.push(12);
            required_fields.push(13);
            required_fields.push(14);
            required_fields.push(22);
            required_fields.push(23);
            required_fields.push(25);
            required_fields.push(35);
            required_fields.push(41);
            required_fields.push(42);
            required_fields.push(49);
            required_fields.push(55);
    let mut optional_fields: Vec<u16> = Vec::new();
            optional_fields.push(32);
            optional_fields.push(37);
            optional_fields.push(38);
            optional_fields.push(39);
            optional_fields.push(43);
            optional_fields.push(52);
            optional_fields.push(54);
            let mut allowed_tags: Vec<&'static str> = Vec::new();
            allowed_tags.push("4F");
            allowed_tags.push("50");
            allowed_tags.push("57");
            allowed_tags.push("5A");
            allowed_tags.push("5F20");
            allowed_tags.push("5F24");
            allowed_tags.push("5F2A");
            allowed_tags.push("5F34");
            allowed_tags.push("82");
            allowed_tags.push("84");
            allowed_tags.push("8C");
            allowed_tags.push("8D");
            allowed_tags.push("8E");
            allowed_tags.push("94");
            allowed_tags.push("95");
            allowed_tags.push("9A");
            allowed_tags.push("9C");
            allowed_tags.push("9F02");
            allowed_tags.push("9F03");
            allowed_tags.push("9F06");
            allowed_tags.push("9F09");
            allowed_tags.push("9F10");
            allowed_tags.push("9F1A");
            allowed_tags.push("9F1E");
            allowed_tags.push("9F26");
            allowed_tags.push("9F27");
            allowed_tags.push("9F33");
            allowed_tags.push("9F34");
            allowed_tags.push("9F35");
            allowed_tags.push("9F36");
            allowed_tags.push("9F37");
            let mut mandatory_tags: Vec<&'static str> = Vec::new();
            mandatory_tags.push("9F26");
            mandatory_tags.push("9F27");
            mandatory_tags.push("9F10");
            mandatory_tags.push("9F36");
            mandatory_tags.push("9F37");
            mandatory_tags.push("95");
            mandatory_tags.push("9A");
            mandatory_tags.push("9C");
            mandatory_tags.push("9F02");
            mandatory_tags.push("5F2A");
            mandatory_tags.push("9F1A");
            let emv_profile = Some(EmvProfile { allowed_tags, mandatory_tags });
    let r = IsoMessageProfile {
        name: "PURCHASE",
        mti: "0200",
        tr_type: "00",
        required_fields,
        optional_fields,
        emv_profile,
    };
    proof {
        assert(r.required_fields@ =~= seq![2u16, 3u16, 4u16, 11u16, 12u16, 13u16, 14u16, 22u16, 23u16, 25u16, 35u16, 41u16, 42u16, 49u16, 55u16]);
        assert(r.optional_fields@ =~= seq![32u16, 37u16, 38u16, 39u16, 43u16, 52u16, 54u16]);
    }
    r
}

/// The "CASH_WITHDRAWAL" message profile.
fn cash_withdrawal_profile() -> (r: IsoMessageProfile)
    ensures
        r.name@ == "CASH_WITHDRAWAL"@,
        r.mti@ == "0200"@,
        r.tr_type@ == "01"@,
        r.required_fields@ == seq![2u16, 3u16, 4u16, 11u16, 12u16, 13u16, 14u16, 22u16, 23u16, 25u16, 35u16, 41u16, 42u16, 49u16, 52u16, 55u16],
        r.optional_fields@ == seq![32u16, 37u16, 38u16, 39u16, 43u16, 54u16],
        r.emv_profile is Some,
{
    let mut required_fields: Vec<u16> = Vec::new();
            required_fields.push(2);
            required_fields.push(3);
            required_fields.push(4);
            required_fields.push(11);
            required_fields.push(12);
            required_fields.push(13);
            required_fields.push(14);
            required_fields.push(22);
            required_fields.push(23);
            required_fields.push(25);
            required_fields.push(35);
            required_fields.push(41);
            required_fields.push(42);
            required_fields.push(49);
            required_fields.push(52);
            required_fields.push(55);
    let mut optional_fields: Vec<u16> = Vec::new();
            optional_fields.push(32);
            optional_fields.push(37);
            optional_fields.push(38);
            optional_fields.push(39);
            optional_fields.push(43);
            optional_fields.push(54);
            let mut allowed_tags: Vec<&'static str> = Vec::new();
            allowed_tags.push("4F");
            allowed_tags.push("57");
            allowed_tags.push("5A");
            allowed_tags.push("5F24");
            allowed_tags.push("5F2A");
            allowed_tags.push("5F34");
            allowed_tags.push("82");
            allowed_tags.push("84");
            allowed_tags.push("95");
            allowed_tags.push("9A");
            allowed_tags.push("9C");
            allowed_tags.push("9F02");
            allowed_tags.push("9F10");
            allowed_tags.push("9F1A");
            allowed_tags.push("9F26");
            allowed_tags.push("9F27");
            allowed_tags.push("9F33");
            allowed_tags.push("9F34");
            allowed_tags.push("9F35");
            allowed_tags.push("9F36");
            allowed_tags.push("9F37");
            let mut mandatory_tags: Vec<&'static str> = Vec::new();
            mandatory_tags.push("9F26");
            mandatory_tags.push("9F27");
            mandatory_tags.push("9F10");
            mandatory_tags.push("9F36");
            mandatory_tags.push("9F37");
            mandatory_tags.push("95");
            mandatory_tags.push("9A");
            mandatory_tags.push("9C");
            mandatory_tags.push("9F02");
            mandatory_tags.push("5F2A");
            mandatory_tags.push("9F1A");
            let emv_profile = Some(EmvProfile { allowed_tags, mandatory_tags });
    let r = IsoMessageProfile {
        name: "CASH_WITHDRAWAL",
        mti: "0200",
        tr_type: "01",
        required_fields,
        optional_fields,
        emv_profile,
    };
    proof {
        assert(r.required_fields@ =~= seq![2u16, 3u16, 4u16, 11u16, 12u16, 13u16, 14u16, 22u16, 23u16, 25u16, 35u16, 41u16, 42u16, 49u16, 52u16, 55u16]);
        assert(r.optional_fields@ =~= seq![32u16, 37u16, 38u16, 39u16, 43u16, 54u16]);
    }
    r
}

/// The "BALANCE_INQUIRY" message profile.
fn balance_inquiry_profile() -> (r: IsoMessageProfile)
    ensures
        r.name@ == "BALANCE_INQUIRY"@,
        r.mti@ == "0200"@,
        r.tr_type@ == "31"@,
        r.required_fields@ == seq![2u16, 3u16, 11u16, 12u16, 13u16, 14u16, 22u16, 35u16, 41u16, 42u16, 49u16],
        r.optional_fields@ == seq![23u16, 25u16, 32u16, 37u16, 38u16, 39u16, 43u16, 52u16, 54u16, 55u16],
        r.emv_profile is None,
{
    let mut required_fields: Vec<u16> = Vec::new();
            required_fields.push(2);
            required_fields.push(3);
            required_fields.push(11);
            required_fields.push(12);
            required_fields.push(13);
            required_fields.push(14);
            required_fields.push(22);
            required_fields.push(35);
            required_fields.push(41);
            required_fields.push(42);
            required_fields.push(49);
    let mut optional_fields: Vec<u16> = Vec::new();
            optional_fields.push(23);
            optional_fields.push(25);
            optional_fields.push(32);
            optional_fields.push(37);
            optional_fields.push(38);
            optional_fields.push(39);
            optional_fields.push(43);
            optional_fields.push(52);
            optional_fields.push(54);
            optional_fields.push(55);
            let emv_profile: Option<EmvProfile> = None;
    let r = IsoMessageProfile {
        name: "BALANCE_INQUIRY",
        mti: "0200",
        tr_type: "31",
        required_fields,
        optional_fields,
        emv_profile,
    };
    proof {
        assert(r.required_fields@ =~= seq![2u16, 3u16, 11u16, 12u16, 13u16, 14u16, 22u16, 35u16, 41u16, 42u16, 49u16]);
        assert(r.optional_fields@ =~= seq![23u16, 25u16, 32u16, 37u16, 38u16, 39u16, 43u16, 52u16, 54u16, 55u16]);
    }
    r
}

/// The "REFUND" message profile.
fn refund_profile() -> (r: IsoMessageProfile)
    ensures
        r.name@ == "REFUND"@,
        r.mti@ == "0200"@,
        r.tr_type@ == "20"@,
        r.required_fields@ == seq![2u16, 3u16, 4u16, 11u16, 12u16, 13u16, 14u16, 22u16, 25u16, 35u16, 37u16, 41u16, 42u16, 49u16],
        r.optional_fields@ == seq![23u16, 32u16, 38u16, 39u16, 43u16, 55u16],
        r.emv_profile is None,
{
    let mut required_fields: Vec<u16> = Vec::new();
            required_fields.push(2);
            required_fields.push(3);
            required_fields.push(4);
            required_fields.push(11);
            required_fields.push(12);
            required_fields.push(13);
            required_fields.push(14);
            required_fields.push(22);
            required_fields.push(25);
            required_fields.push(35);
            required_fields.push(37);
            required_fields.push(41);
            required_fields.push(42);
            required_fields.push(49);
    let mut optional_fields: Vec<u16> = Vec::new();
            optional_fields.push(23);
            optional_fields.push(32);
            optional_fields.push(38);
            optional_fields.push(39);
            optional_fields.push(43);
            optional_fields.push(55);
            let emv_profile: Option<EmvProfile> = None;
    let r = IsoMessageProfile {
        name: "REFUND",
        mti: "0200",
        tr_type: "20",
        required_fields,
        optional_fields,
        emv_profile,
    };
    proof {
        assert(r.required_fields@ =~= seq![2u16, 3u16, 4u16, 11u16, 12u16, 13u16, 14u16, 22u16, 25u16, 35u16, 37u16, 41u16, 42u16, 49u16]);
        assert(r.optional_fields@ =~= seq![23u16, 32u16, 38u16, 39u16, 43u16, 55u16]);
    }
    r
}

/// The "PRE_AUTH" message profile.
fn pre_auth_profile() -> (r: IsoMessageProfile)
    ensures
        r.name@ == "PRE_AUTH"@,
        r.mti@ == "0100"@,
        r.tr_type@ == "00"@,
        r.required_fields@ == seq![2u16, 3u16, 4u16, 11u16, 12u16, 13u16, 14u16, 22u16, 23u16, 25u16, 35u16, 41u16, 42u16, 49u16, 55u16],
        r.optional_fields@ == seq![32u16, 37u16, 38u16, 39u16, 43u16, 52u16, 54u16],
        r.emv_profile is Some,
{
    let mut required_fields: Vec<u16> = Vec::new();
            required_fields.push(2);
            required_fields.push(3);
            required_fields.push(4);
            required_fields.push(11);
            required_fields.push(12);
            required_fields.push(13);
            required_fields.push(14);
            required_fields.push(22);
            required_fields.push(23);
            required_fields.push(25);
            required_fields.push(35);
            required_fields.push(41);
            required_fields.push(42);
            required_fields.push(49);
            required_fields.push(55);
    let mut optional_fields: Vec<u16> = Vec::new();
            optional_fields.push(32);
            optional_fields.push(37);
            optional_fields.push(38);
            optional_fields.push(39);
            optional_fields.push(43);
            optional_fields.push(52);
            optional_fields.push(54);
            let mut allowed_tags: Vec<&'static str> = Vec::new();
            allowed_tags.push("4F");
            allowed_tags.push("57");
            allowed_tags.push("5A");
            allowed_tags.push("5F24");
            allowed_tags.push("5F2A");
            allowed_tags.push("5F34");
            allowed_tags.push("82");
            allowed_tags.push("84");
            allowed_tags.push("95");
            allowed_tags.push("9A");
            allowed_tags.push("9C");
            allowed_tags.push("9F02");
            allowed_tags.push("9F10");
            allowed_tags.push("9F1A");
            allowed_tags.push("9F26");
            allowed_tags.push("9F27");
            allowed_tags.push("9F33");
            allowed_tags.push("9F34");
            allowed_tags.push("9F35");
            allowed_tags.push("9F36");
            allowed_tags.push("9F37");
            let mut mandatory_tags: Vec<&'static str> = Vec::new();
            mandatory_tags.push("9F26");
            mandatory_tags.push("9F27");
            mandatory_tags.push("9F10");
            mandatory_tags.push("9F36");
            mandatory_tags.push("9F37");
            mandatory_tags.push("95");
            mandatory_tags.push("9A");
            mandatory_tags.push("9C");
            mandatory_tags.push("9F02");
            mandatory_tags.push("5F2A");
            mandatory_tags.push("9F1A");
            let emv_profile = Some(EmvProfile { allowed_tags, mandatory_tags });
    let r = IsoMessageProfile {
        name: "PRE_AUTH",
        mti: "0100",
        tr_type: "00",
        required_fields,
        optional_fields,
        emv_profile,
    };
    proof {
        assert(r.required_fields@ =~= seq![2u16, 3u16, 4u16, 11u16, 12u16, 13u16, 14u16, 22u16, 23u16, 25u16, 35u16, 41u16, 42u16, 49u16, 55u16]);
        assert(r.optional_fields@ =~= seq![32u16, 37u16, 38u16, 39u16, 43u16, 52u16, 54u16]);
    }
    r
}

/// The "VOID" message profile.
fn void_profile() -> (r: IsoMessageProfile)
    ensures
        r.name@ == "VOID"@,
        r.mti@ == "0400"@,
        r.tr_type@ == "00"@,
        r.required_fields@ == seq![2u16, 3u16, 4u16, 11u16, 12u16, 13u16, 22u16, 25u16, 37u16, 38u16, 41u16, 42u16, 49u16],
        r.optional_fields@ == seq![14u16, 23u16, 32u16, 35u16, 39u16, 43u16, 55u16],
        r.emv_profile is None,
{
    let mut required_fields: Vec<u16> = Vec::new();
            required_fields.push(2);
            required_fields.push(3);
            required_fields.push(4);
            required_fields.push(11);
            required_fields.push(12);
            required_fields.push(13);
            required_fields.push(22);
            required_fields.push(25);
            required_fields.push(37);
            required_fields.push(38);
            required_fields.push(41);
            required_fields.push(42);
            required_fields.push(49);
    let mut optional_fields: Vec<u16> = Vec::new();
            optional_fields.push(14);
            optional_fields.push(23);
            optional_fields.push(32);
            optional_fields.push(35);
            optional_fields.push(39);
            optional_fields.push(43);
            optional_fields.push(55);
            let emv_profile: Option<EmvProfile> = None;
    let r = IsoMessageProfile {
        name: "VOID",
        mti: "0400",
        tr_type: "00",
        required_fields,
        optional_fields,
        emv_profile,
    };
    proof {
        assert(r.required_fields@ =~= seq![2u16, 3u16, 4u16, 11u16, 12u16, 13u16, 22u16, 25u16, 37u16, 38u16, 41u16, 42u16, 49u16]);
        assert(r.optional_fields@ =~= seq![14u16, 23u16, 32u16, 35u16, 39u16, 43u16, 55u16]);
    }
    r
}

/// The "QR_PAYMENT" message profile.
fn qr_payment_profile() -> (r: IsoMessageProfile)
    ensures
        r.name@ == "QR_PAYMENT"@,
        r.mti@ == "0200"@,
        r.tr_type@ == "00"@,
        r.required_fields@ == seq![3u16, 4u16, 11u16, 12u16, 13u16, 25u16, 41u16, 42u16, 49u16],
        r.optional_fields@ == seq![2u16, 32u16, 37u16, 38u16, 39u16, 43u16, 102u16, 103u16],
        r.emv_profile is None,
{
    let mut required_fields: Vec<u16> = Vec::new();
            required_fields.push(3);
            required_fields.push(4);
            required_fields.push(11);
            required_fields.push(12);
            required_fields.push(13);
            required_fields.push(25);
            required_fields.push(41);
            required_fields.push(42);
            required_fields.push(49);
    let mut optional_fields: Vec<u16> = Vec::new();
            optional_fields.push(2);
            optional_fields.push(32);
            optional_fields.push(37);
            optional_fields.push(38);
            optional_fields.push(39);
            optional_fields.push(43);
            optional_fields.push(102);
            optional_fields.push(103);
            let emv_profile: Option<EmvProfile> = None;
    let r = IsoMessageProfile {
        name: "QR_PAYMENT",
        mti: "0200",
        tr_type: "00",
        required_fields,
        optional_fields,
        emv_profile,
    };
    proof {
        assert(r.required_fields@ =~= seq![3u16, 4u16, 11u16, 12u16, 13u16, 25u16, 41u16, 42u16, 49u16]);
        assert(r.optional_fields@ =~= seq![2u16, 32u16, 37u16, 38u16, 39u16, 43u16, 102u16, 103u16]);
    }
    r
}


/// The profile name an upper-cased type text selects, alias by alias in
/// the order the lookup tries them.
pub open spec fn spec_iso_profile_name(u: Seq<char>) -> Option<Seq<char>> {
    if u == "PURCHASE"@ || u == "00"@ {
        Some("PURCHASE"@)
    } else if u == "CASH_WITHDRAWAL"@ || u == "WITHDRAWAL"@ || u == "01"@ {
        Some("CASH_WITHDRAWAL"@)
    } else if u == "BALANCE_INQUIRY"@ || u == "BALANCE"@ || u == "31"@ {
        Some("BALANCE_INQUIRY"@)
    } else if u == "REFUND"@ || u == "RETURN"@ || u == "20"@ {
        Some("REFUND"@)
    } else if u == "PRE_AUTH"@ || u == "PREAUTH"@ || u == "AUTH"@ {
        Some("PRE_AUTH"@)
    } else if u == "VOID"@ || u == "REVERSAL"@ || u == "CANCEL"@ {
        Some("VOID"@)
    } else if u == "QR_PAYMENT"@ || u == "QR"@ || u == "VIETQR"@ {
        Some("QR_PAYMENT"@)
    } else {
        None
    }
}

/// The fixed header data of each named message profile.
pub open spec fn spec_iso_profile_contents(p: &IsoMessageProfile) -> bool {
    &&& (p.name@ == "PURCHASE"@ ==> p.mti@ == "0200"@ && p.tr_type@ == "00"@)
    &&& (p.name@ == "CASH_WITHDRAWAL"@ ==> p.mti@ == "0200"@ && p.tr_type@ == "01"@)
    &&& (p.name@ == "BALANCE_INQUIRY"@ ==> p.mti@ == "0200"@ && p.tr_type@ == "31"@)
    &&& (p.name@ == "REFUND"@ ==> p.mti@ == "0200"@ && p.tr_type@ == "20"@)
    &&& (p.name@ == "PRE_AUTH"@ ==> p.mti@ == "0100"@ && p.tr_type@ == "00"@)
    &&& (p.name@ == "VOID"@ ==> p.mti@ == "0400"@ && p.tr_type@ == "00"@)
    &&& (p.name@ == "QR_PAYMENT"@ ==> p.mti@ == "0200"@ && p.tr_type@ == "00"@)
}

/// The message profile a transaction type text names, letter case and
/// common aliases accepted.
pub fn get_profile_by_type(tr_type: &str) -> (r: Option<IsoMessageProfile>)
    ensures
        (match spec_iso_profile_name(upper(tr_type@)) {
            None => r is None,
            Some(nm) => r is Some && r->0.name@ == nm,
        }),
        r is Some ==> spec_iso_profile_contents(&r->0),
{
    proof {
        reveal_strlit("00");
        reveal_strlit("01");
        reveal_strlit("20");
        reveal_strlit("31");
        reveal_strlit("AUTH");
        reveal_strlit("BALANCE");
        reveal_strlit("BALANCE_INQUIRY");
        reveal_strlit("CANCEL");
        reveal_strlit("CASH_WITHDRAWAL");
        reveal_strlit("PREAUTH");
        reveal_strlit("PRE_AUTH");
        reveal_strlit("PURCHASE");
        reveal_strlit("QR");
        reveal_strlit("QR_PAYMENT");
        reveal_strlit("REFUND");
        reveal_strlit("RETURN");
        reveal_strlit("REVERSAL");
        reveal_strlit("VIETQR");
        reveal_strlit("VOID");
        reveal_strlit("WITHDRAWAL");
        assert(upper("00"@) =~= "00"@);
        assert(upper("01"@) =~= "01"@);
        assert(upper("20"@) =~= "20"@);
        assert(upper("31"@) =~= "31"@);
        assert(upper("AUTH"@) =~= "AUTH"@);
        assert(upper("BALANCE"@) =~= "BALANCE"@);
        assert(upper("BALANCE_INQUIRY"@) =~= "BALANCE_INQUIRY"@);
        assert(upper("CANCEL"@) =~= "CANCEL"@);
        assert(upper("CASH_WITHDRAWAL"@) =~= "CASH_WITHDRAWAL"@);
        assert(upper("PREAUTH"@) =~= "PREAUTH"@);
        assert(upper("PRE_AUTH"@) =~= "PRE_AUTH"@);
        assert(upper("PURCHASE"@) =~= "PURCHASE"@);
        assert(upper("QR"@) =~= "QR"@);
        assert(upper("QR_PAYMENT"@) =~= "QR_PAYMENT"@);
        assert(upper("REFUND"@) =~= "REFUND"@);
        assert(upper("RETURN"@) =~= "RETURN"@);
        assert(upper("REVERSAL"@) =~= "REVERSAL"@);
        assert(upper("VIETQR"@) =~= "VIETQR"@);
        assert(upper("VOID"@) =~= "VOID"@);
        assert(upper("WITHDRAWAL"@) =~= "WITHDRAWAL"@);
        assert("PURCHASE"@[0] == 'P' && "CASH_WITHDRAWAL"@[0] == 'C');
        assert("PURCHASE"@ != "CASH_WITHDRAWAL"@);
        assert("PURCHASE"@[0] == 'P' && "BALANCE_INQUIRY"@[0] == 'B');
        assert("PURCHASE"@ != "BALANCE_INQUIRY"@);
        assert("PURCHASE"@[0] == 'P' && "REFUND"@[0] == 'R');
        assert("PURCHASE"@ != "REFUND"@);
        assert("PURCHASE"@[1] == 'U' && "PRE_AUTH"@[1] == 'R');
        assert("PURCHASE"@ != "PRE_AUTH"@);
        assert("PURCHASE"@[0] == 'P' && "VOID"@[0] == 'V');
        assert("PURCHASE"@ != "VOID"@);
        assert("PURCHASE"@[0] == 'P' && "QR_PAYMENT"@[0] == 'Q');
        assert("PURCHASE"@ != "QR_PAYMENT"@);
        assert("CASH_WITHDRAWAL"@[0] == 'C' && "BALANCE_INQUIRY"@[0] == 'B');
        assert("CASH_WITHDRAWAL"@ != "BALANCE_INQUIRY"@);
        assert("CASH_WITHDRAWAL"@[0] == 'C' && "REFUND"@[0] == 'R');
        assert("CASH_WITHDRAWAL"@ != "REFUND"@);
        assert("CASH_WITHDRAWAL"@[0] == 'C' && "PRE_AUTH"@[0] == 'P');
        assert("CASH_WITHDRAWAL"@ != "PRE_AUTH"@);
        assert("CASH_WITHDRAWAL"@[0] == 'C' && "VOID"@[0] == 'V');
        assert("CASH_WITHDRAWAL"@ != "VOID"@);
        assert("CASH_WITHDRAWAL"@[0] == 'C' && "QR_PAYMENT"@[0] == 'Q');
        assert("CASH_WITHDRAWAL"@ != "QR_PAYMENT"@);
        assert("BALANCE_INQUIRY"@[0] == 'B' && "REFUND"@[0] == 'R');
        assert("BALANCE_INQUIRY"@ != "REFUND"@);
        assert("BALANCE_INQUIRY"@[0] == 'B' && "PRE_AUTH"@[0] == 'P');
        assert("BALANCE_INQUIRY"@ != "PRE_AUTH"@);
        assert("BALANCE_INQUIRY"@[0] == 'B' && "VOID"@[0] == 'V');
        assert("BALANCE_INQUIRY"@ != "VOID"@);
        assert("BALANCE_INQUIRY"@[0] == 'B' && "QR_PAYMENT"@[0] == 'Q');
        assert("BALANCE_INQUIRY"@ != "QR_PAYMENT"@);
        assert("REFUND"@[0] == 'R' && "PRE_AUTH"@[0] == 'P');
        assert("REFUND"@ != "PRE_AUTH"@);
        assert("REFUND"@[0] == 'R' && "VOID"@[0] == 'V');
        assert("REFUND"@ != "VOID"@);
        assert("REFUND"@[0] == 'R' && "QR_PAYMENT"@[0] == 'Q');
        assert("REFUND"@ != "QR_PAYMENT"@);
        assert("PRE_AUTH"@[0] == 'P' && "VOID"@[0] == 'V');
        assert("PRE_AUTH"@ != "VOID"@);
        assert("PRE_AUTH"@[0] == 'P' && "QR_PAYMENT"@[0] == 'Q');
        assert("PRE_AUTH"@ != "QR_PAYMENT"@);
        assert("VOID"@[0] == 'V' && "QR_PAYMENT"@[0] == 'Q');
        assert("VOID"@ != "QR_PAYMENT"@);
    }
    if crate::strutil::str_eq_ignore_case(tr_type, "PURCHASE") || crate::strutil::str_eq_ignore_case(tr_type, "00") {
        Some(purchase_profile())
    } else if crate::strutil::str_eq_ignore_case(tr_type, "CASH_WITHDRAWAL") || crate::strutil::str_eq_ignore_case(tr_type, "WITHDRAWAL") || crate::strutil::str_eq_ignore_case(tr_type, "01") {
        Some(cash_withdrawal_profile())
    } else if crate::strutil::str_eq_ignore_case(tr_type, "BALANCE_INQUIRY") || crate::strutil::str_eq_ignore_case(tr_type, "BALANCE") || crate::strutil::str_eq_ignore_case(tr_type, "31") {
        Some(balance_inquiry_profile())
    } else if crate::strutil::str_eq_ignore_case(tr_type, "REFUND") || crate::strutil::str_eq_ignore_case(tr_type, "RETURN") || crate::strutil::str_eq_ignore_case(tr_type, "20") {
        Some(refund_profile())
    } else if crate::strutil::str_eq_ignore_case(tr_type, "PRE_AUTH") || crate::strutil::str_eq_ignore_case(tr_type, "PREAUTH") || crate::strutil::str_eq_ignore_case(tr_type, "AUTH") {
        Some(pre_auth_profile())
    } else if crate::strutil::str_eq_ignore_case(tr_type, "VOID") || crate::strutil::str_eq_ignore_case(tr_type, "REVERSAL") || crate::strutil::str_eq_ignore_case(tr_type, "CANCEL") {
        Some(void_profile())
    } else if crate::strutil::str_eq_ignore_case(tr_type, "QR_PAYMENT") || crate::strutil::str_eq_ignore_case(tr_type, "QR") || crate::strutil::str_eq_ignore_case(tr_type, "VIETQR") {
        Some(qr_payment_profile())
    } else {
        None
    }
}

} // verus!
