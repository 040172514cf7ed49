//! The transaction orchestrator: from a terminal's request to the client
//! result.
//!
//! A request carries plain values (the amount already in minor units, the
//! chip data as hex text); the orchestrator draws a trace number, builds
//! the 0200 request message, derives the record to persist, applies the
//! responder's reply, and shapes the client-facing result.  Clock readings
//! and the simulated issuer's random draw are handed in as plain values;
//! persistence and transport stay outside the engine.

use vstd::prelude::*;

use crate::message::Iso8583Message;
use crate::response::{
    build_mock_response, spec_parse_response, MockDecision, ResponseCode, ResponseHandler,
};
use crate::stan::{spec_next_stan, StanGenerator};
use crate::strutil::{dec_seq, left_pad_zeros, right_pad_spaces};
use crate::tlv::{spec_lookup, spec_parse_tlvs, ParsedEmvData, TlvModel};
use crate::bitmap::strip_ws;
use crate::hexutil::{bytes_to_hex, hex_parse, valid_hex};
use crate::transaction::{
    spec_state_str, Iso8583Transaction, Timestamp, TransactionState,
};

verus! {

/// EMV chip data carried by a request: the content of data element 55 as
/// hex text.
#[derive(Debug, Clone)]
pub struct EmvData {
    pub de55: String,
    pub de55_length: Option<u32>,
}

/// The card-data envelope of a request.
#[derive(Debug, Clone)]
pub struct CardData {
    pub emv_data: EmvData,
}

/// One terminal request, as plain values.  The amount is in minor
/// currency units.
#[derive(Debug, Clone)]
pub struct CardRequest {
    pub msg_type: String,
    pub trm_id: String,
    pub transaction_id: String,
    pub amount_minor: u64,
    pub transaction_type: String,
    pub merchant_id: Option<String>,
    pub card_data: Option<CardData>,
    pub qr_data: Option<String>,
    pub additional_data: Option<String>,
}

impl CardRequest {
    /// The chip-data hex of the request, when it carries card data.
    pub fn get_de55(&self) -> (r: Option<&String>)
        ensures
            match self.card_data {
                Some(ref cd) => r is Some && r->0@ == cd.emv_data.de55@,
                None => r is None,
            },
    {
        match &self.card_data {
            Some(cd) => Some(&cd.emv_data.de55),
            None => None,
        }
    }

    /// The card data to feed the chip parser: the same hex text.
    pub fn get_card_data_string(&self) -> (r: Option<&String>)
        ensures
            match self.card_data {
                Some(ref cd) => r is Some && r->0@ == cd.emv_data.de55@,
                None => r is None,
            },
    {
        self.get_de55()
    }
}

/// The chip-data text a request carries, if any.
pub open spec fn spec_de55_text(req: &CardRequest) -> Option<Seq<char>> {
    match req.card_data {
        Some(cd) => Some(cd.emv_data.de55@),
        None => None,
    }
}

/// The parsed chip elements of a request, when the text parses.
pub open spec fn spec_emv_models(req: &CardRequest) -> Option<Seq<TlvModel>> {
    match spec_de55_text(req) {
        Some(t) => {
            if valid_hex(strip_ws(t)) {
                match spec_parse_tlvs(hex_parse(strip_ws(t))) {
                    Ok(ms) => Some(ms),
                    Err(_) => None,
                }
            } else {
                None
            }
        },
        None => None,
    }
}

/// The hex text a chip tag contributes to a message field, if the chip
/// data parses and holds the tag.
pub open spec fn spec_emv_tag_hex(req: &CardRequest, tag: Seq<char>) -> Option<Seq<char>> {
    match spec_emv_models(req) {
        Some(ms) => match spec_lookup(ms, tag) {
            Some(e) => Some(bytes_to_hex(e.value)),
            None => None,
        },
        None => None,
    }
}

/// The processing code a request keyword selects.
pub open spec fn spec_processing_code(msg_type: Seq<char>) -> Seq<char> {
    if msg_type == "SALE"@ || msg_type == "PURCHASE"@ {
        "000000"@
    } else if msg_type == "CASH_WITHDRAWAL"@ {
        "010000"@
    } else if msg_type == "BALANCE_INQUIRY"@ {
        "310000"@
    } else if msg_type == "REFUND"@ {
        "200000"@
    } else {
        "000000"@
    }
}

/// Failures of the orchestrator's own steps.
#[derive(Debug, Clone, PartialEq, Eq)]
pub enum ProcessError {
    /// The built message lacks its trace number.
    MissingStan,
}

/// The client-facing outcome of one transaction.
#[derive(Debug, Clone)]
pub struct TransactionResult {
    /// "APPROVED" or "DECLINED".
    pub status: String,
    pub transaction_id: String,
    pub terminal_id: String,
    pub stan: String,
    pub response_code: Option<String>,
    pub authorization_code: Option<String>,
    pub rrn: Option<String>,
    pub response_message: String,
    pub transaction_state: String,
    pub amount_minor: u64,
    pub timestamp: String,
}

/// Everything one processed transaction produced: the request message,
/// the record to persist, the reply, the resolved state, and the client
/// result.
#[derive(Debug, Clone)]
pub struct TransactionOutcome {
    pub request_msg: Iso8583Message,
    pub record: Iso8583Transaction,
    pub response_msg: Iso8583Message,
    pub state: TransactionState,
    pub response_code: Option<ResponseCode>,
    pub result: TransactionResult,
}

/// Drives the transaction lifecycle from request to result.
pub struct Iso8583TransactionService {
    stan_generator: StanGenerator,
}

impl Iso8583TransactionService {
    pub open spec fn wf(&self) -> bool {
        self.stan_gen().wf()
    }

    pub closed spec fn stan_gen(&self) -> &StanGenerator {
        &self.stan_generator
    }

    /// A service drawing trace numbers from its own generator.
    pub fn new(stan_generator: StanGenerator) -> (r: Iso8583TransactionService)
        requires
            stan_generator.wf(),
        ensures
            r.wf(),
    {
        Iso8583TransactionService { stan_generator }
    }

    /// Build the 0200 financial request from a terminal request: the
    /// processing code from the request keyword, the amount as twelve
    /// digits of minor units, clock fields, chip entry mode, terminal and
    /// merchant identifiers, the fixed currency, the chip data, and the
    /// card fields recovered by re-parsing that chip data.
    #[verifier::rlimit(100)]
    pub fn build_iso_message(
        &self,
        card_request: &CardRequest,
        stan: &str,
        now: &Timestamp,
    ) -> (r: Result<Iso8583Message, ProcessError>)
        requires
            card_request.amount_minor < 1000000000000,
        ensures
            r is Ok,
            r->Ok_0.wf(),
            r->Ok_0@.mti == "0200"@,
            r->Ok_0@.fields[3] == Some(spec_processing_code(card_request.msg_type@)),
            r->Ok_0@.fields[4] == Some(dec_seq(card_request.amount_minor as int, 12)),
            r->Ok_0@.fields[7] == Some(now.datetime10@),
            r->Ok_0@.fields[11] == Some(stan@),
            r->Ok_0@.fields[12] == Some(now.time6@),
            r->Ok_0@.fields[13] == Some(now.date4@),
            r->Ok_0@.fields[22] == Some("051"@),
            r->Ok_0@.fields[25] == Some("00"@),
            r->Ok_0@.fields[41] == Some(card_request.trm_id@),
            r->Ok_0@.fields[42] == (match card_request.merchant_id {
                Some(ref m) => Some(right_pad_spaces(m@, 15)),
                None => None::<Seq<char>>,
            }),
            r->Ok_0@.fields[49] == Some("704"@),
            r->Ok_0@.fields[55] == spec_de55_text(card_request),
            r->Ok_0@.fields[2] == spec_emv_tag_hex(card_request, "5A"@),
            r->Ok_0@.fields[14] == spec_emv_tag_hex(card_request, "5F24"@),
            r->Ok_0@.fields[23] == (match spec_emv_tag_hex(card_request, "5F34"@) {
                Some(p) => Some(left_pad_zeros(p, 3)),
                None => None::<Seq<char>>,
            }),
            forall|d: int|
                0 <= d < 129 && d != 2 && d != 3 && d != 4 && d != 7 && d != 11 && d != 12 && d
                    != 13 && d != 14 && d != 22 && d != 23 && d != 25 && d != 41 && d != 42 && d
                    != 49 && d != 55 ==> r->Ok_0@.fields[d] is None,
    {
        let mut msg = Iso8583Message::new("0200");
        let m = card_request.msg_type.as_str();
        let processing_code: &str = if crate::strutil::str_eq(m, "SALE")
            || crate::strutil::str_eq(m, "PURCHASE") {
            "000000"
        } else if crate::strutil::str_eq(m, "CASH_WITHDRAWAL") {
            "010000"
        } else if crate::strutil::str_eq(m, "BALANCE_INQUIRY") {
            "310000"
        } else if crate::strutil::str_eq(m, "REFUND") {
            "200000"
        } else {
            "000000"
        };
        msg.set_field(3, processing_code.to_owned());
        proof {
            assert(crate::strutil::pow10(12) == 1000000000000) by {
                crate::strutil::lemma_pow10_value_15();
                assert(crate::strutil::pow10(13) == 10 * crate::strutil::pow10(12));
                assert(crate::strutil::pow10(14) == 10 * crate::strutil::pow10(13));
                assert(crate::strutil::pow10(15) == 10 * crate::strutil::pow10(14));
            }
        }
        msg.set_field(4, crate::strutil::format_dec(card_request.amount_minor, 12));
        msg.set_field(7, now.datetime10.clone());
        msg.set_field(11, stan.to_owned());
        msg.set_field(12, now.time6.clone());
        msg.set_field(13, now.date4.clone());
        msg.set_field(22, "051".to_owned());
        msg.set_field(25, "00".to_owned());
        msg.set_field(41, card_request.trm_id.clone());
        if let Some(merchant_id) = &card_request.merchant_id {
            msg.set_field(42, crate::strutil::pad_right_spaces(merchant_id.as_str(), 15));
        }
        msg.set_field(49, "704".to_owned());
        if let Some(de55) = card_request.get_de55() {
            msg.set_field(55, de55.clone());
        }
        if let Some(card_data_str) = card_request.get_card_data_string() {
            match ParsedEmvData::from_de55(card_data_str.as_str()) {
                Ok(emv_data) => {
                    if let Some(pan) = emv_data.get_pan() {
                        msg.set_field(2, pan);
                    }
                    if let Some(expiry) = emv_data.get_expiry_date() {
                        msg.set_field(14, expiry);
                    }
                    if let Some(psn) = emv_data.get_value("5F34") {
                        msg.set_field(23, crate::strutil::pad_left_zeros(psn.as_str(), 3));
                    }
                },
                Err(_) => {},
            }
        }
        Ok(msg)
    }

    /// Derive the record to persist from the built message: keyed by the
    /// clock and the request's transaction number, carrying every message
    /// field the record supports plus the bitmap, in `Created` state.
    pub fn create_db_transaction(
        &self,
        msg: &Iso8583Message,
        card_request: &CardRequest,
        now: &Timestamp,
    ) -> (r: Result<Iso8583Transaction, ProcessError>)
        requires
            msg.wf(),
        ensures
            r is Ok <==> msg@.fields[11] is Some,
            r is Err ==> r->Err_0 == ProcessError::MissingStan,
            r is Ok ==> {
                let tx = r->Ok_0;
                &&& tx.wf()
                &&& tx@.tr_dt == now.date8@
                &&& tx@.tr_tm == now.time6@
                &&& tx@.tr_uniq_no == card_request.transaction_id@
                &&& tx@.trm_id == Some(card_request.trm_id@)
                &&& tx@.msg_typ == Some(msg@.mti)
                &&& tx@.tr_type == Some("CREATED"@)
                &&& tx@.inst_dtm == Some(now.datetime14@)
                &&& tx@.fields[0] == Some(msg@.mti)
                &&& tx@.fields[1] == Some(msg@.bitmap)
                &&& (forall|d: int|
                    2 <= d <= 128 && crate::transaction::supported_de(d)
                        ==> tx@.fields[d] == (if msg@.fields[d] is Some {
                        msg@.fields[d]
                    } else if d == 12 {
                        Some(now.time6@)
                    } else if d == 13 {
                        Some(now.date4@)
                    } else {
                        None::<Seq<char>>
                    }))
            },
    {
        let stan = match msg.get_field(11) {
            Some(s) => s.clone(),
            None => {
                return Err(ProcessError::MissingStan);
            },
        };
        let mut tx = Iso8583Transaction::new(stan.as_str(), msg.mti.as_str(), now);
        let mut de: usize = 2;
        while de <= 128
            invariant
                msg.wf(),
                tx.wf(),
                2 <= de <= 129,
                tx@.tr_dt == now.date8@,
                tx@.tr_tm == now.time6@,
                tx@.trm_id == (if de > 41 && msg@.fields[41] is Some {
                    msg@.fields[41]
                } else {
                    None::<Seq<char>>
                }),
                tx@.msg_typ == Some(msg@.mti),
                tx@.tr_type == Some("CREATED"@),
                tx@.inst_dtm == Some(now.datetime14@),
                tx@.updt_dtm is None,
                tx@.fields[0] == Some(msg@.mti),
                tx@.fields[1] is None,
                msg@.fields[11] == Some(tx@.tr_uniq_no),
                forall|d: int|
                    2 <= d <= 128 && crate::transaction::supported_de(d)
                        ==> tx@.fields[d] == (if d < de && msg@.fields[d] is Some {
                        msg@.fields[d]
                    } else if d == 11 && de <= 11 {
                        msg@.fields[11]
                    } else if d == 12 && (de <= 12 || msg@.fields[12] is None) {
                        Some(now.time6@)
                    } else if d == 13 && (de <= 13 || msg@.fields[13] is None) {
                        Some(now.date4@)
                    } else {
                        None::<Seq<char>>
                    }),
            decreases 129 - de,
        {
            match msg.get_field(de as u8) {
                Some(v) => {
                    tx.set_field(de as u8, Some(v.clone()));
                },
                None => {},
            }
            de = de + 1;
        }
        tx.trm_id = Some(card_request.trm_id.clone());
        tx.tr_uniq_no = card_request.transaction_id.clone();
        tx.set_field(1, Some(msg.bitmap.clone()));
        Ok(tx)
    }
}


impl Iso8583TransactionService {
    /// Shape the client-facing result from the reply: approval comes
    /// from code "00", the reply's code, authorization and reference
    /// fields are carried over, and the state text and timestamp close
    /// the record.
    pub fn build_response_result(
        &self,
        request: &CardRequest,
        response_msg: &Iso8583Message,
        stan: &str,
        state: &TransactionState,
        now: &Timestamp,
    ) -> (r: TransactionResult)
        requires
            response_msg.wf(),
        ensures
            r.status@ == (if response_msg@.fields[39] == Some("00"@) {
                "APPROVED"@
            } else {
                "DECLINED"@
            }),
            r.transaction_id@ == request.transaction_id@,
            r.terminal_id@ == request.trm_id@,
            r.stan@ == stan@,
            r.response_code.deep_view() == response_msg@.fields[39],
            r.authorization_code.deep_view() == response_msg@.fields[38],
            r.rrn.deep_view() == response_msg@.fields[37],
            r.transaction_state@ == spec_state_str(*state),
            r.amount_minor == request.amount_minor,
            r.timestamp@ == now.rfc3339@,
    {
        let is_approved = ResponseHandler::is_approved(response_msg);
        let response_desc = ResponseHandler::get_response_description(response_msg);
        let status = if is_approved {
            "APPROVED".to_owned()
        } else {
            "DECLINED".to_owned()
        };
        TransactionResult {
            status,
            transaction_id: request.transaction_id.clone(),
            terminal_id: request.trm_id.clone(),
            stan: stan.to_owned(),
            response_code: clone_field(response_msg, 39),
            authorization_code: clone_field(response_msg, 38),
            rrn: clone_field(response_msg, 37),
            response_message: response_desc,
            transaction_state: state.as_str().to_owned(),
            amount_minor: request.amount_minor,
            timestamp: now.rfc3339.clone(),
        }
    }

    /// Process one transaction end to end: draw a trace number, build
    /// the request message, derive the record to persist, apply the
    /// simulated issuer's decided reply, resolve the state, and shape
    /// the client result.  The caller persists the record before
    /// dispatch and applies the state transitions it is told.
    pub fn process_transaction(
        &mut self,
        card_request: &CardRequest,
        decision: &MockDecision,
        now: &Timestamp,
        today: &str,
    ) -> (r: Result<TransactionOutcome, ProcessError>)
        requires
            old(self).wf(),
            card_request.amount_minor < 1000000000000,
        ensures
            final(self).wf(),
            r is Ok,
            r->Ok_0.result.transaction_id@ == card_request.transaction_id@,
            r->Ok_0.result.stan@ == dec_seq(
                spec_next_stan(
                    old(self).stan_gen().spec_current(),
                    old(self).stan_gen().spec_last_date(),
                    today@,
                ),
                6,
            ),
            r->Ok_0.result.stan@.len() == 6,
            decision.approved ==> r->Ok_0.result.status@ == "APPROVED"@,
            !decision.approved ==> r->Ok_0.result.status@ == "DECLINED"@,
            r->Ok_0.state == (if decision.approved {
                TransactionState::Approved
            } else {
                TransactionState::Declined
            }),
            r->Ok_0.result.rrn.deep_view() == Some(decision.rrn@),
            r->Ok_0.result.authorization_code.deep_view() == (if decision.approved {
                Some(decision.auth_code@)
            } else {
                None::<Seq<char>>
            }),
            r->Ok_0.result.response_code.deep_view() == Some(
                crate::response::spec_code_str(crate::response::spec_decision_code(decision)),
            ),
            r->Ok_0.record.wf(),
            r->Ok_0.record@.tr_type == Some("CREATED"@),
            r->Ok_0.record@.tr_uniq_no == card_request.transaction_id@,
            r->Ok_0.request_msg.wf(),
            r->Ok_0.response_msg.wf(),
    {
        let stan = self.stan_generator.next(today);
        let request_msg = match self.build_iso_message(card_request, stan.as_str(), now) {
            Ok(m) => m,
            Err(e) => {
                proof {
                    assert(false);
                }
                return Err(e);
            },
        };
        let record = match self.create_db_transaction(&request_msg, card_request, now) {
            Ok(t) => t,
            Err(e) => {
                proof {
                    assert(false);
                }
                return Err(e);
            },
        };
        let response_msg = build_mock_response(&request_msg, decision, now);
        let (state, response_code) = ResponseHandler::parse_response(&response_msg);
        proof {
            lemma_decision_code_resolution(decision);
        }
        let result = self.build_response_result(
            card_request,
            &response_msg,
            stan.as_str(),
            &state,
            now,
        );
        Ok(
            TransactionOutcome {
                request_msg,
                record,
                response_msg,
                state,
                response_code,
                result,
            },
        )
    }
}

/// A copy of one reply field.
fn clone_field(msg: &Iso8583Message, de: u8) -> (r: Option<String>)
    requires
        msg.wf(),
        de <= 128,
    ensures
        r.deep_view() == msg@.fields[de as int],
{
    match msg.get_field(de) {
        Some(s) => Some(s.clone()),
        None => None,
    }
}

/// A decided reply resolves as its code says: approval exactly on the
/// approved draw, decline on every decline draw.
proof fn lemma_decision_code_resolution(decision: &MockDecision)
    ensures
        crate::response::spec_code_str(crate::response::spec_decision_code(decision))
            == "00"@ <==> decision.approved,
        spec_parse_response(
            Some(crate::response::spec_code_str(crate::response::spec_decision_code(decision))),
        ) == (
            (if decision.approved {
                TransactionState::Approved
            } else {
                TransactionState::Declined
            }),
            Some(crate::response::spec_decision_code(decision)),
        ),
{
    let c = crate::response::spec_decision_code(decision);
    let s = crate::response::spec_code_str(c);
    crate::response::lemma_code_text_roundtrip(c);
    reveal_strlit("00");
    reveal_strlit("05");
    reveal_strlit("51");
    reveal_strlit("14");
    reveal_strlit("54");
    reveal_strlit("57");
    if !decision.approved {
        assert(s[0] != '0' || s[1] != '0');
        assert(s != "00"@);
    }
}

/// The engine's view of one handled terminal message: the plain request
/// fields plus the chip data parsed, when it parses.
#[derive(Debug)]
pub struct ProcessedCardData {
    pub transaction_id: String,
    pub terminal_id: String,
    pub amount_minor: u64,
    pub msg_type: String,
    pub emv_data: Option<ParsedEmvData>,
}

/// The acknowledgement envelope answered to the terminal.
#[derive(Debug, Clone)]
pub struct AckResponse {
    /// Always "RECEIVED".
    pub status: String,
    pub transaction_id: String,
    pub terminal_id: String,
    pub message: String,
}

/// Handle one decoded terminal message: parse the chip data it carries
/// (tolerating unparsable data by carrying none), and acknowledge
/// receipt.
pub fn handle_message(card_request: &CardRequest) -> (r: (ProcessedCardData, AckResponse))
    ensures
        r.0.transaction_id@ == card_request.transaction_id@,
        r.0.terminal_id@ == card_request.trm_id@,
        r.0.amount_minor == card_request.amount_minor,
        r.0.msg_type@ == card_request.msg_type@,
        (match spec_emv_models(card_request) {
            Some(ms) => r.0.emv_data is Some && r.0.emv_data->0.models() == ms,
            None => r.0.emv_data is None,
        }),
        r.1.status@ == "RECEIVED"@,
        r.1.transaction_id@ == card_request.transaction_id@,
        r.1.terminal_id@ == card_request.trm_id@,
        r.1.message@ == "Transaction data received and parsed successfully"@,
{
    let emv_data = match card_request.get_de55() {
        Some(de55_hex) => {
            match ParsedEmvData::from_de55(de55_hex.as_str()) {
                Ok(parsed) => Some(parsed),
                Err(_) => None,
            }
        },
        None => None,
    };
    let processed = ProcessedCardData {
        transaction_id: card_request.transaction_id.clone(),
        terminal_id: card_request.trm_id.clone(),
        amount_minor: card_request.amount_minor,
        msg_type: card_request.msg_type.clone(),
        emv_data,
    };
    let ack = AckResponse {
        status: "RECEIVED".to_owned(),
        transaction_id: card_request.transaction_id.clone(),
        terminal_id: card_request.trm_id.clone(),
        message: "Transaction data received and parsed successfully".to_owned(),
    };
    (processed, ack)
}

/// The masked form of a card number: ten characters or fewer become all
/// stars; longer numbers keep the first six and last four.
pub open spec fn spec_masked_pan(pan: Seq<char>) -> Seq<char> {
    if pan.len() <= 10 {
        crate::strutil::repeat_char('*', pan.len() as int)
    } else {
        pan.take(6) + crate::strutil::repeat_char('*', pan.len() - 10) + pan.skip(
            pan.len() - 4,
        )
    }
}

/// Mask a card number for logging: first six and last four digits stay,
/// the rest become stars.
pub fn mask_pan(pan: &str) -> (r: String)
    ensures
        r@ == spec_masked_pan(pan@),
{
    let n = pan.unicode_len();
    proof {
        reveal_strlit("*");
    }
    if n <= 10 {
        let mut r = String::new();
        crate::strutil::append_repeated(&mut r, "*", n);
        proof {
            assert(r@ =~= spec_masked_pan(pan@));
        }
        return r;
    }
    let first = pan.substring_char(0, 6);
    let last = pan.substring_char(n - 4, n);
    let mut r = first.to_owned();
    crate::strutil::append_repeated(&mut r, "*", n - 10);
    r.append(last);
    proof {
        assert(r@ =~= spec_masked_pan(pan@));
    }
    r
}

} // verus!
