//! ISO8583 response codes, the reply-side state mapping, and the
//! construction of a simulated issuer reply.
//!
//! Code "00" alone means approval; every other recognized code declines
//! the transaction; an absent or unrecognized code fails it.

use vstd::prelude::*;

use crate::message::{response_mti_of, Iso8583Message};
use crate::transaction::{Timestamp, TransactionState};

verus! {

/// The closed set of response codes this engine recognizes.
#[derive(Debug, Clone, Copy, PartialEq, Eq, Structural)]
pub enum ResponseCode {
    /// 00 - Approved.
    Approved,
    /// 05 - Do not honor.
    DoNotHonor,
    /// 12 - Invalid transaction.
    InvalidTransaction,
    /// 13 - Invalid amount.
    InvalidAmount,
    /// 14 - Invalid card number.
    InvalidCard,
    /// 30 - Format error.
    FormatError,
    /// 51 - Insufficient funds.
    InsufficientFunds,
    /// 54 - Expired card.
    ExpiredCard,
    /// 55 - Incorrect PIN.
    IncorrectPin,
    /// 57 - Transaction not permitted.
    NotPermitted,
    /// 58 - Transaction not permitted to terminal.
    NotPermittedTerminal,
    /// 61 - Exceeds withdrawal limit.
    ExceedsLimit,
    /// 91 - Issuer or switch inoperative.
    IssuerInoperative,
    /// 96 - System malfunction.
    SystemMalfunction,
}

/// The two-digit text of a code.
pub open spec fn spec_code_str(c: ResponseCode) -> Seq<char> {
    match c {
        ResponseCode::Approved => "00"@,
        ResponseCode::DoNotHonor => "05"@,
        ResponseCode::InvalidTransaction => "12"@,
        ResponseCode::InvalidAmount => "13"@,
        ResponseCode::InvalidCard => "14"@,
        ResponseCode::FormatError => "30"@,
        ResponseCode::InsufficientFunds => "51"@,
        ResponseCode::ExpiredCard => "54"@,
        ResponseCode::IncorrectPin => "55"@,
        ResponseCode::NotPermitted => "57"@,
        ResponseCode::NotPermittedTerminal => "58"@,
        ResponseCode::ExceedsLimit => "61"@,
        ResponseCode::IssuerInoperative => "91"@,
        ResponseCode::SystemMalfunction => "96"@,
    }
}

/// The code a two-digit text denotes.
pub open spec fn spec_code_from(s: Seq<char>) -> Option<ResponseCode> {
    if s == "00"@ {
        Some(ResponseCode::Approved)
    } else if s == "05"@ {
        Some(ResponseCode::DoNotHonor)
    } else if s == "12"@ {
        Some(ResponseCode::InvalidTransaction)
    } else if s == "13"@ {
        Some(ResponseCode::InvalidAmount)
    } else if s == "14"@ {
        Some(ResponseCode::InvalidCard)
    } else if s == "30"@ {
        Some(ResponseCode::FormatError)
    } else if s == "51"@ {
        Some(ResponseCode::InsufficientFunds)
    } else if s == "54"@ {
        Some(ResponseCode::ExpiredCard)
    } else if s == "55"@ {
        Some(ResponseCode::IncorrectPin)
    } else if s == "57"@ {
        Some(ResponseCode::NotPermitted)
    } else if s == "58"@ {
        Some(ResponseCode::NotPermittedTerminal)
    } else if s == "61"@ {
        Some(ResponseCode::ExceedsLimit)
    } else if s == "91"@ {
        Some(ResponseCode::IssuerInoperative)
    } else if s == "96"@ {
        Some(ResponseCode::SystemMalfunction)
    } else {
        None
    }
}

/// The description text of a code.
pub open spec fn spec_code_description(c: ResponseCode) -> Seq<char> {
    match c {
        ResponseCode::Approved => "Approved"@,
        ResponseCode::DoNotHonor => "Do not honor"@,
        ResponseCode::InvalidTransaction => "Invalid transaction"@,
        ResponseCode::InvalidAmount => "Invalid amount"@,
        ResponseCode::InvalidCard => "Invalid card number"@,
        ResponseCode::FormatError => "Format error"@,
        ResponseCode::InsufficientFunds => "Insufficient funds"@,
        ResponseCode::ExpiredCard => "Expired card"@,
        ResponseCode::IncorrectPin => "Incorrect PIN"@,
        ResponseCode::NotPermitted => "Transaction not permitted"@,
        ResponseCode::NotPermittedTerminal => "Transaction not permitted to terminal"@,
        ResponseCode::ExceedsLimit => "Exceeds withdrawal limit"@,
        ResponseCode::IssuerInoperative => "Issuer or switch inoperative"@,
        ResponseCode::SystemMalfunction => "System malfunction"@,
    }
}

/// The state a code resolves a transaction to: approval only on "00".
pub open spec fn spec_code_state(c: ResponseCode) -> TransactionState {
    if c == ResponseCode::Approved {
        TransactionState::Approved
    } else {
        TransactionState::Declined
    }
}

impl ResponseCode {
    /// The two-digit wire text of this code.
    pub fn as_str(&self) -> (r: &'static str)
        ensures
            r@ == spec_code_str(*self),
    {
        match self {
            ResponseCode::Approved => "00",
            ResponseCode::DoNotHonor => "05",
            ResponseCode::InvalidTransaction => "12",
            ResponseCode::InvalidAmount => "13",
            ResponseCode::InvalidCard => "14",
            ResponseCode::FormatError => "30",
            ResponseCode::InsufficientFunds => "51",
            ResponseCode::ExpiredCard => "54",
            ResponseCode::IncorrectPin => "55",
            ResponseCode::NotPermitted => "57",
            ResponseCode::NotPermittedTerminal => "58",
            ResponseCode::ExceedsLimit => "61",
            ResponseCode::IssuerInoperative => "91",
            ResponseCode::SystemMalfunction => "96",
        }
    }

    /// Parse a code from its two-digit text.
    pub fn from_str(s: &str) -> (r: Option<ResponseCode>)
        ensures
            r == spec_code_from(s@),
    {
        if crate::strutil::str_eq(s, "00") {
            Some(ResponseCode::Approved)
        } else if crate::strutil::str_eq(s, "05") {
            Some(ResponseCode::DoNotHonor)
        } else if crate::strutil::str_eq(s, "12") {
            Some(ResponseCode::InvalidTransaction)
        } else if crate::strutil::str_eq(s, "13") {
            Some(ResponseCode::InvalidAmount)
        } else if crate::strutil::str_eq(s, "14") {
            Some(ResponseCode::InvalidCard)
        } else if crate::strutil::str_eq(s, "30") {
            Some(ResponseCode::FormatError)
        } else if crate::strutil::str_eq(s, "51") {
            Some(ResponseCode::InsufficientFunds)
        } else if crate::strutil::str_eq(s, "54") {
            Some(ResponseCode::ExpiredCard)
        } else if crate::strutil::str_eq(s, "55") {
            Some(ResponseCode::IncorrectPin)
        } else if crate::strutil::str_eq(s, "57") {
            Some(ResponseCode::NotPermitted)
        } else if crate::strutil::str_eq(s, "58") {
            Some(ResponseCode::NotPermittedTerminal)
        } else if crate::strutil::str_eq(s, "61") {
            Some(ResponseCode::ExceedsLimit)
        } else if crate::strutil::str_eq(s, "91") {
            Some(ResponseCode::IssuerInoperative)
        } else if crate::strutil::str_eq(s, "96") {
            Some(ResponseCode::SystemMalfunction)
        } else {
            None
        }
    }

    /// The transaction state this code resolves to: only "00" approves,
    /// every other code declines.
    pub fn to_transaction_state(&self) -> (r: TransactionState)
        ensures
            r == spec_code_state(*self),
    {
        match self {
            ResponseCode::Approved => TransactionState::Approved,
            _ => TransactionState::Declined,
        }
    }

    /// Human-readable description of this code.
    pub fn description(&self) -> (r: &'static str)
        ensures
            r@ == spec_code_description(*self),
    {
        match self {
            ResponseCode::Approved => "Approved",
            ResponseCode::DoNotHonor => "Do not honor",
            ResponseCode::InvalidTransaction => "Invalid transaction",
            ResponseCode::InvalidAmount => "Invalid amount",
            ResponseCode::InvalidCard => "Invalid card number",
            ResponseCode::FormatError => "Format error",
            ResponseCode::InsufficientFunds => "Insufficient funds",
            ResponseCode::ExpiredCard => "Expired card",
            ResponseCode::IncorrectPin => "Incorrect PIN",
            ResponseCode::NotPermitted => "Transaction not permitted",
            ResponseCode::NotPermittedTerminal => "Transaction not permitted to terminal",
            ResponseCode::ExceedsLimit => "Exceeds withdrawal limit",
            ResponseCode::IssuerInoperative => "Issuer or switch inoperative",
            ResponseCode::SystemMalfunction => "System malfunction",
        }
    }
}

/// What a reply resolves to: state and recognized code, if any.
pub open spec fn spec_parse_response(f39: Option<Seq<char>>) -> (
    TransactionState,
    Option<ResponseCode>,
) {
    match f39 {
        Some(s) => match spec_code_from(s) {
            Some(c) => (spec_code_state(c), Some(c)),
            None => (TransactionState::Failed, None),
        },
        None => (TransactionState::Failed, None),
    }
}

/// Interprets real or simulated issuer replies.
pub struct ResponseHandler;

impl ResponseHandler {
    /// Resolve a reply into a transaction state: the recognized code of
    /// data element 39 decides; an absent or unknown code fails the
    /// transaction with no code.
    pub fn parse_response(response: &Iso8583Message) -> (r: (
        TransactionState,
        Option<ResponseCode>,
    ))
        requires
            response.wf(),
        ensures
            r == spec_parse_response(response@.fields[39]),
    {
        if let Some(code_str) = response.get_field(39) {
            if let Some(code) = ResponseCode::from_str(code_str.as_str()) {
                return (code.to_transaction_state(), Some(code));
            }
            return (TransactionState::Failed, None);
        }
        (TransactionState::Failed, None)
    }

    /// Whether a reply approves: its data element 39 reads exactly "00".
    pub fn is_approved(response: &Iso8583Message) -> (r: bool)
        requires
            response.wf(),
        ensures
            r == (response@.fields[39] == Some("00"@)),
    {
        match response.get_field(39) {
            Some(c) => crate::strutil::str_eq(c.as_str(), "00"),
            None => false,
        }
    }

    /// Description of a reply's code, or a fixed text when unrecognized.
    pub fn get_response_description(response: &Iso8583Message) -> (r: String)
        requires
            response.wf(),
        ensures
            r@ == (match response@.fields[39] {
                Some(s) => match spec_code_from(s) {
                    Some(c) => spec_code_description(c),
                    None => "Unknown response"@,
                },
                None => "Unknown response"@,
            }),
    {
        if let Some(code_str) = response.get_field(39) {
            if let Some(code) = ResponseCode::from_str(code_str.as_str()) {
                return code.description().to_owned();
            }
            return "Unknown response".to_owned();
        }
        "Unknown response".to_owned()
    }
}

/// The outcome a simulated issuer chose before building its reply: drawn
/// outside the engine (by chance and a success-rate threshold), then
/// applied deterministically here.
#[derive(Debug, Clone)]
pub struct MockDecision {
    /// Whether the draw approved the transaction.
    pub approved: bool,
    /// Which decline code to use otherwise.
    pub decline_idx: u8,
    /// The synthetic retrieval reference number.
    pub rrn: String,
    /// The synthetic authorization code, used only on approval.
    pub auth_code: String,
}

/// The decline code the simulated issuer picks for a draw.
pub open spec fn spec_decline_code(idx: int) -> ResponseCode {
    if idx == 0 {
        ResponseCode::DoNotHonor
    } else if idx == 1 {
        ResponseCode::InsufficientFunds
    } else if idx == 2 {
        ResponseCode::InvalidCard
    } else if idx == 3 {
        ResponseCode::ExpiredCard
    } else {
        ResponseCode::NotPermitted
    }
}

/// The code a decision carries.
pub open spec fn spec_decision_code(d: &MockDecision) -> ResponseCode {
    if d.approved {
        ResponseCode::Approved
    } else {
        spec_decline_code(d.decline_idx as int)
    }
}

/// One of the simulated issuer's decline codes.
pub fn mock_decline_code(idx: u8) -> (r: ResponseCode)
    ensures
        r == spec_decline_code(idx as int),
{
    match idx {
        0 => ResponseCode::DoNotHonor,
        1 => ResponseCode::InsufficientFunds,
        2 => ResponseCode::InvalidCard,
        3 => ResponseCode::ExpiredCard,
        _ => ResponseCode::NotPermitted,
    }
}

/// Data elements the simulated issuer copies from the request.
pub open spec fn mock_echoed_de(d: int) -> bool {
    d == 2 || d == 3 || d == 4 || d == 11 || d == 12 || d == 13 || d == 14 || d == 22 || d == 41
        || d == 42 || d == 49
}

/// Build the simulated issuer's reply to a request: the response MTI
/// ("0210" when the request MTI is not a known request), the echoed
/// request fields, a synthetic reference number, the decided response
/// code, an authorization code on approval, and the transmission time.
#[verifier::rlimit(100)]
pub fn build_mock_response(
    request: &Iso8583Message,
    decision: &MockDecision,
    now: &Timestamp,
) -> (r: Iso8583Message)
    requires
        request.wf(),
    ensures
        r.wf(),
        r@.mti == (match response_mti_of(request@.mti) {
            Some(m) => m,
            None => "0210"@,
        }),
        forall|d: int| mock_echoed_de(d) ==> r@.fields[d] == request@.fields[d],
        r@.fields[37] == Some(decision.rrn@),
        r@.fields[39] == Some(spec_code_str(spec_decision_code(decision))),
        r@.fields[38] == (if decision.approved {
            Some(decision.auth_code@)
        } else {
            None::<Seq<char>>
        }),
        r@.fields[7] == Some(now.datetime10@),
        forall|d: int|
            0 <= d < 129 && !mock_echoed_de(d) && d != 37 && d != 38 && d != 39 && d != 7
                ==> r@.fields[d] is None,
        r@.bitmap == request@.bitmap,
{
    let mti = match request.get_response_mti() {
        Some(m) => m,
        None => "0210".to_owned(),
    };
    let mut response = Iso8583Message::new(mti.as_str());
    copy_field(request, &mut response, 2);
    copy_field(request, &mut response, 3);
    copy_field(request, &mut response, 4);
    copy_field(request, &mut response, 11);
    copy_field(request, &mut response, 12);
    copy_field(request, &mut response, 13);
    copy_field(request, &mut response, 14);
    copy_field(request, &mut response, 22);
    copy_field(request, &mut response, 41);
    copy_field(request, &mut response, 42);
    copy_field(request, &mut response, 49);
    response.set_field(37, decision.rrn.clone());
    let code = if decision.approved {
        ResponseCode::Approved
    } else {
        mock_decline_code(decision.decline_idx)
    };
    response.set_field(39, code.as_str().to_owned());
    if decision.approved {
        response.set_field(38, decision.auth_code.clone());
    }
    response.set_field(7, now.datetime10.clone());
    response.bitmap = request.bitmap.clone();
    response
}

/// Copy one field of `from` into `to`, when present.
fn copy_field(from: &Iso8583Message, to: &mut Iso8583Message, de: u8)
    requires
        from.wf(),
        old(to).wf(),
        1 <= de <= 128,
    ensures
        final(to).wf(),
        final(to)@.mti == old(to)@.mti,
        final(to)@.bitmap == old(to)@.bitmap,
        final(to)@.fields.len() == old(to)@.fields.len(),
        from@.fields[de as int] is Some ==> final(to)@.fields[de as int] == from@.fields[de as int],
        from@.fields[de as int] is None ==> final(to)@.fields[de as int] == old(to)@.fields[de as int],
        forall|d: int|
            0 <= d < old(to)@.fields.len() && d != de ==> final(to)@.fields[d] == old(to)@.fields[d],
{
    match from.get_field(de) {
        Some(v) => {
            let c = v.clone();
            to.set_field(de, c);
        },
        None => {},
    }
}

/// Reading a code's own text back yields the code: the fourteen texts
/// are pairwise distinct.
pub proof fn lemma_code_text_roundtrip(c: ResponseCode)
    ensures
        spec_code_from(spec_code_str(c)) == Some(c),
{
    reveal_strlit("00");
    reveal_strlit("05");
    reveal_strlit("12");
    reveal_strlit("13");
    reveal_strlit("14");
    reveal_strlit("30");
    reveal_strlit("51");
    reveal_strlit("54");
    reveal_strlit("55");
    reveal_strlit("57");
    reveal_strlit("58");
    reveal_strlit("61");
    reveal_strlit("91");
    reveal_strlit("96");
    assert("00"@[1] != "05"@[1]);
    assert("00"@[0] != "12"@[0]);
    assert("00"@[0] != "13"@[0]);
    assert("00"@[0] != "14"@[0]);
    assert("00"@[0] != "30"@[0]);
    assert("00"@[0] != "51"@[0]);
    assert("00"@[0] != "54"@[0]);
    assert("00"@[0] != "55"@[0]);
    assert("00"@[0] != "57"@[0]);
    assert("00"@[0] != "58"@[0]);
    assert("00"@[0] != "61"@[0]);
    assert("00"@[0] != "91"@[0]);
    assert("00"@[0] != "96"@[0]);
    assert("05"@[0] != "12"@[0]);
    assert("05"@[0] != "13"@[0]);
    assert("05"@[0] != "14"@[0]);
    assert("05"@[0] != "30"@[0]);
    assert("05"@[0] != "51"@[0]);
    assert("05"@[0] != "54"@[0]);
    assert("05"@[0] != "55"@[0]);
    assert("05"@[0] != "57"@[0]);
    assert("05"@[0] != "58"@[0]);
    assert("05"@[0] != "61"@[0]);
    assert("05"@[0] != "91"@[0]);
    assert("05"@[0] != "96"@[0]);
    assert("12"@[1] != "13"@[1]);
    assert("12"@[1] != "14"@[1]);
    assert("12"@[0] != "30"@[0]);
    assert("12"@[0] != "51"@[0]);
    assert("12"@[0] != "54"@[0]);
    assert("12"@[0] != "55"@[0]);
    assert("12"@[0] != "57"@[0]);
    assert("12"@[0] != "58"@[0]);
    assert("12"@[0] != "61"@[0]);
    assert("12"@[0] != "91"@[0]);
    assert("12"@[0] != "96"@[0]);
    assert("13"@[1] != "14"@[1]);
    assert("13"@[0] != "30"@[0]);
    assert("13"@[0] != "51"@[0]);
    assert("13"@[0] != "54"@[0]);
    assert("13"@[0] != "55"@[0]);
    assert("13"@[0] != "57"@[0]);
    assert("13"@[0] != "58"@[0]);
    assert("13"@[0] != "61"@[0]);
    assert("13"@[0] != "91"@[0]);
    assert("13"@[0] != "96"@[0]);
    assert("14"@[0] != "30"@[0]);
    assert("14"@[0] != "51"@[0]);
    assert("14"@[0] != "54"@[0]);
    assert("14"@[0] != "55"@[0]);
    assert("14"@[0] != "57"@[0]);
    assert("14"@[0] != "58"@[0]);
    assert("14"@[0] != "61"@[0]);
    assert("14"@[0] != "91"@[0]);
    assert("14"@[0] != "96"@[0]);
    assert("30"@[0] != "51"@[0]);
    assert("30"@[0] != "54"@[0]);
    assert("30"@[0] != "55"@[0]);
    assert("30"@[0] != "57"@[0]);
    assert("30"@[0] != "58"@[0]);
    assert("30"@[0] != "61"@[0]);
    assert("30"@[0] != "91"@[0]);
    assert("30"@[0] != "96"@[0]);
    assert("51"@[1] != "54"@[1]);
    assert("51"@[1] != "55"@[1]);
    assert("51"@[1] != "57"@[1]);
    assert("51"@[1] != "58"@[1]);
    assert("51"@[0] != "61"@[0]);
    assert("51"@[0] != "91"@[0]);
    assert("51"@[0] != "96"@[0]);
    assert("54"@[1] != "55"@[1]);
    assert("54"@[1] != "57"@[1]);
    assert("54"@[1] != "58"@[1]);
    assert("54"@[0] != "61"@[0]);
    assert("54"@[0] != "91"@[0]);
    assert("54"@[0] != "96"@[0]);
    assert("55"@[1] != "57"@[1]);
    assert("55"@[1] != "58"@[1]);
    assert("55"@[0] != "61"@[0]);
    assert("55"@[0] != "91"@[0]);
    assert("55"@[0] != "96"@[0]);
    assert("57"@[1] != "58"@[1]);
    assert("57"@[0] != "61"@[0]);
    assert("57"@[0] != "91"@[0]);
    assert("57"@[0] != "96"@[0]);
    assert("58"@[0] != "61"@[0]);
    assert("58"@[0] != "91"@[0]);
    assert("58"@[0] != "96"@[0]);
    assert("61"@[0] != "91"@[0]);
    assert("61"@[0] != "96"@[0]);
    assert("91"@[1] != "96"@[1]);
}

/// The response-resolution law: "00" alone resolves to approval, every
/// other recognized code resolves to a decline carrying that code, and an
/// unrecognized or absent code fails the transaction with no code.
pub proof fn lemma_response_resolution(f39: Option<Seq<char>>)
    ensures
        f39 == Some("00"@) ==> spec_parse_response(f39) == (
            TransactionState::Approved,
            Some(ResponseCode::Approved),
        ),
        f39 is Some && f39->0 != "00"@ && spec_code_from(f39->0) is Some
            ==> spec_parse_response(f39) == (
            TransactionState::Declined,
            spec_code_from(f39->0),
        ),
        f39 is Some && spec_code_from(f39->0) is None ==> spec_parse_response(f39) == (
            TransactionState::Failed,
            None::<ResponseCode>,
        ),
        f39 is None ==> spec_parse_response(f39) == (
            TransactionState::Failed,
            None::<ResponseCode>,
        ),
{
    if let Some(s) = f39 {
        if let Some(c) = spec_code_from(s) {
            if s != "00"@ {
                assert(c != ResponseCode::Approved);
                assert(spec_code_state(c) == TransactionState::Declined);
            }
        }
    }
}

} // verus!
