//! The persisted transaction record and its state machine, and the plain
//! clock-reading values the engine works from.
//!
//! The record carries every supported ISO8583 field as optional text plus
//! a state; it is created in `Created` state when a request is built,
//! moves to `Sent` before dispatch, and ends in a terminal state once the
//! responder answers or a reversal is applied.

use vstd::prelude::*;

use crate::strutil::{all_digits, upper};

verus! {

/// Lifecycle state of a transaction record.
#[derive(Debug, Clone, Copy, PartialEq, Eq, Structural)]
pub enum TransactionState {
    Created,
    Sent,
    Approved,
    Declined,
    Timeout,
    Reversed,
    Voided,
    Failed,
}

/// The canonical text of a state.
pub open spec fn spec_state_str(s: TransactionState) -> Seq<char> {
    match s {
        TransactionState::Created => "CREATED"@,
        TransactionState::Sent => "SENT"@,
        TransactionState::Approved => "APPROVED"@,
        TransactionState::Declined => "DECLINED"@,
        TransactionState::Timeout => "TIMEOUT"@,
        TransactionState::Reversed => "REVERSED"@,
        TransactionState::Voided => "VOIDED"@,
        TransactionState::Failed => "FAILED"@,
    }
}

/// The state a text denotes, letter case ignored.
pub open spec fn spec_state_from(s: Seq<char>) -> Option<TransactionState> {
    if upper(s) == "CREATED"@ {
        Some(TransactionState::Created)
    } else if upper(s) == "SENT"@ {
        Some(TransactionState::Sent)
    } else if upper(s) == "APPROVED"@ {
        Some(TransactionState::Approved)
    } else if upper(s) == "DECLINED"@ {
        Some(TransactionState::Declined)
    } else if upper(s) == "TIMEOUT"@ {
        Some(TransactionState::Timeout)
    } else if upper(s) == "REVERSED"@ {
        Some(TransactionState::Reversed)
    } else if upper(s) == "VOIDED"@ {
        Some(TransactionState::Voided)
    } else if upper(s) == "FAILED"@ {
        Some(TransactionState::Failed)
    } else {
        None
    }
}

impl TransactionState {
    /// The canonical text of this state.
    pub fn as_str(&self) -> (r: &'static str)
        ensures
            r@ == spec_state_str(*self),
    {
        match self {
            TransactionState::Created => "CREATED",
            TransactionState::Sent => "SENT",
            TransactionState::Approved => "APPROVED",
            TransactionState::Declined => "DECLINED",
            TransactionState::Timeout => "TIMEOUT",
            TransactionState::Reversed => "REVERSED",
            TransactionState::Voided => "VOIDED",
            TransactionState::Failed => "FAILED",
        }
    }

    /// Parse a state from text, letter case ignored.
    pub fn from_str(s: &str) -> (r: Option<TransactionState>)
        ensures
            r == spec_state_from(s@),
    {
        proof {
            reveal_strlit("CREATED");
            reveal_strlit("SENT");
            reveal_strlit("APPROVED");
            reveal_strlit("DECLINED");
            reveal_strlit("TIMEOUT");
            reveal_strlit("REVERSED");
            reveal_strlit("VOIDED");
            reveal_strlit("FAILED");
            assert(upper("CREATED"@) =~= "CREATED"@);
            assert(upper("SENT"@) =~= "SENT"@);
            assert(upper("APPROVED"@) =~= "APPROVED"@);
            assert(upper("DECLINED"@) =~= "DECLINED"@);
            assert(upper("TIMEOUT"@) =~= "TIMEOUT"@);
            assert(upper("REVERSED"@) =~= "REVERSED"@);
            assert(upper("VOIDED"@) =~= "VOIDED"@);
            assert(upper("FAILED"@) =~= "FAILED"@);
        }
        if crate::strutil::str_eq_ignore_case(s, "CREATED") {
            Some(TransactionState::Created)
        } else if crate::strutil::str_eq_ignore_case(s, "SENT") {
            Some(TransactionState::Sent)
        } else if crate::strutil::str_eq_ignore_case(s, "APPROVED") {
            Some(TransactionState::Approved)
        } else if crate::strutil::str_eq_ignore_case(s, "DECLINED") {
            Some(TransactionState::Declined)
        } else if crate::strutil::str_eq_ignore_case(s, "TIMEOUT") {
            Some(TransactionState::Timeout)
        } else if crate::strutil::str_eq_ignore_case(s, "REVERSED") {
            Some(TransactionState::Reversed)
        } else if crate::strutil::str_eq_ignore_case(s, "VOIDED") {
            Some(TransactionState::Voided)
        } else if crate::strutil::str_eq_ignore_case(s, "FAILED") {
            Some(TransactionState::Failed)
        } else {
            None
        }
    }
}

/// One reading of the clock, as the plain digit strings the wire formats
/// need.  The surrounding program fills it from the real clock; the
/// engine only requires the shapes below.
#[derive(Debug, Clone)]
pub struct Timestamp {
    /// YYYYMMDD.
    pub date8: String,
    /// HHMMSS.
    pub time6: String,
    /// MMDD.
    pub date4: String,
    /// MMDDHHMMSS, the transmission date and time.
    pub datetime10: String,
    /// YYYYMMDDHHMMSS.
    pub datetime14: String,
    /// Free-form RFC3339 text for the client-facing result.
    pub rfc3339: String,
}

impl Timestamp {
    pub open spec fn wf(&self) -> bool {
        &&& self.date8@.len() == 8 && all_digits(self.date8@)
        &&& self.time6@.len() == 6 && all_digits(self.time6@)
        &&& self.date4@.len() == 4 && all_digits(self.date4@)
        &&& self.datetime10@.len() == 10 && all_digits(self.datetime10@)
        &&& self.datetime14@.len() == 14 && all_digits(self.datetime14@)
    }
}

/// The data elements a record has a column for.
pub open spec fn supported_de(d: int) -> bool {
    d == 0 || d == 1 || d == 2 || d == 3 || d == 4 || d == 7 || d == 11 || d == 12 || d == 13 || d == 14 || d == 22 || d == 23 || d == 25 || d == 32 || d == 35 || d == 37 || d == 38 || d == 39 || d == 41 || d == 42 || d == 43 || d == 49 || d == 52 || d == 54 || d == 55 || d == 60 || d == 61 || d == 62 || d == 63 || d == 64 || d == 70 || d == 90 || d == 95 || d == 102 || d == 103 || d == 123 || d == 127 || d == 128
}

/// Spec-level value of a transaction record: the key, the metadata, and
/// the field table indexed by data element number.
pub struct TxView {
    pub tr_dt: Seq<char>,
    pub tr_tm: Seq<char>,
    pub tr_uniq_no: Seq<char>,
    pub trm_id: Option<Seq<char>>,
    pub msg_typ: Option<Seq<char>>,
    pub inst_trm_id: Option<Seq<char>>,
    pub inst_mer_no: Option<Seq<char>>,
    pub fields: Seq<Option<Seq<char>>>,
    pub inst_dtm: Option<Seq<char>>,
    pub updt_dtm: Option<Seq<char>>,
    pub tr_type: Option<Seq<char>>,
}

/// A persisted ISO8583 transaction row: key, metadata, and one optional
/// text slot per supported data element (the table is indexed by element
/// number; only supported slots are ever filled).
#[derive(Debug, Clone)]
pub struct Iso8583Transaction {
    /// Transaction date, YYYYMMDD.
    pub tr_dt: String,
    /// Transaction time, HHMMSS.
    pub tr_tm: String,
    /// Unique transaction number (the STAN).
    pub tr_uniq_no: String,
    /// Terminal identifier.
    pub trm_id: Option<String>,
    /// Message type indicator.
    pub msg_typ: Option<String>,
    /// Institution terminal identifier.
    pub inst_trm_id: Option<String>,
    /// Institution merchant number.
    pub inst_mer_no: Option<String>,
    /// The field columns, one slot per data element number.
    pub fields: Vec<Option<String>>,
    /// Insert datetime.
    pub inst_dtm: Option<String>,
    /// Update datetime.
    pub updt_dtm: Option<String>,
    /// Transaction state text.
    pub tr_type: Option<String>,
}

impl View for Iso8583Transaction {
    type V = TxView;

    open spec fn view(&self) -> TxView {
        TxView {
            tr_dt: self.tr_dt@,
            tr_tm: self.tr_tm@,
            tr_uniq_no: self.tr_uniq_no@,
            trm_id: self.trm_id.deep_view(),
            msg_typ: self.msg_typ.deep_view(),
            inst_trm_id: self.inst_trm_id.deep_view(),
            inst_mer_no: self.inst_mer_no.deep_view(),
            fields: self.fields.deep_view(),
            inst_dtm: self.inst_dtm.deep_view(),
            updt_dtm: self.updt_dtm.deep_view(),
            tr_type: self.tr_type.deep_view(),
        }
    }
}

/// A copy of an optional text value.
pub fn clone_opt(v: &Option<String>) -> (r: Option<String>)
    ensures
        r.deep_view() == v.deep_view(),
{
    match v {
        Some(s) => Some(s.clone()),
        None => None,
    }
}

/// Whether a record has a column for this data element.
pub fn is_supported_de(de: u8) -> (r: bool)
    ensures
        r == supported_de(de as int),
{
    match de {
        0 | 1 | 2 | 3 | 4 | 7 | 11 | 12 | 13 | 14 | 22 | 23 | 25 | 32 | 35 | 37 | 38 | 39 | 41 | 42 | 43 | 49 | 52 | 54 | 55 | 60 | 61 | 62 | 63 | 64 | 70 | 90 | 95 | 102 | 103 | 123 | 127 | 128 => true,
        _ => false,
    }
}

impl Iso8583Transaction {
    pub open spec fn wf(&self) -> bool {
        &&& self@.fields.len() == 129
        &&& forall|d: int| 0 <= d < 129 && !supported_de(d) ==> self@.fields[d] is None
    }

    /// A fresh record for a request: keyed by the clock reading and the
    /// trace number, in `Created` state, with the local time and date
    /// fields already placed.
    pub fn new(stan: &str, mti: &str, now: &Timestamp) -> (r: Iso8583Transaction)
        ensures
            r.wf(),
            r@.tr_dt == now.date8@,
            r@.tr_tm == now.time6@,
            r@.tr_uniq_no == stan@,
            r@.trm_id is None,
            r@.msg_typ == Some(mti@),
            r@.inst_trm_id is None,
            r@.inst_mer_no is None,
            r@.fields[0] == Some(mti@),
            r@.fields[11] == Some(stan@),
            r@.fields[12] == Some(now.time6@),
            r@.fields[13] == Some(now.date4@),
            forall|d: int|
                0 <= d < 129 && d != 0 && d != 11 && d != 12 && d != 13 ==> r@.fields[d] is None,
            r@.inst_dtm == Some(now.datetime14@),
            r@.updt_dtm is None,
            r@.tr_type == Some("CREATED"@),
    {
        let mut fields: Vec<Option<String>> = Vec::new();
        let mut i: usize = 0;
        while i < 129
            invariant
                i <= 129,
                fields@.len() == i,
                forall|j: int| 0 <= j < i ==> fields@[j] is None,
            decreases 129 - i,
        {
            fields.push(None);
            i = i + 1;
        }
        fields.set(0, Some(mti.to_owned()));
        fields.set(11, Some(stan.to_owned()));
        fields.set(12, Some(now.time6.clone()));
        fields.set(13, Some(now.date4.clone()));
        let r = Iso8583Transaction {
            tr_dt: now.date8.clone(),
            tr_tm: now.time6.clone(),
            tr_uniq_no: stan.to_owned(),
            trm_id: None,
            msg_typ: Some(mti.to_owned()),
            inst_trm_id: None,
            inst_mer_no: None,
            fields,
            inst_dtm: Some(now.datetime14.clone()),
            updt_dtm: None,
            tr_type: Some(TransactionState::Created.as_str().to_owned()),
        };
        r
    }

    /// Store a field value by data element number; element 41 also sets
    /// the terminal identifier, and unsupported numbers change nothing.
    pub fn set_field(&mut self, de: u8, value: Option<String>)
        requires
            old(self).wf(),
        ensures
            final(self).wf(),
            final(self).tr_dt == old(self).tr_dt,
            final(self).tr_tm == old(self).tr_tm,
            final(self).tr_uniq_no == old(self).tr_uniq_no,
            final(self)@.msg_typ == old(self)@.msg_typ,
            final(self)@.inst_trm_id == old(self)@.inst_trm_id,
            final(self)@.inst_mer_no == old(self)@.inst_mer_no,
            final(self)@.inst_dtm == old(self)@.inst_dtm,
            final(self)@.updt_dtm == old(self)@.updt_dtm,
            final(self)@.tr_type == old(self)@.tr_type,
            supported_de(de as int) ==> final(self)@.fields == old(self)@.fields.update(
                de as int,
                value.deep_view(),
            ),
            !supported_de(de as int) ==> final(self)@.fields == old(self)@.fields,
            de == 41 ==> final(self)@.trm_id == value.deep_view(),
            de != 41 ==> final(self)@.trm_id == old(self)@.trm_id,
    {
        if is_supported_de(de) {
            if de == 41 {
                self.trm_id = clone_opt(&value);
            }
            self.fields.set(de as usize, value);
            proof {
                assert(self@.fields =~= old(self)@.fields.update(de as int, value.deep_view()));
            }
        }
    }

    /// Read a field value by data element number.
    pub fn get_field(&self, de: u8) -> (r: Option<&String>)
        requires
            self.wf(),
        ensures
            match r {
                Some(s) => self@.fields[de as int] == Some(s@),
                None => de > 128 || self@.fields[de as int] is None,
            },
    {
        if de <= 128 {
            match &self.fields[de as usize] {
                Some(s) => Some(s),
                None => None,
            }
        } else {
            None
        }
    }
}

} // verus!
