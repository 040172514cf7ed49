//! The reversal engine: eligibility rules over the transaction state and
//! construction of the 0400 reversal message.
//!
//! An approved transaction is complete and cannot be auto-reversed; an
//! already reversed one cannot be reversed again; every other state is
//! eligible.  The reversal message links back to the original through
//! data element 90: original local date, local time, and unique number.

use vstd::prelude::*;

use crate::message::Iso8583Message;
use crate::stan::{spec_next_stan, StanGenerator};
use crate::strutil::dec_seq;
use crate::transaction::{
    spec_state_from, Iso8583Transaction, Timestamp, TransactionState,
};

verus! {

/// Why a reversal was requested.
#[derive(Debug, Clone, Copy, PartialEq, Eq, Structural)]
pub enum ReversalReason {
    /// No response received in time.
    Timeout,
    /// Customer cancellation.
    CustomerCancellation,
    /// Suspected malfunction.
    SuspectedMalfunction,
    /// Unable to deliver the response.
    UnableToDeliver,
    /// Any other reason.
    Other,
}

/// The wire code of a reason.
pub open spec fn spec_reason_code(r: ReversalReason) -> Seq<char> {
    match r {
        ReversalReason::Timeout => "68"@,
        ReversalReason::CustomerCancellation => "17"@,
        ReversalReason::SuspectedMalfunction => "96"@,
        ReversalReason::UnableToDeliver => "68"@,
        ReversalReason::Other => "99"@,
    }
}

impl ReversalReason {
    /// The wire code of this reason.
    pub fn as_code(&self) -> (r: &'static str)
        ensures
            r@ == spec_reason_code(*self),
    {
        match self {
            ReversalReason::Timeout => "68",
            ReversalReason::CustomerCancellation => "17",
            ReversalReason::SuspectedMalfunction => "96",
            ReversalReason::UnableToDeliver => "68",
            ReversalReason::Other => "99",
        }
    }

    /// Human-readable description of this reason.
    pub fn description(&self) -> (r: &'static str)
        ensures
            *self == ReversalReason::Timeout ==> r@ == "Timeout - no response received"@,
            *self == ReversalReason::CustomerCancellation ==> r@ == "Customer cancellation"@,
            *self == ReversalReason::SuspectedMalfunction ==> r@ == "Suspected malfunction"@,
            *self == ReversalReason::UnableToDeliver ==> r@ == "Unable to deliver response"@,
            *self == ReversalReason::Other ==> r@ == "Other reason"@,
    {
        match self {
            ReversalReason::Timeout => "Timeout - no response received",
            ReversalReason::CustomerCancellation => "Customer cancellation",
            ReversalReason::SuspectedMalfunction => "Suspected malfunction",
            ReversalReason::UnableToDeliver => "Unable to deliver response",
            ReversalReason::Other => "Other reason",
        }
    }
}

/// Failures of the reversal engine.
#[derive(Debug, Clone, PartialEq, Eq)]
pub enum ReversalError {
    /// No record for the given trace number.
    TransactionNotFound,
    /// The original was approved and is complete.
    TransactionAlreadyCompleted,
    /// The original was already reversed.
    AlreadyReversed,
    /// The store failed.
    DatabaseError(String),
    /// The record's state text is unusable.
    InvalidState,
}

/// Whether a state text blocks reversal, and how.  Approved blocks as
/// complete, Reversed blocks as already reversed, everything else (and an
/// absent or unknown state) is eligible.
pub open spec fn spec_eligibility(tr_type: Option<Seq<char>>) -> Result<(), ReversalError> {
    match tr_type {
        Some(t) => {
            if spec_state_from(t) == Some(TransactionState::Approved) {
                Err(ReversalError::TransactionAlreadyCompleted)
            } else if spec_state_from(t) == Some(TransactionState::Reversed) {
                Err(ReversalError::AlreadyReversed)
            } else {
                Ok(())
            }
        },
        None => Ok(()),
    }
}

/// The text of data element 90, original data elements: the original's
/// local date, local time, and unique transaction number, concatenated.
pub open spec fn spec_original_data(tx: &Iso8583Transaction) -> Seq<char> {
    (match tx@.fields[13] {
        Some(d) => d,
        None => "0000"@,
    }) + (match tx@.fields[12] {
        Some(t) => t,
        None => "000000"@,
    }) + tx@.tr_uniq_no
}

/// Builds 0400 reversal messages and applies the reversal state.
pub struct ReversalService {
    stan_generator: StanGenerator,
}

impl ReversalService {
    pub open spec fn wf(&self) -> bool {
        self.stan_gen().wf()
    }

    pub closed spec fn stan_gen(&self) -> &StanGenerator {
        &self.stan_generator
    }

    /// A reversal engine drawing trace numbers from its own generator.
    pub fn new(stan_generator: StanGenerator) -> (r: ReversalService)
        requires
            stan_generator.wf(),
        ensures
            r.wf(),
    {
        ReversalService { stan_generator }
    }

    /// Check whether a record's state admits reversal: an approved
    /// transaction is already complete, a reversed one cannot be reversed
    /// again, anything else may be reversed.
    pub fn check_eligibility(original_tx: &Iso8583Transaction) -> (r: Result<(), ReversalError>)
        ensures
            r == spec_eligibility(original_tx@.tr_type),
    {
        match &original_tx.tr_type {
            Some(t) => {
                match TransactionState::from_str(t.as_str()) {
                    Some(TransactionState::Approved) => Err(
                        ReversalError::TransactionAlreadyCompleted,
                    ),
                    Some(TransactionState::Reversed) => Err(ReversalError::AlreadyReversed),
                    _ => Ok(()),
                }
            },
            None => Ok(()),
        }
    }

    /// Build the 0400 reversal of an original transaction: a fresh trace
    /// number, fresh transmission timestamps, the original's key fields,
    /// the reason code in data element 56, and the linkage to the
    /// original in data element 90.
    pub fn create_reversal(
        &mut self,
        original_tx: &Iso8583Transaction,
        reason_code: ReversalReason,
        now: &Timestamp,
        today: &str,
    ) -> (r: Result<Iso8583Message, ReversalError>)
        requires
            old(self).wf(),
            original_tx.wf(),
        ensures
            final(self).wf(),
            r is Ok,
            r->Ok_0.wf(),
            r->Ok_0@.mti == "0400"@,
            r->Ok_0@.fields[11] == Some(
                dec_seq(
                    spec_next_stan(
                        old(self).stan_gen().spec_current(),
                        old(self).stan_gen().spec_last_date(),
                        today@,
                    ),
                    6,
                ),
            ),
            r->Ok_0@.fields[7] == Some(now.datetime10@),
            r->Ok_0@.fields[12] == Some(now.time6@),
            r->Ok_0@.fields[13] == Some(now.date4@),
            r->Ok_0@.fields[2] == original_tx@.fields[2],
            r->Ok_0@.fields[3] == original_tx@.fields[3],
            r->Ok_0@.fields[4] == original_tx@.fields[4],
            r->Ok_0@.fields[41] == original_tx@.fields[41],
            r->Ok_0@.fields[42] == original_tx@.fields[42],
            r->Ok_0@.fields[49] == original_tx@.fields[49],
            r->Ok_0@.fields[90] == Some(spec_original_data(original_tx)),
            r->Ok_0@.fields[56] == Some(spec_reason_code(reason_code)),
            forall|d: int|
                0 <= d < 129 && d != 11 && d != 7 && d != 12 && d != 13 && d != 2 && d != 3 && d
                    != 4 && d != 41 && d != 42 && d != 49 && d != 90 && d != 56
                    ==> r->Ok_0@.fields[d] is None,
    {
        let mut reversal = Iso8583Message::new("0400");
        let reversal_stan = self.stan_generator.next(today);
        reversal.set_field(11, reversal_stan);
        reversal.set_field(7, now.datetime10.clone());
        reversal.set_field(12, now.time6.clone());
        reversal.set_field(13, now.date4.clone());
        copy_tx_field(original_tx, &mut reversal, 2);
        copy_tx_field(original_tx, &mut reversal, 3);
        copy_tx_field(original_tx, &mut reversal, 4);
        copy_tx_field(original_tx, &mut reversal, 41);
        copy_tx_field(original_tx, &mut reversal, 42);
        copy_tx_field(original_tx, &mut reversal, 49);
        let d13 = match original_tx.get_field(13) {
            Some(s) => s.clone(),
            None => "0000".to_owned(),
        };
        let d12 = match original_tx.get_field(12) {
            Some(s) => s.clone(),
            None => "000000".to_owned(),
        };
        let original_data = d13.concat(d12.as_str()).concat(original_tx.tr_uniq_no.as_str());
        reversal.set_field(90, original_data);
        reversal.set_field(56, reason_code.as_code().to_owned());
        Ok(reversal)
    }

    /// Record the reversal on the original's row: state `Reversed`,
    /// response code 99, and the update time.
    pub fn mark_as_reversed(
        &self,
        record: &mut Iso8583Transaction,
        now: &Timestamp,
    ) -> (r: Result<(), ReversalError>)
        requires
            old(record).wf(),
        ensures
            final(record).wf(),
            r is Ok,
            final(record)@.tr_type == Some("REVERSED"@),
            final(record)@.fields == old(record)@.fields.update(39int, Some("99"@)),
            final(record)@.updt_dtm == Some(now.datetime14@),
            final(record)@.tr_dt == old(record)@.tr_dt,
            final(record)@.tr_tm == old(record)@.tr_tm,
            final(record)@.tr_uniq_no == old(record)@.tr_uniq_no,
    {
        record.set_field(39, Some("99".to_owned()));
        record.tr_type = Some(TransactionState::Reversed.as_str().to_owned());
        record.updt_dtm = Some(now.datetime14.clone());
        Ok(())
    }
}

/// Copy one stored field of the original record into the reversal, when
/// present.
fn copy_tx_field(from: &Iso8583Transaction, to: &mut Iso8583Message, de: u8)
    requires
        from.wf(),
        old(to).wf(),
        1 <= de <= 128,
    ensures
        final(to).wf(),
        final(to)@.mti == old(to)@.mti,
        final(to)@.bitmap == old(to)@.bitmap,
        final(to)@.fields.len() == old(to)@.fields.len(),
        from@.fields[de as int] is Some ==> final(to)@.fields[de as int] == from@.fields[de as int],
        from@.fields[de as int] is None ==> final(to)@.fields[de as int] == old(to)@.fields[de as int],
        forall|d: int|
            0 <= d < old(to)@.fields.len() && d != de ==> final(to)@.fields[d] == old(
                to,
            )@.fields[d],
{
    match from.get_field(de) {
        Some(v) => {
            let c = v.clone();
            to.set_field(de, c);
        },
        None => {},
    }
}

} // verus!
