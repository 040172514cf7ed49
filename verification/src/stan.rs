//! The System Trace Audit Number generator: a six-digit counter scoped to
//! the calendar day.
//!
//! Numbers run 000001..999999, wrap back to 1 (never 0), and restart at 1
//! when the date changes.  The date is handed in by the caller as a plain
//! string; the engine never reads a clock itself.

use vstd::prelude::*;

use crate::strutil::{dec_seq, pow10};

verus! {

/// The counter value after one draw: reset on a date change, then one up,
/// wrapping from 999999 back to 1.
pub open spec fn spec_next_stan(cur: int, last: Seq<char>, today: Seq<char>) -> int {
    let base: int = if today != last {
        0
    } else {
        cur
    };
    if base + 1 > 999999 {
        1
    } else {
        base + 1
    }
}

/// Sequential trace-number source with daily reset.
pub struct StanGenerator {
    current: u32,
    last_date: String,
}

impl StanGenerator {
    pub open spec fn wf(&self) -> bool {
        self.spec_current() <= 999999
    }

    pub closed spec fn spec_current(&self) -> int {
        self.current as int
    }

    pub closed spec fn spec_last_date(&self) -> Seq<char> {
        self.last_date@
    }

    /// A fresh generator for the given date; the first draw yields
    /// 000001.
    pub fn new(today: &str) -> (r: StanGenerator)
        ensures
            r.wf(),
            r.spec_current() == 0,
            r.spec_last_date() == today@,
    {
        StanGenerator { current: 0, last_date: today.to_owned() }
    }

    /// Draw the next trace number for `today`, as six zero-padded digits.
    pub fn next(&mut self, today: &str) -> (r: String)
        requires
            old(self).wf(),
        ensures
            final(self).wf(),
            final(self).spec_current() == spec_next_stan(
                old(self).spec_current(),
                old(self).spec_last_date(),
                today@,
            ),
            final(self).spec_last_date() == today@,
            r@ == dec_seq(final(self).spec_current(), 6),
            r@.len() == 6,
    {
        if !crate::strutil::str_eq(self.last_date.as_str(), today) {
            self.current = 0;
            self.last_date = today.to_owned();
        }
        let next_val = self.current + 1;
        let stan: u32 = if next_val > 999999 {
            1
        } else {
            next_val
        };
        self.current = stan;
        proof {
            assert(pow10(0) == 1);
            assert(pow10(1) == 10);
            assert(pow10(2) == 100);
            assert(pow10(3) == 1000);
            assert(pow10(4) == 10000);
            assert(pow10(5) == 100000);
            assert(pow10(6) == 1000000);
        }
        crate::strutil::format_dec(stan as u64, 6)
    }

    /// The counter as it stands, without drawing.
    pub fn current(&self) -> (r: u32)
        ensures
            r == self.spec_current(),
    {
        self.current
    }

    /// Reset the counter for the given date; the next draw yields 000001.
    pub fn reset(&mut self, today: &str)
        ensures
            final(self).wf(),
            final(self).spec_current() == 0,
            final(self).spec_last_date() == today@,
    {
        self.current = 0;
        self.last_date = today.to_owned();
    }
}

/// The trace-number policy: within one day the counter counts up by one;
/// after 999999 the next number is 1, not 0; and a date change restarts
/// the sequence at 1.
pub proof fn lemma_stan_policy(cur: int, last: Seq<char>, today: Seq<char>)
    ensures
        last == today && 0 <= cur < 999999 ==> spec_next_stan(cur, last, today) == cur + 1,
        last == today && cur == 999999 ==> spec_next_stan(cur, last, today) == 1,
        last != today ==> spec_next_stan(cur, last, today) == 1,
{
}

} // verus!
