//! The ISO8583 message model: an MTI, a sparse table of data elements
//! 1..=128 stored as text, and the presence bitmap, materialized from the
//! fields immediately before serialization.

use vstd::prelude::*;

use crate::bitmap::{bitmap_hex, fields_bitmap, Bitmap};

verus! {

/// Request message type indicators.
pub open spec fn is_request_mti(m: Seq<char>) -> bool {
    m == "0100"@ || m == "0200"@ || m == "0400"@ || m == "0800"@
}

/// Response message type indicators.
pub open spec fn is_response_mti(m: Seq<char>) -> bool {
    m == "0110"@ || m == "0210"@ || m == "0410"@ || m == "0810"@
}

/// The response MTI answering a request MTI: the third digit goes up by
/// one.
pub open spec fn response_mti_of(m: Seq<char>) -> Option<Seq<char>> {
    if m == "0100"@ {
        Some("0110"@)
    } else if m == "0200"@ {
        Some("0210"@)
    } else if m == "0400"@ {
        Some("0410"@)
    } else if m == "0800"@ {
        Some("0810"@)
    } else {
        None
    }
}

/// Spec-level value of a message: MTI text, field table indexed by data
/// element number (slot 0 unused), and the bitmap text.
pub struct MsgView {
    pub mti: Seq<char>,
    pub fields: Seq<Option<Seq<char>>>,
    pub bitmap: Seq<char>,
}

/// An ISO8583 message under construction or decoded from the wire.
#[derive(Debug, Clone)]
pub struct Iso8583Message {
    /// Message Type Indicator, four digits.
    pub mti: String,
    /// Field table indexed by data element number; slot 0 is unused.
    pub fields: Vec<Option<String>>,
    /// Bitmap hex text; empty until `build_bitmap` runs, or as decoded.
    pub bitmap: String,
}

impl View for Iso8583Message {
    type V = MsgView;

    open spec fn view(&self) -> MsgView {
        MsgView { mti: self.mti@, fields: self.fields.deep_view(), bitmap: self.bitmap@ }
    }
}

impl Iso8583Message {
    pub open spec fn wf(&self) -> bool {
        &&& self@.fields.len() == 129
        &&& self@.fields[0] is None
    }

    /// Create an empty message with the given MTI.
    pub fn new(mti: &str) -> (r: Iso8583Message)
        ensures
            r.wf(),
            r@.mti == mti@,
            forall|d: int| 0 <= d < 129 ==> r@.fields[d] is None,
            r@.bitmap == Seq::<char>::empty(),
    {
        let mut fields: Vec<Option<String>> = Vec::new();
        let mut i: usize = 0;
        while i < 129
            invariant
                i <= 129,
                fields@.len() == i,
                forall|j: int| 0 <= j < i ==> fields@[j] is None,
            decreases 129 - i,
        {
            fields.push(None);
            i = i + 1;
        }
        let r = Iso8583Message { mti: mti.to_owned(), fields, bitmap: String::new() };
        proof {
            assert(forall|d: int|
                0 <= d < 129 ==> r@.fields[d] is None);
        }
        r
    }

    /// Store a field value; data elements outside 1..=128 are ignored.
    pub fn set_field(&mut self, de: u8, value: String)
        requires
            old(self).wf(),
        ensures
            final(self).wf(),
            final(self)@.mti == old(self)@.mti,
            final(self)@.bitmap == old(self)@.bitmap,
            1 <= de <= 128 ==> final(self)@.fields == old(self)@.fields.update(
                de as int,
                Some(value@),
            ),
            !(1 <= de <= 128) ==> final(self)@.fields == old(self)@.fields,
    {
        if de >= 1 && de <= 128 {
            self.fields.set(de as usize, Some(value));
            proof {
                assert(self@.fields =~= old(self)@.fields.update(de as int, Some(value@)));
            }
        }
    }

    /// Read a field value.
    pub fn get_field(&self, de: u8) -> (r: Option<&String>)
        requires
            self.wf(),
        ensures
            de <= 128 ==> (match r {
                Some(s) => self@.fields[de as int] == Some(s@),
                None => self@.fields[de as int] is None,
            }),
            de > 128 ==> r is None,
    {
        if de <= 128 {
            match &self.fields[de as usize] {
                Some(s) => Some(s),
                None => None,
            }
        } else {
            None
        }
    }

    /// Whether a field is present.
    pub fn has_field(&self, de: u8) -> (r: bool)
        requires
            self.wf(),
        ensures
            r == (de <= 128 && self@.fields[de as int] is Some),
    {
        if de <= 128 {
            self.fields[de as usize].is_some()
        } else {
            false
        }
    }

    /// Remove a field, returning the value it held.
    pub fn remove_field(&mut self, de: u8) -> (r: Option<String>)
        requires
            old(self).wf(),
        ensures
            final(self).wf(),
            final(self)@.mti == old(self)@.mti,
            final(self)@.bitmap == old(self)@.bitmap,
            de <= 128 ==> {
                &&& final(self)@.fields == old(self)@.fields.update(de as int, None)
                &&& (match r {
                    Some(s) => old(self)@.fields[de as int] == Some(s@),
                    None => old(self)@.fields[de as int] is None,
                })
            },
            de > 128 ==> final(self)@.fields == old(self)@.fields && r is None,
    {
        if de <= 128 {
            let r = match &self.fields[de as usize] {
                Some(s) => Some(s.clone()),
                None => None,
            };
            self.fields.set(de as usize, None);
            proof {
                assert(self@.fields =~= old(self)@.fields.update(de as int, None));
            }
            r
        } else {
            None
        }
    }

    /// The data element numbers present, ascending.
    pub fn get_field_numbers(&self) -> (r: Vec<u8>)
        requires
            self.wf(),
        ensures
            forall|a: int, b: int| 0 <= a < b < r@.len() ==> r@[a] < r@[b],
            forall|a: int|
                0 <= a < r@.len() ==> 1 <= #[trigger] r@[a] <= 128 && self@.fields[r@[a] as int] is Some,
            forall|de: int|
                1 <= de <= 128 && self@.fields[de] is Some ==> r@.contains(de as u8),
    {
        let mut r: Vec<u8> = Vec::new();
        let mut de: usize = 1;
        while de <= 128
            invariant
                self.wf(),
                1 <= de <= 129,
                forall|a: int, b: int| 0 <= a < b < r@.len() ==> r@[a] < r@[b],
                forall|a: int|
                    0 <= a < r@.len() ==> 1 <= #[trigger] r@[a] <= 128 && self@.fields[r@[a] as int] is Some,
                forall|a: int| 0 <= a < r@.len() ==> r@[a] < de,
                forall|d: int| 1 <= d < de && self@.fields[d] is Some ==> r@.contains(d as u8),
            decreases 129 - de,
        {
            if self.fields[de].is_some() {
                let ghost r_old = r@;
                r.push(de as u8);
                proof {
                    assert forall|d: int|
                        1 <= d < de + 1 && self@.fields[d] is Some implies r@.contains(
                        d as u8,
                    ) by {
                        if d == de {
                            assert(r@[r@.len() - 1] == de as u8);
                        } else {
                            let j = choose|j: int|
                                0 <= j < r_old.len() && r_old[j] == d as u8;
                            assert(r@[j] == d as u8);
                        }
                    }
                }
            }
            de = de + 1;
        }
        r
    }

    /// Number of fields present.
    pub fn field_count(&self) -> (r: usize)
        requires
            self.wf(),
        ensures
            r == self.get_field_numbers_spec_count(),
    {
        let mut count: usize = 0;
        let mut de: usize = 1;
        proof {
            assert(count_present(self@.fields, 0) == 0);
            assert(count_present(self@.fields, 1) == 0);
        }
        while de <= 128
            invariant
                self.wf(),
                1 <= de <= 129,
                count == count_present(self@.fields, de as int),
                count < de,
            decreases 129 - de,
        {
            if self.fields[de].is_some() {
                count = count + 1;
            }
            de = de + 1;
        }
        count
    }

    pub open spec fn get_field_numbers_spec_count(&self) -> int {
        count_present(self@.fields, 129)
    }

    /// Derive and store the bitmap text from the present fields.
    pub fn build_bitmap(&mut self)
        requires
            old(self).wf(),
        ensures
            final(self).wf(),
            final(self)@.mti == old(self)@.mti,
            final(self)@.fields == old(self)@.fields,
            final(self)@.bitmap == bitmap_hex(fields_bitmap(old(self)@.fields)),
    {
        let bm = Bitmap::from_fields(&self.fields);
        self.bitmap = bm.to_hex();
    }

    /// Whether the MTI is one of the request classes.
    pub fn is_request(&self) -> (r: bool)
        ensures
            r == is_request_mti(self@.mti),
    {
        let m = self.mti.as_str();
        crate::strutil::str_eq(m, "0100") || crate::strutil::str_eq(m, "0200")
            || crate::strutil::str_eq(m, "0400") || crate::strutil::str_eq(m, "0800")
    }

    /// Whether the MTI is one of the response classes.
    pub fn is_response(&self) -> (r: bool)
        ensures
            r == is_response_mti(self@.mti),
    {
        let m = self.mti.as_str();
        crate::strutil::str_eq(m, "0110") || crate::strutil::str_eq(m, "0210")
            || crate::strutil::str_eq(m, "0410") || crate::strutil::str_eq(m, "0810")
    }

    /// The MTI of the answer to this request, if it is a request.
    pub fn get_response_mti(&self) -> (r: Option<String>)
        ensures
            match r {
                Some(s) => response_mti_of(self@.mti) == Some(s@),
                None => response_mti_of(self@.mti) is None,
            },
    {
        let m = self.mti.as_str();
        if crate::strutil::str_eq(m, "0100") {
            Some("0110".to_owned())
        } else if crate::strutil::str_eq(m, "0200") {
            Some("0210".to_owned())
        } else if crate::strutil::str_eq(m, "0400") {
            Some("0410".to_owned())
        } else if crate::strutil::str_eq(m, "0800") {
            Some("0810".to_owned())
        } else {
            None
        }
    }
}

/// How many of the slots below `upto` hold a value.
pub open spec fn count_present(fields: Seq<Option<Seq<char>>>, upto: int) -> int
    decreases upto,
{
    if upto <= 0 {
        0
    } else {
        count_present(fields, upto - 1) + if fields[upto - 1] is Some {
            1int
        } else {
            0
        }
    }
}

} // verus!
