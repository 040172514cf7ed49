//! ISO8583 presence bitmap: 128 one-indexed slots, serialized as 8 bytes
//! (primary only) or 16 bytes (primary + secondary), big-endian bit per
//! data element, rendered as upper-case hex text.
//!
//! Bit 1 is the secondary-bitmap indicator: it is forced on whenever a data
//! element above 64 is set, and the secondary eight bytes are emitted
//! exactly when some bit in 65..=128 is set.

use vstd::prelude::*;

use crate::hexutil::{
    bytes_to_hex, bytes_to_hex_upper, hex_chars_to_bytes, hex_parse, valid_hex, HexError,
};

verus! {

/// Whitespace stripped before hex parsing, as terminals often space bytes.
pub open spec fn is_ws(c: char) -> bool {
    c == ' ' || c == '\t' || c == '\n' || c == '\r'
}

pub open spec fn strip_ws(s: Seq<char>) -> Seq<char>
    decreases s.len(),
{
    if s.len() == 0 {
        Seq::empty()
    } else if is_ws(s.last()) {
        strip_ws(s.drop_last())
    } else {
        strip_ws(s.drop_last()).push(s.last())
    }
}

/// Remove whitespace characters, keeping everything else in order.
pub fn remove_ws(s: &str) -> (r: Vec<char>)
    ensures
        r@ == strip_ws(s@),
{
    let chars = crate::strutil::str_to_chars(s);
    let mut r: Vec<char> = Vec::new();
    let mut i: usize = 0;
    while i < chars.len()
        invariant
            chars@ == s@,
            i <= chars@.len(),
            r@ == strip_ws(s@.take(i as int)),
        decreases chars@.len() - i,
    {
        let c = chars[i];
        proof {
            assert(s@.take(i + 1).drop_last() =~= s@.take(i as int));
        }
        if !(c == ' ' || c == '\t' || c == '\n' || c == '\r') {
            r.push(c);
        }
        i = i + 1;
    }
    proof {
        assert(s@.take(s@.len() as int) =~= s@);
    }
    r
}

/// A bit of `de` is addressed through position `de - 1`.
pub open spec fn bit_set(bm: Seq<bool>, de: int) -> bool {
    1 <= de <= 128 && bm[de - 1]
}

/// Some data element above 64 is present.
pub open spec fn has_secondary(bm: Seq<bool>) -> bool {
    exists|i: int| 64 <= i < 128 && bm[i]
}

/// Bit `j` (0 = most significant) of the byte at index `bi`.
pub open spec fn byte_at(bm: Seq<bool>, bi: int) -> u8 {
    ((if bm[8 * bi] {
        128int
    } else {
        0
    }) + (if bm[8 * bi + 1] {
        64int
    } else {
        0
    }) + (if bm[8 * bi + 2] {
        32int
    } else {
        0
    }) + (if bm[8 * bi + 3] {
        16int
    } else {
        0
    }) + (if bm[8 * bi + 4] {
        8int
    } else {
        0
    }) + (if bm[8 * bi + 5] {
        4int
    } else {
        0
    }) + (if bm[8 * bi + 6] {
        2int
    } else {
        0
    }) + (if bm[8 * bi + 7] {
        1int
    } else {
        0
    })) as u8
}

/// Whether bit `j` (0 = most significant) of byte `b` is set.
pub open spec fn byte_bit(b: u8, j: int) -> bool {
    if j == 0 {
        (b / 128) % 2 == 1
    } else if j == 1 {
        (b / 64) % 2 == 1
    } else if j == 2 {
        (b / 32) % 2 == 1
    } else if j == 3 {
        (b / 16) % 2 == 1
    } else if j == 4 {
        (b / 8) % 2 == 1
    } else if j == 5 {
        (b / 4) % 2 == 1
    } else if j == 6 {
        (b / 2) % 2 == 1
    } else {
        b % 2 == 1
    }
}

/// Serialized bytes of a bitmap: primary eight, and the secondary eight
/// exactly when a bit above 64 is set.
pub open spec fn bitmap_bytes(bm: Seq<bool>) -> Seq<u8> {
    Seq::new(if has_secondary(bm) { 16nat } else { 8nat }, |i: int| byte_at(bm, i))
}

/// Hex text of a bitmap.
pub open spec fn bitmap_hex(bm: Seq<bool>) -> Seq<char> {
    bytes_to_hex(bitmap_bytes(bm))
}

/// Bits denoted by 8 or 16 serialized bytes; positions past the given
/// bytes are clear.
pub open spec fn bits_of_bytes(bs: Seq<u8>) -> Seq<bool> {
    Seq::new(128, |i: int| i < 8 * bs.len() && byte_bit(bs[i / 8], i % 8))
}

pub proof fn lemma_byte_bit_at(bm: Seq<bool>, bi: int, j: int)
    requires
        0 <= j < 8,
        0 <= bi,
        8 * bi + 7 < bm.len(),
    ensures
        byte_bit(byte_at(bm, bi), j) == bm[8 * bi + j],
{
    let x0: u8 = if bm[8 * bi] { 1 } else { 0 };
    let x1: u8 = if bm[8 * bi + 1] { 1 } else { 0 };
    let x2: u8 = if bm[8 * bi + 2] { 1 } else { 0 };
    let x3: u8 = if bm[8 * bi + 3] { 1 } else { 0 };
    let x4: u8 = if bm[8 * bi + 4] { 1 } else { 0 };
    let x5: u8 = if bm[8 * bi + 5] { 1 } else { 0 };
    let x6: u8 = if bm[8 * bi + 6] { 1 } else { 0 };
    let x7: u8 = if bm[8 * bi + 7] { 1 } else { 0 };
    let b = byte_at(bm, bi);
    assert(b == 128 * x0 + 64 * x1 + 32 * x2 + 16 * x3 + 8 * x4 + 4 * x5 + 2 * x6 + x7);
    assert({
        &&& ((b / 128) % 2 == 1) == (x0 == 1)
        &&& ((b / 64) % 2 == 1) == (x1 == 1)
        &&& ((b / 32) % 2 == 1) == (x2 == 1)
        &&& ((b / 16) % 2 == 1) == (x3 == 1)
        &&& ((b / 8) % 2 == 1) == (x4 == 1)
        &&& ((b / 4) % 2 == 1) == (x5 == 1)
        &&& ((b / 2) % 2 == 1) == (x6 == 1)
        &&& (b % 2 == 1) == (x7 == 1)
    }) by (bit_vector)
        requires
            x0 <= 1 && x1 <= 1 && x2 <= 1 && x3 <= 1 && x4 <= 1 && x5 <= 1 && x6 <= 1 && x7
                <= 1,
            b == 128 * x0 + 64 * x1 + 32 * x2 + 16 * x3 + 8 * x4 + 4 * x5 + 2 * x6 + x7,
    ;
}

/// Presence vector over data elements 1..=128.
pub struct Bitmap {
    bits: Vec<bool>,
}

impl View for Bitmap {
    type V = Seq<bool>;

    closed spec fn view(&self) -> Seq<bool> {
        self.bits@
    }
}

impl Bitmap {
    pub open spec fn wf(&self) -> bool {
        self@.len() == 128
    }

    /// Create an empty bitmap.
    pub fn new() -> (r: Bitmap)
        ensures
            r.wf(),
            forall|i: int| 0 <= i < 128 ==> !r@[i],
    {
        let mut bits: Vec<bool> = Vec::new();
        let mut i: usize = 0;
        while i < 128
            invariant
                i <= 128,
                bits@.len() == i,
                forall|j: int| 0 <= j < i ==> !bits@[j],
            decreases 128 - i,
        {
            bits.push(false);
            i = i + 1;
        }
        Bitmap { bits }
    }

    /// Set the bit of `de`; a data element above 64 also forces bit 1, the
    /// secondary-bitmap indicator.  Out-of-range numbers leave the bitmap
    /// unchanged.
    pub fn set_bit(&mut self, de: u8)
        requires
            old(self).wf(),
        ensures
            final(self).wf(),
            de < 1 || de > 128 ==> final(self)@ == old(self)@,
            1 <= de <= 64 ==> final(self)@ == old(self)@.update(de - 1, true),
            64 < de <= 128 ==> final(self)@ == old(self)@.update(de - 1, true).update(0, true),
    {
        if de >= 1 && de <= 128 {
            self.bits.set((de - 1) as usize, true);
            if de > 64 {
                self.bits.set(0, true);
            }
        }
    }

    /// Clear the bit of `de`; out-of-range numbers leave the bitmap
    /// unchanged.
    pub fn clear_bit(&mut self, de: u8)
        requires
            old(self).wf(),
        ensures
            final(self).wf(),
            de < 1 || de > 128 ==> final(self)@ == old(self)@,
            1 <= de <= 128 ==> final(self)@ == old(self)@.update(de - 1, false),
    {
        if de >= 1 && de <= 128 {
            self.bits.set((de - 1) as usize, false);
        }
    }

    /// Whether the bit of `de` is set; false outside 1..=128.
    pub fn is_set(&self, de: u8) -> (r: bool)
        requires
            self.wf(),
        ensures
            r == bit_set(self@, de as int),
    {
        if de >= 1 && de <= 128 {
            self.bits[(de - 1) as usize]
        } else {
            false
        }
    }

    /// The set data-element numbers, ascending.
    pub fn get_set_bits(&self) -> (r: Vec<u8>)
        requires
            self.wf(),
        ensures
            forall|a: int, b: int| 0 <= a < b < r@.len() ==> r@[a] < r@[b],
            forall|a: int| 0 <= a < r@.len() ==> bit_set(self@, #[trigger] r@[a] as int),
            forall|de: int| 1 <= de <= 128 && bit_set(self@, de) ==> r@.contains(de as u8),
    {
        let mut r: Vec<u8> = Vec::new();
        let mut i: usize = 0;
        while i < 128
            invariant
                self.wf(),
                i <= 128,
                forall|a: int, b: int| 0 <= a < b < r@.len() ==> r@[a] < r@[b],
                forall|a: int| 0 <= a < r@.len() ==> bit_set(self@, #[trigger] r@[a] as int),
                forall|a: int| 0 <= a < r@.len() ==> r@[a] <= i,
                forall|de: int| 1 <= de <= i && bit_set(self@, de) ==> r@.contains(de as u8),
            decreases 128 - i,
        {
            if self.bits[i] {
                let ghost r_old = r@;
                r.push((i + 1) as u8);
                proof {
                    assert forall|de: int|
                        1 <= de <= i + 1 && bit_set(self@, de) implies r@.contains(de as u8) by {
                        if de == i + 1 {
                            assert(r@[r@.len() - 1] == (i + 1) as u8);
                        } else {
                            let j = choose|j: int|
                                0 <= j < r_old.len() && r_old[j] == de as u8;
                            assert(r@[j] == de as u8);
                        }
                    }
                }
            }
            i = i + 1;
        }
        r
    }

    /// Render as upper-case hex: 16 characters, or 32 when a data element
    /// above 64 is present.
    pub fn to_hex(&self) -> (r: String)
        requires
            self.wf(),
        ensures
            r@ == bitmap_hex(self@),
            r@.len() == if has_secondary(self@) { 32int } else { 16int },
    {
        let mut secondary = false;
        let mut i: usize = 64;
        while i < 128
            invariant
                self.wf(),
                64 <= i <= 128,
                secondary == exists|j: int| 64 <= j < i && self@[j],
            decreases 128 - i,
        {
            if self.bits[i] {
                secondary = true;
            }
            i = i + 1;
        }
        proof {
            assert(secondary == has_secondary(self@));
        }
        let count: usize = if secondary {
            16
        } else {
            8
        };
        let mut bytes: Vec<u8> = Vec::new();
        let mut bi: usize = 0;
        while bi < count
            invariant
                self.wf(),
                count == if has_secondary(self@) { 16int } else { 8int },
                bi <= count,
                bytes@.len() == bi,
                forall|j: int| 0 <= j < bi ==> bytes@[j] == byte_at(self@, j),
            decreases count - bi,
        {
            let mut b: u8 = 0;
            if self.bits[8 * bi] {
                b = b + 128;
            }
            if self.bits[8 * bi + 1] {
                b = b + 64;
            }
            if self.bits[8 * bi + 2] {
                b = b + 32;
            }
            if self.bits[8 * bi + 3] {
                b = b + 16;
            }
            if self.bits[8 * bi + 4] {
                b = b + 8;
            }
            if self.bits[8 * bi + 5] {
                b = b + 4;
            }
            if self.bits[8 * bi + 6] {
                b = b + 2;
            }
            if self.bits[8 * bi + 7] {
                b = b + 1;
            }
            proof {
                assert(b == byte_at(self@, bi as int));
            }
            bytes.push(b);
            bi = bi + 1;
        }
        proof {
            assert(bytes@ =~= bitmap_bytes(self@));
        }
        bytes_to_hex_upper(bytes.as_slice())
    }

    /// Parse a bitmap from hex text: exactly 16 or 32 hex characters after
    /// whitespace removal, otherwise an error.
    pub fn from_hex(hex: &str) -> (r: Result<Bitmap, String>)
        ensures
            r is Ok <==> (strip_ws(hex@).len() == 16 || strip_ws(hex@).len() == 32) && valid_hex(
                strip_ws(hex@),
            ),
            r is Ok ==> r->Ok_0.wf() && r->Ok_0@ == bits_of_bytes(hex_parse(strip_ws(hex@))),
    {
        let cleaned = remove_ws(hex);
        if cleaned.len() != 16 && cleaned.len() != 32 {
            return Err("invalid bitmap length".to_owned());
        }
        let bytes = match hex_chars_to_bytes(&cleaned) {
            Ok(b) => b,
            Err(_) => {
                return Err("invalid bitmap hex".to_owned());
            },
        };
        let mut bits: Vec<bool> = Vec::new();
        let mut i: usize = 0;
        while i < 128
            invariant
                bytes@.len() == 8 || bytes@.len() == 16,
                i <= 128,
                bits@.len() == i,
                forall|j: int| 0 <= j < i ==> bits@[j] == bits_of_bytes(bytes@)[j],
            decreases 128 - i,
        {
            if i < 8 * bytes.len() {
                let b = bytes[i / 8];
                let j = i % 8;
                let w: u8 = match j {
                    0 => 128,
                    1 => 64,
                    2 => 32,
                    3 => 16,
                    4 => 8,
                    5 => 4,
                    6 => 2,
                    _ => 1,
                };
                let bit = (b / w) % 2 == 1;
                proof {
                    assert(bit == byte_bit(b, (i % 8) as int));
                }
                bits.push(bit);
            } else {
                bits.push(false);
            }
            i = i + 1;
        }
        proof {
            assert(bits@ =~= bits_of_bytes(bytes@));
        }
        Ok(Bitmap { bits })
    }
}

/// The bitmap a field table induces: position 0 (bit 1) is the
/// secondary-bitmap indicator, on when data element 1 is present or any
/// element above 64 is; every other position mirrors presence of its
/// element.
pub open spec fn fields_bitmap(fields: Seq<Option<Seq<char>>>) -> Seq<bool> {
    Seq::new(
        128,
        |i: int|
            if i == 0 {
                fields[1] is Some || exists|d: int| 65 <= d <= 128 && fields[d] is Some
            } else {
                fields[i + 1] is Some
            },
    )
}

impl Bitmap {
    /// Build the bitmap of a field table (slot index = data element
    /// number; slot 0 unused).
    pub fn from_fields(fields: &Vec<Option<String>>) -> (r: Bitmap)
        requires
            fields@.len() == 129,
        ensures
            r.wf(),
            r@ == fields_bitmap(fields.deep_view()),
    {
        let ghost fv = fields.deep_view();
        proof {
            assert(fv.len() == 129);
            assert(forall|d: int|
                0 <= d < 129 ==> (fv[d] is Some <==> fields@[d] is Some));
        }
        let mut r = Bitmap::new();
        let mut de: usize = 1;
        while de <= 128
            invariant
                fields@.len() == 129,
                fv == fields.deep_view(),
                1 <= de <= 129,
                r.wf(),
                forall|d: int| 0 <= d < 129 ==> (fv[d] is Some <==> fields@[d] is Some),
                forall|i: int|
                    1 <= i < 128 ==> (r@[i] == (i + 1 < de && fv[i + 1] is Some)),
                r@[0] == ((de > 1 && fv[1] is Some) || exists|d: int|
                    65 <= d < de && fv[d] is Some),
            decreases 129 - de,
        {
            let present = fields[de].is_some();
            if present {
                r.set_bit(de as u8);
            }
            proof {
                if present && de > 64 {
                    assert(r@[0]);
                    assert(65 <= (de as int) < de + 1 && fv[de as int] is Some);
                } else if !present && de > 64 {
                    assert forall|d: int| 65 <= d < de + 1 && fv[d] is Some implies d
                        < de as int by {}
                }
            }
            de = de + 1;
        }
        proof {
            assert(r@ =~= fields_bitmap(fv));
        }
        r
    }
}

/// Reading a rendered bitmap back yields the same 128 bits: the hex
/// round-trip law for bitmaps.
pub proof fn lemma_bitmap_hex_round_trip(bm: Seq<bool>)
    requires
        bm.len() == 128,
    ensures
        valid_hex(bitmap_hex(bm)),
        bits_of_bytes(hex_parse(bitmap_hex(bm))) == bm,
{
    let bs = bitmap_bytes(bm);
    crate::hexutil::lemma_hex_round_trip(bs);
    assert(hex_parse(bitmap_hex(bm)) == bs);
    let back = bits_of_bytes(bs);
    assert forall|i: int| 0 <= i < 128 implies back[i] == bm[i] by {
        if i < 8 * bs.len() {
            lemma_byte_bit_at(bm, i / 8, i % 8);
            assert(bs[i / 8] == byte_at(bm, i / 8));
            assert(8 * (i / 8) + (i % 8) == i);
        } else {
            assert(bs.len() == 8 && i >= 64);
            assert(!has_secondary(bm));
            assert(!bm[i]);
        }
    }
    assert(back =~= bm);
}

/// A bitmap built from fields with nothing above data element 64 and no
/// explicit element 1 serializes as eight bytes with bit 1 clear: the
/// secondary indicator appears only when a secondary field was added.
pub proof fn lemma_primary_only_bitmap(fields: Seq<Option<Seq<char>>>)
    requires
        fields.len() == 129,
        fields[1] is None,
        forall|d: int| 65 <= d <= 128 ==> fields[d] is None,
    ensures
        !has_secondary(fields_bitmap(fields)),
        !fields_bitmap(fields)[0],
        bitmap_hex(fields_bitmap(fields)).len() == 16,
{
    let bm = fields_bitmap(fields);
    assert forall|i: int| 64 <= i < 128 implies !bm[i] by {
        assert(fields[i + 1] is None);
    }
    assert(!has_secondary(bm));
    assert(bitmap_bytes(bm).len() == 8);
}

/// Hex text contains no whitespace, so parsing is insensitive to the
/// whitespace stripping step.
pub proof fn lemma_strip_ws_id(s: Seq<char>)
    requires
        forall|i: int| 0 <= i < s.len() ==> !is_ws(#[trigger] s[i]),
    ensures
        strip_ws(s) == s,
    decreases s.len(),
{
    if s.len() == 0 {
        assert(strip_ws(s) =~= s);
    } else {
        lemma_strip_ws_id(s.drop_last());
        assert(strip_ws(s) =~= s);
    }
}

} // verus!
