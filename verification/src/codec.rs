//! Per-data-element wire formats of ISO8583 and the message codec.
//!
//! Each data element has a fixed format: packed numeric (BCD), fixed ASCII
//! text, a 2- or 3-digit length-prefixed variable field, or raw binary.
//! Encoding and decoding are specified by `spec_encode_field` and
//! `spec_decode_field`; the message-level `parse` and `build` walk the
//! bitmap's set bits in ascending order.

use vstd::prelude::*;

use crate::bitmap::{
    bit_set, bitmap_hex, bits_of_bytes, byte_bit, fields_bitmap, remove_ws, strip_ws, Bitmap,
};
use crate::hexutil::{bytes_to_hex, hex_chars_to_bytes, hex_parse, valid_hex};
use crate::message::Iso8583Message;
use crate::strutil::{
    ascii_chars, dec_seq, decoded_text, left_pad_zeros, pad_left_zeros, pad_right_spaces, pow10,
    right_pad_spaces, str_to_chars, string_from_bytes_lossy,
};

verus! {

broadcast use vstd::string::is_ascii_spec_bytes;

/// Failures of message decoding and building; fatal to the one message.
#[derive(Debug, Clone, PartialEq, Eq)]
pub enum ParseError {
    /// Payload too short for MTI and primary bitmap.
    InvalidLength(usize),
    /// MTI bytes are not ASCII text.
    InvalidMti(String),
    /// Bitmap malformed or secondary bitmap missing.
    InvalidBitmap(String),
    /// A field's format is unknown or its data is malformed or truncated.
    InvalidField { de: u8, msg: String },
    /// A required field is absent.
    MissingField(u8),
    /// The carrier hex text is malformed.
    HexError(String),
}

/// Wire format of one data element.
#[derive(Debug, Clone, Copy, PartialEq, Eq, Structural)]
pub enum FieldFormat {
    /// Packed numeric, `ceil(n/2)` bytes for `n` digits: the value is
    /// zero-padded on the left to `n` digits, and an odd width takes a
    /// trailing filler nibble, which decoding drops again.
    FixedNumeric(usize),
    /// Exactly `n` ASCII characters, space-padded on the right.
    FixedAlpha(usize),
    /// Two ASCII-digit length prefix, then that many text bytes.
    Llvar(usize),
    /// Three ASCII-digit length prefix, then that many raw bytes, carried
    /// as upper-case hex text.
    Lllvar(usize),
    /// Exactly `n` raw bytes, carried as upper-case hex text.
    Binary(usize),
}

/// The standard format table: data element number to wire format.
pub open spec fn spec_format(de: int) -> Option<FieldFormat> {
    if de == 2 {
        Some(FieldFormat::Llvar(19))
    } else if de == 3 {
        Some(FieldFormat::FixedNumeric(6))
    } else if de == 4 {
        Some(FieldFormat::FixedNumeric(12))
    } else if de == 7 {
        Some(FieldFormat::FixedNumeric(10))
    } else if de == 11 {
        Some(FieldFormat::FixedNumeric(6))
    } else if de == 12 {
        Some(FieldFormat::FixedNumeric(6))
    } else if de == 13 {
        Some(FieldFormat::FixedNumeric(4))
    } else if de == 14 {
        Some(FieldFormat::FixedNumeric(4))
    } else if de == 18 {
        Some(FieldFormat::FixedNumeric(4))
    } else if de == 22 {
        Some(FieldFormat::FixedNumeric(3))
    } else if de == 23 {
        Some(FieldFormat::FixedNumeric(3))
    } else if de == 25 {
        Some(FieldFormat::FixedNumeric(2))
    } else if de == 32 {
        Some(FieldFormat::Llvar(11))
    } else if de == 35 {
        Some(FieldFormat::Llvar(37))
    } else if de == 37 {
        Some(FieldFormat::FixedAlpha(12))
    } else if de == 38 {
        Some(FieldFormat::FixedAlpha(6))
    } else if de == 39 {
        Some(FieldFormat::FixedAlpha(2))
    } else if de == 41 {
        Some(FieldFormat::FixedAlpha(8))
    } else if de == 42 {
        Some(FieldFormat::FixedAlpha(15))
    } else if de == 43 {
        Some(FieldFormat::FixedAlpha(40))
    } else if de == 49 {
        Some(FieldFormat::FixedNumeric(3))
    } else if de == 52 {
        Some(FieldFormat::Binary(8))
    } else if de == 54 {
        Some(FieldFormat::Lllvar(120))
    } else if de == 55 {
        Some(FieldFormat::Lllvar(999))
    } else if de == 60 {
        Some(FieldFormat::Lllvar(999))
    } else if de == 61 {
        Some(FieldFormat::Lllvar(999))
    } else if de == 62 {
        Some(FieldFormat::Lllvar(999))
    } else if de == 63 {
        Some(FieldFormat::Lllvar(999))
    } else if de == 64 {
        Some(FieldFormat::Binary(8))
    } else if de == 70 {
        Some(FieldFormat::FixedNumeric(3))
    } else if de == 90 {
        Some(FieldFormat::FixedNumeric(42))
    } else if de == 95 {
        Some(FieldFormat::FixedAlpha(42))
    } else if de == 102 {
        Some(FieldFormat::Llvar(28))
    } else if de == 103 {
        Some(FieldFormat::Llvar(28))
    } else if de == 123 {
        Some(FieldFormat::Lllvar(999))
    } else if de == 127 {
        Some(FieldFormat::Lllvar(999))
    } else if de == 128 {
        Some(FieldFormat::Binary(8))
    } else {
        None
    }
}

/// Text whose characters are 7-bit ASCII.
pub open spec fn ascii_text(s: Seq<char>) -> bool {
    vstd::utf8::is_ascii_chars(s)
}

/// The bytes of ASCII text, one per character.
pub open spec fn text_bytes(s: Seq<char>) -> Seq<u8> {
    Seq::new(s.len(), |i: int| s[i] as u8)
}

/// Wire bytes of one field value, or `None` when the value does not fit
/// the format.
pub open spec fn spec_encode_field(fmt: FieldFormat, v: Seq<char>) -> Option<Seq<u8>> {
    match fmt {
        FieldFormat::FixedNumeric(n) => {
            let padded = left_pad_zeros(v, n as int);
            let full = if padded.len() % 2 == 1 {
                padded.push('0')
            } else {
                padded
            };
            if valid_hex(full) {
                Some(hex_parse(full))
            } else {
                None
            }
        },
        FieldFormat::FixedAlpha(n) => {
            let padded = right_pad_spaces(v, n as int);
            if ascii_text(padded) {
                Some(text_bytes(padded))
            } else {
                None
            }
        },
        FieldFormat::Llvar(max) => {
            if ascii_text(v) && v.len() <= max && v.len() <= 99 {
                Some(text_bytes(dec_seq(v.len() as int, 2)) + text_bytes(v))
            } else {
                None
            }
        },
        FieldFormat::Lllvar(max) => {
            if valid_hex(v) && v.len() / 2 <= max && v.len() / 2 <= 999 {
                Some(text_bytes(dec_seq((v.len() / 2) as int, 3)) + hex_parse(v))
            } else {
                None
            }
        },
        FieldFormat::Binary(_n) => {
            if valid_hex(v) {
                Some(hex_parse(v))
            } else {
                None
            }
        },
    }
}

/// Value of an ASCII-digit length prefix of `w` bytes, if well formed.
pub open spec fn spec_len_prefix(data: Seq<u8>, w: int) -> Option<int> {
    if data.len() >= w && (forall|i: int| 0 <= i < w ==> 48 <= #[trigger] data[i] <= 57) {
        if w == 2 {
            Some(10 * (data[0] - 48) + (data[1] - 48))
        } else {
            Some(100 * (data[0] - 48) + 10 * (data[1] - 48) + (data[2] - 48))
        }
    } else {
        None
    }
}

/// Decoded text of one field and the bytes it consumed, or `None` when the
/// data is truncated or malformed.
pub open spec fn spec_decode_field(fmt: FieldFormat, data: Seq<u8>) -> Option<(Seq<char>, int)> {
    match fmt {
        FieldFormat::FixedNumeric(n) => {
            let bcd = (n + 1) / 2;
            if data.len() >= bcd {
                Some((bytes_to_hex(data.take(bcd as int)).take(n as int), bcd as int))
            } else {
                None
            }
        },
        FieldFormat::FixedAlpha(n) => {
            if data.len() >= n {
                Some((decoded_text(data.take(n as int)), n as int))
            } else {
                None
            }
        },
        FieldFormat::Llvar(max) => {
            match spec_len_prefix(data, 2) {
                None => None,
                Some(len) => {
                    if len <= max && data.len() >= 2 + len {
                        Some((decoded_text(data.subrange(2, 2 + len)), 2 + len))
                    } else {
                        None
                    }
                },
            }
        },
        FieldFormat::Lllvar(max) => {
            match spec_len_prefix(data, 3) {
                None => None,
                Some(len) => {
                    if len <= max && data.len() >= 3 + len {
                        Some((bytes_to_hex(data.subrange(3, 3 + len)), 3 + len))
                    } else {
                        None
                    }
                },
            }
        },
        FieldFormat::Binary(n) => {
            if data.len() >= n {
                Some((bytes_to_hex(data.take(n as int)), n as int))
            } else {
                None
            }
        },
    }
}

/// ISO8583 message parser and builder over the standard format table.
pub struct Iso8583Parser {
    field_formats: Vec<Option<FieldFormat>>,
}

impl Iso8583Parser {
    pub open spec fn wf(&self) -> bool {
        &&& self.formats()@.len() == 129
        &&& forall|de: int| 0 <= de < 129 ==> self.formats()@[de] == spec_format(de)
    }

    pub closed spec fn formats(&self) -> &Vec<Option<FieldFormat>> {
        &self.field_formats
    }

    /// Create a parser loaded with the standard format table.
    pub fn new() -> (r: Iso8583Parser)
        ensures
            r.wf(),
    {
        let mut parser = Iso8583Parser { field_formats: Vec::new() };
        parser.init_default_formats();
        parser
    }

    /// Fill the per-element format table.
    fn init_default_formats(&mut self)
        ensures
            final(self).wf(),
    {
        self.field_formats = Vec::new();
        let mut de: usize = 0;
        while de < 129
            invariant
                self.field_formats@.len() == de,
                de <= 129,
                forall|d: int| 0 <= d < de ==> self.field_formats@[d] == spec_format(d),
            decreases 129 - de,
        {
            let fmt: Option<FieldFormat> = match de {
                2 => Some(FieldFormat::Llvar(19)),
                3 => Some(FieldFormat::FixedNumeric(6)),
                4 => Some(FieldFormat::FixedNumeric(12)),
                7 => Some(FieldFormat::FixedNumeric(10)),
                11 => Some(FieldFormat::FixedNumeric(6)),
                12 => Some(FieldFormat::FixedNumeric(6)),
                13 => Some(FieldFormat::FixedNumeric(4)),
                14 => Some(FieldFormat::FixedNumeric(4)),
                18 => Some(FieldFormat::FixedNumeric(4)),
                22 => Some(FieldFormat::FixedNumeric(3)),
                23 => Some(FieldFormat::FixedNumeric(3)),
                25 => Some(FieldFormat::FixedNumeric(2)),
                32 => Some(FieldFormat::Llvar(11)),
                35 => Some(FieldFormat::Llvar(37)),
                37 => Some(FieldFormat::FixedAlpha(12)),
                38 => Some(FieldFormat::FixedAlpha(6)),
                39 => Some(FieldFormat::FixedAlpha(2)),
                41 => Some(FieldFormat::FixedAlpha(8)),
                42 => Some(FieldFormat::FixedAlpha(15)),
                43 => Some(FieldFormat::FixedAlpha(40)),
                49 => Some(FieldFormat::FixedNumeric(3)),
                52 => Some(FieldFormat::Binary(8)),
                54 => Some(FieldFormat::Lllvar(120)),
                55 => Some(FieldFormat::Lllvar(999)),
                60 => Some(FieldFormat::Lllvar(999)),
                61 => Some(FieldFormat::Lllvar(999)),
                62 => Some(FieldFormat::Lllvar(999)),
                63 => Some(FieldFormat::Lllvar(999)),
                64 => Some(FieldFormat::Binary(8)),
                70 => Some(FieldFormat::FixedNumeric(3)),
                90 => Some(FieldFormat::FixedNumeric(42)),
                95 => Some(FieldFormat::FixedAlpha(42)),
                102 => Some(FieldFormat::Llvar(28)),
                103 => Some(FieldFormat::Llvar(28)),
                123 => Some(FieldFormat::Lllvar(999)),
                127 => Some(FieldFormat::Lllvar(999)),
                128 => Some(FieldFormat::Binary(8)),
                _ => None,
            };
            self.field_formats.push(fmt);
            de = de + 1;
        }
    }

    /// Decode one field from the head of `data`, returning its stored text
    /// and the bytes consumed.
    fn parse_field(&self, data: &[u8], de: u8) -> (r: Result<(String, usize), ParseError>)
        requires
            self.wf(),
            de < 129,
        ensures
            r is Ok <==> spec_format(de as int) is Some && spec_decode_field(
                spec_format(de as int)->0,
                data@,
            ) is Some,
            r is Ok ==> {
                let (v, c) = spec_decode_field(spec_format(de as int)->0, data@)->0;
                r->Ok_0.0@ == v && r->Ok_0.1 == c
            },
            r is Err ==> (r->Err_0 matches ParseError::InvalidField { de: ed, .. } && ed == de),
    {
        let fmt = match &self.field_formats[de as usize] {
            Some(f) => *f,
            None => {
                return Err(
                    ParseError::InvalidField { de, msg: "unknown field format".to_owned() },
                );
            },
        };
        proof {
            lemma_format_widths(de as int);
        }
        match fmt {
            FieldFormat::FixedNumeric(n) => {
                let bcd = (n + 1) / 2;
                if data.len() < bcd {
                    return Err(
                        ParseError::InvalidField {
                            de,
                            msg: "insufficient data for fixed numeric field".to_owned(),
                        },
                    );
                }
                let hexed = crate::hexutil::bytes_to_hex_upper(&data[0..bcd]);
                let take_n = if n < 2 * bcd {
                    n
                } else {
                    2 * bcd
                };
                let v = hexed.as_str().substring_ascii(0, take_n);
                proof {
                    assert(v@ =~= bytes_to_hex(data@.take(bcd as int)).take(n as int));
                }
                Ok((v.to_owned(), bcd))
            },
            FieldFormat::FixedAlpha(n) => {
                if data.len() < n {
                    return Err(
                        ParseError::InvalidField {
                            de,
                            msg: "insufficient data for fixed alpha field".to_owned(),
                        },
                    );
                }
                let v = string_from_bytes_lossy(&data[0..n]);
                proof {
                    assert(data@.subrange(0, n as int) =~= data@.take(n as int));
                }
                Ok((v, n))
            },
            FieldFormat::Llvar(max) => {
                let len = match read_len_prefix(data, 2) {
                    Some(l) => l,
                    None => {
                        return Err(
                            ParseError::InvalidField {
                                de,
                                msg: "invalid length prefix".to_owned(),
                            },
                        );
                    },
                };
                if len > max {
                    return Err(
                        ParseError::InvalidField {
                            de,
                            msg: "length exceeds maximum".to_owned(),
                        },
                    );
                }
                if data.len() < 2 + len {
                    return Err(
                        ParseError::InvalidField { de, msg: "insufficient data".to_owned() },
                    );
                }
                let v = string_from_bytes_lossy(&data[2..2 + len]);
                Ok((v, 2 + len))
            },
            FieldFormat::Lllvar(max) => {
                let len = match read_len_prefix(data, 3) {
                    Some(l) => l,
                    None => {
                        return Err(
                            ParseError::InvalidField {
                                de,
                                msg: "invalid length prefix".to_owned(),
                            },
                        );
                    },
                };
                if len > max {
                    return Err(
                        ParseError::InvalidField {
                            de,
                            msg: "length exceeds maximum".to_owned(),
                        },
                    );
                }
                if data.len() < 3 + len {
                    return Err(
                        ParseError::InvalidField { de, msg: "insufficient data".to_owned() },
                    );
                }
                let v = crate::hexutil::bytes_to_hex_upper(&data[3..3 + len]);
                Ok((v, 3 + len))
            },
            FieldFormat::Binary(n) => {
                if data.len() < n {
                    return Err(
                        ParseError::InvalidField {
                            de,
                            msg: "insufficient data for binary field".to_owned(),
                        },
                    );
                }
                let v = crate::hexutil::bytes_to_hex_upper(&data[0..n]);
                proof {
                    assert(data@.subrange(0, n as int) =~= data@.take(n as int));
                }
                Ok((v, n))
            },
        }
    }

    /// Encode one field's stored text into its wire bytes.
    fn build_field(&self, de: u8, value: &str) -> (r: Result<Vec<u8>, ParseError>)
        requires
            self.wf(),
            de < 129,
        ensures
            r is Ok <==> spec_format(de as int) is Some && spec_encode_field(
                spec_format(de as int)->0,
                value@,
            ) is Some,
            r is Ok ==> r->Ok_0@ == spec_encode_field(spec_format(de as int)->0, value@)->0,
    {
        let fmt = match &self.field_formats[de as usize] {
            Some(f) => *f,
            None => {
                return Err(
                    ParseError::InvalidField { de, msg: "unknown field format".to_owned() },
                );
            },
        };
        match fmt {
            FieldFormat::FixedNumeric(n) => {
                let mut padded = pad_left_zeros(value, n);
                if padded.as_str().unicode_len() % 2 == 1 {
                    proof {
                        reveal_strlit("0");
                    }
                    padded.append("0");
                    proof {
                        assert(padded@ =~= left_pad_zeros(value@, n as int).push('0'));
                    }
                }
                let chars = str_to_chars(padded.as_str());
                match hex_chars_to_bytes(&chars) {
                    Ok(b) => Ok(b),
                    Err(_) => Err(ParseError::HexError("invalid numeric value".to_owned())),
                }
            },
            FieldFormat::FixedAlpha(n) => {
                let padded = pad_right_spaces(value, n);
                let ps = padded.as_str();
                if !ps.is_ascii() {
                    return Err(
                        ParseError::InvalidField {
                            de,
                            msg: "alpha field is not ASCII".to_owned(),
                        },
                    );
                }
                let b = ps.as_bytes_vec();
                proof {
                    assert(b@ =~= text_bytes(right_pad_spaces(value@, n as int)));
                }
                Ok(b)
            },
            FieldFormat::Llvar(max) => {
                let len = value.unicode_len();
                if !value.is_ascii() || len > max || len > 99 {
                    return Err(
                        ParseError::InvalidField {
                            de,
                            msg: "value does not fit LLVAR field".to_owned(),
                        },
                    );
                }
                proof {
                    assert(pow10(0) == 1);
                    assert(pow10(1) == 10);
                    assert(pow10(2) == 100);
                }
                let prefix = crate::strutil::format_dec(len as u64, 2);
                let pfs = prefix.as_str();
                let mut out = pfs.as_bytes_vec();
                let vb = value.as_bytes_vec();
                proof {
                    assert(vstd::string::is_ascii(pfs));
                    assert(out@ =~= text_bytes(dec_seq(len as int, 2)));
                    assert(vstd::string::is_ascii(value));
                    assert(vb@ =~= text_bytes(value@));
                }
                out.extend_from_slice(vb.as_slice());
                proof {
                    assert(out@ =~= text_bytes(dec_seq(len as int, 2)) + text_bytes(value@));
                }
                Ok(out)
            },
            FieldFormat::Lllvar(max) => {
                let chars = str_to_chars(value);
                let bytes = match hex_chars_to_bytes(&chars) {
                    Ok(b) => b,
                    Err(_) => {
                        return Err(ParseError::HexError("invalid hex value".to_owned()));
                    },
                };
                if bytes.len() > max || bytes.len() > 999 {
                    return Err(
                        ParseError::InvalidField {
                            de,
                            msg: "value does not fit LLLVAR field".to_owned(),
                        },
                    );
                }
                proof {
                    assert(pow10(0) == 1);
                    assert(pow10(1) == 10);
                    assert(pow10(2) == 100);
                    assert(pow10(3) == 1000);
                }
                let prefix = crate::strutil::format_dec(bytes.len() as u64, 3);
                let pfs = prefix.as_str();
                let mut out = pfs.as_bytes_vec();
                proof {
                    assert(vstd::string::is_ascii(pfs));
                    assert(out@ =~= text_bytes(dec_seq((value@.len() / 2) as int, 3)));
                }
                out.extend_from_slice(bytes.as_slice());
                proof {
                    assert(out@ =~= text_bytes(dec_seq((value@.len() / 2) as int, 3))
                        + hex_parse(value@));
                }
                Ok(out)
            },
            FieldFormat::Binary(_n) => {
                let chars = str_to_chars(value);
                match hex_chars_to_bytes(&chars) {
                    Ok(b) => Ok(b),
                    Err(_) => Err(ParseError::HexError("invalid hex value".to_owned())),
                }
            },
        }
    }
}

/// Every width in the format table is small.
pub proof fn lemma_format_widths(de: int)
    ensures
        spec_format(de) matches Some(f) ==> match f {
            FieldFormat::FixedNumeric(n) => n <= 42,
            FieldFormat::FixedAlpha(n) => n <= 42,
            FieldFormat::Llvar(m) => m <= 99,
            FieldFormat::Lllvar(m) => m <= 999,
            FieldFormat::Binary(n) => n <= 8,
        },
{
}

/// Read a 2- or 3-byte ASCII-digit length prefix.
fn read_len_prefix(data: &[u8], w: usize) -> (r: Option<usize>)
    requires
        w == 2 || w == 3,
    ensures
        r is Some <==> spec_len_prefix(data@, w as int) is Some,
        r is Some ==> r->0 == spec_len_prefix(data@, w as int)->0,
{
    if data.len() < w {
        return None;
    }
    let mut val: usize = 0;
    let mut i: usize = 0;
    while i < w
        invariant
            w == 2 || w == 3,
            data@.len() >= w,
            i <= w,
            forall|j: int| 0 <= j < i ==> 48 <= #[trigger] data@[j] <= 57,
            val <= 999,
            i == 0 ==> val == 0,
            i == 1 ==> val <= 9,
            i == 2 ==> val <= 99,
            val == digits_val_prefix(data@, i as int),
        decreases w - i,
    {
        let b = data[i];
        if b < 48 || b > 57 {
            return None;
        }
        val = 10 * val + (b - 48) as usize;
        i = i + 1;
    }
    proof {
        assert(digits_val_prefix(data@, 0) == 0);
        assert(digits_val_prefix(data@, 1) == data@[0] - 48);
        assert(digits_val_prefix(data@, 2) == 10 * (data@[0] - 48) + (data@[1] - 48));
        if w == 3 {
            assert(digits_val_prefix(data@, 3) == 100 * (data@[0] - 48) + 10 * (data@[1] - 48)
                + (data@[2] - 48));
        }
    }
    Some(val)
}

/// Value of the first `k` ASCII digits of `data`.
pub open spec fn digits_val_prefix(data: Seq<u8>, k: int) -> int
    decreases k,
{
    if k <= 0 {
        0
    } else {
        10 * digits_val_prefix(data, k - 1) + (data[k - 1] - 48)
    }
}

/// Wire bytes of every present field from `de` upward, ascending and
/// skipping data element 1, or `None` when some field cannot be encoded.
pub open spec fn spec_encode_fields(fields: Seq<Option<Seq<char>>>, de: int) -> Option<Seq<u8>>
    decreases 129 - de,
{
    if de >= 129 {
        Some(Seq::empty())
    } else if de == 1 || fields[de] is None {
        spec_encode_fields(fields, de + 1)
    } else {
        match spec_format(de) {
            None => None,
            Some(fmt) => match spec_encode_field(fmt, fields[de]->0) {
                None => None,
                Some(bs) => match spec_encode_fields(fields, de + 1) {
                    None => None,
                    Some(rest) => Some(bs + rest),
                },
            },
        }
    }
}

/// Fields decoded from `data` at cursor `pos` for the bitmap's set bits
/// from `de` upward (data element 1 skipped), or `None` on a missing
/// format or malformed data.
pub open spec fn spec_parse_fields(
    bits: Seq<bool>,
    data: Seq<u8>,
    pos: int,
    de: int,
) -> Option<Map<int, Seq<char>>>
    decreases 129 - de,
{
    if de >= 129 {
        Some(Map::empty())
    } else if de == 1 || !bit_set(bits, de) {
        spec_parse_fields(bits, data, pos, de + 1)
    } else {
        match spec_format(de) {
            None => None,
            Some(fmt) => match spec_decode_field(fmt, data.skip(pos)) {
                None => None,
                Some((v, c)) => match spec_parse_fields(bits, data, pos + c, de + 1) {
                    None => None,
                    Some(rest) => Some(rest.insert(de, v)),
                },
            },
        }
    }
}

/// Keys produced by `spec_parse_fields` lie in `de..129`.
pub proof fn lemma_parse_fields_dom(bits: Seq<bool>, data: Seq<u8>, pos: int, de: int)
    ensures
        spec_parse_fields(bits, data, pos, de) matches Some(m) ==> forall|d: int|
            m.dom().contains(d) ==> de <= d < 129,
    decreases 129 - de,
{
    if de < 129 {
        if de == 1 || !bit_set(bits, de) {
            lemma_parse_fields_dom(bits, data, pos, de + 1);
        } else {
            match spec_format(de) {
                None => {},
                Some(fmt) => match spec_decode_field(fmt, data.skip(pos)) {
                    None => {},
                    Some((v, c)) => {
                        lemma_parse_fields_dom(bits, data, pos + c, de + 1);
                    },
                },
            }
        }
    }
}

/// A successful field decode consumes between 0 and all of the data.
pub proof fn lemma_decode_consumed(fmt: FieldFormat, data: Seq<u8>)
    ensures
        spec_decode_field(fmt, data) matches Some(p) ==> 0 <= p.1 <= data.len(),
{
}

/// The length and character constraints under which a value survives a
/// field format unchanged.
pub open spec fn fits_format(fmt: FieldFormat, v: Seq<char>) -> bool {
    match fmt {
        FieldFormat::FixedNumeric(n) => v.len() == n && valid_nibbles(v),
        FieldFormat::FixedAlpha(n) => v.len() == n && ascii_text(v),
        FieldFormat::Llvar(max) => ascii_text(v) && v.len() <= max && v.len() <= 99,
        FieldFormat::Lllvar(max) => valid_hex(v) && crate::hexutil::is_upper_hex(v) && v.len()
            / 2 <= max && v.len() / 2 <= 999,
        FieldFormat::Binary(n) => valid_hex(v) && crate::hexutil::is_upper_hex(v) && v.len() == 2
            * n,
    }
}

/// Upper-case hex digits (any count, including odd).
pub open spec fn valid_nibbles(v: Seq<char>) -> bool {
    &&& forall|i: int| 0 <= i < v.len() ==> crate::hexutil::is_hex_digit(#[trigger] v[i])
    &&& crate::hexutil::is_upper_hex(v)
}

/// Decimal digit characters have the consecutive byte values of ASCII
/// digits.
proof fn lemma_dec_char_byte(d: int)
    requires
        0 <= d < 10,
    ensures
        48 <= crate::strutil::dec_char(d) as u8 <= 57,
        crate::strutil::dec_char(d) as u8 == 48 + d,
{
}

/// The round-trip law for every field format: a value that fits the
/// format encodes successfully, and decoding the encoded bytes (with any
/// trailing data) returns the value and consumes exactly the encoded
/// bytes.
pub proof fn lemma_field_round_trip(fmt: FieldFormat, v: Seq<char>, tail: Seq<u8>)
    requires
        fits_format(fmt, v),
    ensures
        spec_encode_field(fmt, v) is Some,
        spec_decode_field(fmt, spec_encode_field(fmt, v)->0 + tail) == Some(
            (v, spec_encode_field(fmt, v)->0.len() as int),
        ),
{
    match fmt {
        FieldFormat::FixedNumeric(n) => {
            let padded = left_pad_zeros(v, n as int);
            assert(padded == v);
            let full = if padded.len() % 2 == 1 {
                padded.push('0')
            } else {
                padded
            };
            assert(forall|i: int| 0 <= i < full.len() ==> crate::hexutil::is_hex_digit(
                #[trigger] full[i],
            ));
            assert(valid_hex(full));
            assert(crate::hexutil::is_upper_hex(full));
            let enc = hex_parse(full);
            let data = enc + tail;
            let bcd = (n + 1) / 2;
            assert(enc.len() == bcd);
            assert(data.take(bcd as int) =~= enc);
            crate::hexutil::lemma_hex_reencode(full);
            assert(bytes_to_hex(enc) == full);
            assert(full.take(n as int) =~= v);
        },
        FieldFormat::FixedAlpha(n) => {
            let padded = right_pad_spaces(v, n as int);
            assert(padded == v);
            let enc = text_bytes(v);
            let data = enc + tail;
            assert(data.take(n as int) =~= enc);
            assert(crate::strutil::all_ascii(enc));
            assert(decoded_text(enc) =~= v);
        },
        FieldFormat::Llvar(max) => {
            let len = v.len() as int;
            let prefix = text_bytes(dec_seq(len, 2));
            let enc = prefix + text_bytes(v);
            let data = enc + tail;
            lemma_dec_char_byte((len / 10) % 10);
            lemma_dec_char_byte(len % 10);
            assert(pow10(0) == 1);
            assert(pow10(1) == 10);
            assert(len / 1 == len);
            assert(data[0] == 48 + (len / 10) % 10);
            assert(data[1] == 48 + len % 10);
            assert(len / 10 < 10);
            assert((len / 10) % 10 == len / 10);
            assert(10 * (len / 10) + len % 10 == len);
            assert(spec_len_prefix(data, 2) == Some(len));
            assert(data.subrange(2, 2 + len) =~= text_bytes(v));
            assert(crate::strutil::all_ascii(text_bytes(v)));
            assert(decoded_text(text_bytes(v)) =~= v);
            assert(enc.len() == 2 + len);
        },
        FieldFormat::Lllvar(max) => {
            let bytes = hex_parse(v);
            let len = v.len() / 2;
            let prefix = text_bytes(dec_seq(len as int, 3));
            let enc = prefix + bytes;
            let data = enc + tail;
            lemma_dec_char_byte((len as int / 100) % 10);
            lemma_dec_char_byte((len as int / 10) % 10);
            lemma_dec_char_byte(len as int % 10);
            assert(pow10(0) == 1);
            assert(pow10(1) == 10);
            assert(pow10(2) == 100);
            assert(len as int / 1 == len as int);
            assert(data[0] == 48 + (len as int / 100) % 10);
            assert(data[1] == 48 + (len as int / 10) % 10);
            assert(data[2] == 48 + len as int % 10);
            let l = len as int;
            assert(100 * ((l / 100) % 10) + 10 * ((l / 10) % 10) + l % 10 == l) by (nonlinear_arith)
                requires
                    0 <= l <= 999,
            ;
            assert(spec_len_prefix(data, 3) == Some(l));
            assert(data.subrange(3, 3 + l) =~= bytes);
            crate::hexutil::lemma_hex_reencode(v);
            assert(bytes_to_hex(bytes) == v);
            assert(enc.len() == 3 + l);
        },
        FieldFormat::Binary(n) => {
            let enc = hex_parse(v);
            let data = enc + tail;
            assert(enc.len() == n);
            assert(data.take(n as int) =~= enc);
            crate::hexutil::lemma_hex_reencode(v);
            assert(bytes_to_hex(enc) == v);
        },
    }
}

/// Outcome of parsing a carrier hex text into a message, at spec level.
pub enum SpecParseOutcome {
    /// Carrier text is not well-formed hex.
    BadHex,
    /// Fewer than twelve bytes.
    BadLen,
    /// MTI bytes are not ASCII.
    BadMti,
    /// Secondary bitmap announced but missing.
    BadBitmap,
    /// Some announced field has no format or malformed data.
    BadField,
    /// The decoded MTI text, bitmap text, and field table.
    Good { mti: Seq<char>, bitmap: Seq<char>, fields: Map<int, Seq<char>> },
}

/// What parsing a carrier text must yield.
pub open spec fn spec_parse_message(s: Seq<char>) -> SpecParseOutcome {
    let cleaned = strip_ws(s);
    if !valid_hex(cleaned) {
        SpecParseOutcome::BadHex
    } else {
        let data = hex_parse(cleaned);
        if data.len() < 12 {
            SpecParseOutcome::BadLen
        } else if !crate::strutil::all_ascii(data.take(4)) {
            SpecParseOutcome::BadMti
        } else {
            let sec = byte_bit(data[4], 0);
            if sec && data.len() < 20 {
                SpecParseOutcome::BadBitmap
            } else {
                let bl: int = if sec {
                    16
                } else {
                    8
                };
                let bits = bits_of_bytes(data.subrange(4, 4 + bl));
                match spec_parse_fields(bits, data, 4 + bl, 1) {
                    None => SpecParseOutcome::BadField,
                    Some(m) => SpecParseOutcome::Good {
                        mti: ascii_chars(data.take(4)),
                        bitmap: bytes_to_hex(data.subrange(4, 4 + bl)),
                        fields: m,
                    },
                }
            }
        }
    }
}

impl Iso8583Parser {
    /// Parse a whole message from hex text: MTI, bitmap, then every
    /// announced field in ascending order.  Unknown formats and truncated
    /// payloads fail the whole message.
    pub fn parse(&self, hex_data: &str) -> (r: Result<Iso8583Message, ParseError>)
        requires
            self.wf(),
        ensures
            match spec_parse_message(hex_data@) {
                SpecParseOutcome::BadHex => r matches Err(ParseError::HexError(_)),
                SpecParseOutcome::BadLen => r matches Err(ParseError::InvalidLength(_)),
                SpecParseOutcome::BadMti => r matches Err(ParseError::InvalidMti(_)),
                SpecParseOutcome::BadBitmap => r matches Err(ParseError::InvalidBitmap(_)),
                SpecParseOutcome::BadField => r matches Err(ParseError::InvalidField { .. }),
                SpecParseOutcome::Good { mti, bitmap, fields } => {
                    &&& r is Ok
                    &&& r->Ok_0.wf()
                    &&& r->Ok_0@.mti == mti
                    &&& r->Ok_0@.bitmap == bitmap
                    &&& forall|d: int|
                        1 <= d <= 128 ==> r->Ok_0@.fields[d] == (if fields.dom().contains(d) {
                            Some(fields[d])
                        } else {
                            None::<Seq<char>>
                        })
                },
            },
    {
        let cleaned = remove_ws(hex_data);
        let data = match hex_chars_to_bytes(&cleaned) {
            Ok(b) => b,
            Err(_) => {
                return Err(ParseError::HexError("invalid message hex".to_owned()));
            },
        };
        if data.len() < 12 {
            return Err(ParseError::InvalidLength(data.len()));
        }
        let mut mti_bytes: Vec<u8> = Vec::new();
        let mut k: usize = 0;
        while k < 4
            invariant
                valid_hex(strip_ws(hex_data@)),
                data@ == hex_parse(strip_ws(hex_data@)),
                data@.len() >= 12,
                k <= 4,
                mti_bytes@ == data@.take(k as int),
                forall|i: int| 0 <= i < k ==> data@[i] < 0x80,
            decreases 4 - k,
        {
            let b = data[k];
            if b >= 0x80 {
                proof {
                    assert(data@.take(4)[k as int] == data@[k as int]);
                    assert(!crate::strutil::all_ascii(data@.take(4)));
                }
                return Err(ParseError::InvalidMti("MTI is not ASCII".to_owned()));
            }
            mti_bytes.push(b);
            proof {
                assert(mti_bytes@ =~= data@.take(k + 1));
            }
            k = k + 1;
        }
        let mti = crate::strutil::string_from_ascii(&mti_bytes);
        proof {
            assert(mti@ =~= ascii_chars(data@.take(4)));
        }
        let sec = data[4] >= 128;
        proof {
            assert(byte_bit(data@[4], 0) == (data@[4] >= 128));
        }
        if sec && data.len() < 20 {
            return Err(ParseError::InvalidBitmap("missing secondary bitmap".to_owned()));
        }
        let bl: usize = if sec {
            16
        } else {
            8
        };
        let bitmap_text = crate::hexutil::bytes_to_hex_upper(&data[4..4 + bl]);
        let ghost bm_bytes = data@.subrange(4, 4 + bl as int);
        let ghost bits = bits_of_bytes(bm_bytes);
        let parsed_bitmap = match Bitmap::from_hex(bitmap_text.as_str()) {
            Ok(b) => b,
            Err(_) => {
                proof {
                    crate::hexutil::lemma_hex_round_trip(bm_bytes);
                    crate::bitmap::lemma_strip_ws_id(bitmap_text@);
                    assert(false);
                }
                return Err(ParseError::InvalidBitmap("unreachable".to_owned()));
            },
        };
        proof {
            crate::hexutil::lemma_hex_round_trip(bm_bytes);
            crate::bitmap::lemma_strip_ws_id(bitmap_text@);
            assert(parsed_bitmap@ == bits);
        }
        let mut msg = Iso8583Message::new(mti.as_str());
        msg.bitmap = bitmap_text;
        let ghost data_seq = data@;
        let ghost pos0: int = 4 + bl as int;
        let mut pos: usize = 4 + bl;
        let mut de: usize = 1;
        let mut built_map: Ghost<Map<int, Seq<char>>> = Ghost(Map::empty());
        proof {
            assert(spec_parse_fields(bits, data_seq, pos0, 1) matches Some(m) ==> m
                =~= built_map@.union_prefer_right(m));
        }
        while de <= 128
            invariant
                self.wf(),
                msg.wf(),
                1 <= de <= 129,
                pos <= data@.len(),
                data_seq == data@,
                valid_hex(strip_ws(hex_data@)),
                data_seq == hex_parse(strip_ws(hex_data@)),
                data_seq.len() >= 12,
                crate::strutil::all_ascii(data_seq.take(4)),
                sec == byte_bit(data_seq[4], 0),
                sec ==> data_seq.len() >= 20,
                bl == if sec {
                    16usize
                } else {
                    8usize
                },
                pos0 == 4 + bl as int,
                bm_bytes == data_seq.subrange(4, 4 + bl as int),
                bits == bits_of_bytes(bm_bytes),
                parsed_bitmap.wf(),
                parsed_bitmap@ == bits,
                bits.len() == 128,
                msg@.mti == ascii_chars(data@.take(4)),
                msg@.bitmap == bytes_to_hex(bm_bytes),
                (spec_parse_fields(bits, data_seq, pos0, 1) is Some <==> spec_parse_fields(
                    bits,
                    data_seq,
                    pos as int,
                    de as int,
                ) is Some),
                spec_parse_fields(bits, data_seq, pos0, 1) matches Some(whole) ==> whole
                    == built_map@.union_prefer_right(
                    spec_parse_fields(bits, data_seq, pos as int, de as int)->0,
                ),
                forall|d: int| built_map@.dom().contains(d) ==> 2 <= d < de,
                forall|d: int|
                    1 <= d <= 128 ==> msg@.fields[d] == (if built_map@.dom().contains(d) {
                        Some(built_map@[d])
                    } else {
                        None::<Seq<char>>
                    }),
            decreases 129 - de,
        {
            if de != 1 && parsed_bitmap.is_set(de as u8) {
                let fr = self.parse_field(&data[pos..data.len()], de as u8);
                match fr {
                    Ok((value, consumed)) => {
                        proof {
                            assert(data@.subrange(pos as int, data@.len() as int) =~= data_seq.skip(
                                pos as int,
                            ));
                            lemma_decode_consumed(
                                spec_format(de as int)->0,
                                data_seq.skip(pos as int),
                            );
                            lemma_parse_fields_dom(
                                bits,
                                data_seq,
                                pos + consumed as int,
                                de + 1,
                            );
                        }
                        let ghost v = value@;
                        msg.set_field(de as u8, value);
                        proof {
                            let old_built = built_map@;
                            built_map@ = built_map@.insert(de as int, v);
                            if spec_parse_fields(bits, data_seq, pos0, 1) is Some {
                                let rest = spec_parse_fields(
                                    bits,
                                    data_seq,
                                    pos + consumed as int,
                                    (de + 1) as int,
                                )->0;
                                assert(old_built.union_prefer_right(rest.insert(de as int, v))
                                    =~= old_built.insert(de as int, v).union_prefer_right(rest));
                            }
                        }
                        pos = pos + consumed;
                    },
                    Err(e) => {
                        proof {
                            assert(data@.subrange(pos as int, data@.len() as int) =~= data_seq.skip(
                                pos as int,
                            ));
                            assert(spec_parse_fields(bits, data_seq, pos as int, de as int)
                                is None);
                        }
                        return Err(e);
                    },
                }
            }
            de = de + 1;
        }
        proof {
            assert(spec_parse_fields(bits, data_seq, pos as int, 129) == Some(
                Map::<int, Seq<char>>::empty(),
            ));
            if spec_parse_fields(bits, data_seq, pos0, 1) is Some {
                assert(built_map@.union_prefer_right(Map::<int, Seq<char>>::empty())
                    =~= built_map@);
            }
        }
        Ok(msg)
    }

    /// Serialize a message to hex text: MTI bytes, the bitmap derived from
    /// the present fields, then each present field in ascending order.
    /// The bitmap text in the message is refreshed as a side effect.
    pub fn build(&self, message: &mut Iso8583Message) -> (r: Result<String, ParseError>)
        requires
            self.wf(),
            old(message).wf(),
        ensures
            final(message).wf(),
            final(message)@.mti == old(message)@.mti,
            final(message)@.fields == old(message)@.fields,
            final(message)@.bitmap == bitmap_hex(fields_bitmap(old(message)@.fields)),
            r is Ok <==> vstd::utf8::is_ascii_chars(old(message)@.mti) && spec_encode_fields(
                old(message)@.fields,
                1,
            ) is Some,
            r is Ok ==> r->Ok_0@ == bytes_to_hex(
                text_bytes(old(message)@.mti) + crate::bitmap::bitmap_bytes(
                    fields_bitmap(old(message)@.fields),
                ) + spec_encode_fields(old(message)@.fields, 1)->0,
            ),
    {
        message.build_bitmap();
        let ghost fields = message@.fields;
        let mut out: Vec<u8> = Vec::new();
        let mti_str = message.mti.as_str();
        if !mti_str.is_ascii() {
            return Err(ParseError::InvalidMti("MTI is not ASCII".to_owned()));
        }
        let mti_b = mti_str.as_bytes_vec();
        proof {
            assert(mti_b@ =~= text_bytes(old(message)@.mti));
        }
        out.extend_from_slice(mti_b.as_slice());
        let bm_chars = str_to_chars(message.bitmap.as_str());
        let bm_bytes = match hex_chars_to_bytes(&bm_chars) {
            Ok(b) => b,
            Err(_) => {
                proof {
                    crate::hexutil::lemma_hex_round_trip(
                        crate::bitmap::bitmap_bytes(fields_bitmap(fields)),
                    );
                    assert(false);
                }
                return Err(ParseError::HexError("unreachable".to_owned()));
            },
        };
        proof {
            crate::hexutil::lemma_hex_round_trip(
                crate::bitmap::bitmap_bytes(fields_bitmap(fields)),
            );
            assert(bm_bytes@ == crate::bitmap::bitmap_bytes(fields_bitmap(fields)));
        }
        out.extend_from_slice(bm_bytes.as_slice());
        let ghost header = text_bytes(old(message)@.mti) + crate::bitmap::bitmap_bytes(
            fields_bitmap(fields),
        );
        proof {
            assert(out@ =~= header);
        }
        let mut de: usize = 1;
        while de <= 128
            invariant
                self.wf(),
                message.wf(),
                message@.mti == old(message)@.mti,
                message@.bitmap == bitmap_hex(fields_bitmap(fields)),
                fields == message@.fields,
                fields == old(message)@.fields,
                1 <= de <= 129,
                (spec_encode_fields(fields, 1) is Some <==> spec_encode_fields(
                    fields,
                    de as int,
                ) is Some),
                spec_encode_fields(fields, 1) matches Some(whole) ==> header + whole == out@
                    + spec_encode_fields(fields, de as int)->0,
            decreases 129 - de,
        {
            if de != 1 {
                let fv = message.get_field(de as u8);
                match fv {
                    Some(value) => {
                        match self.build_field(de as u8, value.as_str()) {
                            Ok(bs) => {
                                let ghost out_old = out@;
                                out.extend_from_slice(bs.as_slice());
                                proof {
                                    assert(out@ =~= out_old + bs@);
                                    if spec_encode_fields(fields, 1) is Some {
                                        let rest = spec_encode_fields(
                                            fields,
                                            (de + 1) as int,
                                        )->0;
                                        assert(bs@ + rest =~= spec_encode_fields(
                                            fields,
                                            de as int,
                                        )->0);
                                        assert(out_old + (bs@ + rest) =~= (out_old + bs@)
                                            + rest);
                                    }
                                }
                            },
                            Err(e) => {
                                return Err(e);
                            },
                        }
                    },
                    None => {},
                }
            }
            de = de + 1;
        }
        proof {
            if spec_encode_fields(fields, 1) is Some {
                assert(out@ + Seq::<u8>::empty() =~= out@);
                assert(header + spec_encode_fields(fields, 1)->0 =~= out@);
            }
        }
        Ok(crate::hexutil::bytes_to_hex_upper(out.as_slice()))
    }
}

} // verus!
