//! Hexadecimal rendering and parsing of byte strings.
//!
//! Wire messages travel as upper-case hex text; field values of binary
//! formats are stored the same way.  Both directions are implemented here
//! and proved against the spec-level `bytes_to_hex` / `hex_parse` pair.

use vstd::prelude::*;

verus! {

/// Upper-case hex digit for a nibble value 0..16.
pub open spec fn hex_char(n: int) -> char {
    if n == 0 {
        '0'
    } else if n == 1 {
        '1'
    } else if n == 2 {
        '2'
    } else if n == 3 {
        '3'
    } else if n == 4 {
        '4'
    } else if n == 5 {
        '5'
    } else if n == 6 {
        '6'
    } else if n == 7 {
        '7'
    } else if n == 8 {
        '8'
    } else if n == 9 {
        '9'
    } else if n == 10 {
        'A'
    } else if n == 11 {
        'B'
    } else if n == 12 {
        'C'
    } else if n == 13 {
        'D'
    } else if n == 14 {
        'E'
    } else {
        'F'
    }
}

/// Numeric value of a hex digit character, or -1 for any other character.
/// Both letter cases are accepted, as on the wire.
pub open spec fn hex_val(c: char) -> int {
    if c == '0' {
        0
    } else if c == '1' {
        1
    } else if c == '2' {
        2
    } else if c == '3' {
        3
    } else if c == '4' {
        4
    } else if c == '5' {
        5
    } else if c == '6' {
        6
    } else if c == '7' {
        7
    } else if c == '8' {
        8
    } else if c == '9' {
        9
    } else if c == 'A' || c == 'a' {
        10
    } else if c == 'B' || c == 'b' {
        11
    } else if c == 'C' || c == 'c' {
        12
    } else if c == 'D' || c == 'd' {
        13
    } else if c == 'E' || c == 'e' {
        14
    } else if c == 'F' || c == 'f' {
        15
    } else {
        -1
    }
}

pub open spec fn is_hex_digit(c: char) -> bool {
    hex_val(c) >= 0
}

/// A hex text: even length, hex digits only.
pub open spec fn valid_hex(s: Seq<char>) -> bool {
    &&& s.len() % 2 == 0
    &&& forall|i: int| 0 <= i < s.len() ==> is_hex_digit(#[trigger] s[i])
}

/// Upper-case hex rendering of a byte sequence, two digits per byte.
pub open spec fn bytes_to_hex(s: Seq<u8>) -> Seq<char> {
    Seq::new(
        2 * s.len(),
        |i: int|
            if i % 2 == 0 {
                hex_char((s[i / 2] / 16) as int)
            } else {
                hex_char((s[i / 2] % 16) as int)
            },
    )
}

/// Bytes denoted by a hex text (meaningful when `valid_hex` holds).
pub open spec fn hex_parse(s: Seq<char>) -> Seq<u8> {
    Seq::new(s.len() / 2, |i: int| (16 * hex_val(s[2 * i]) + hex_val(s[2 * i + 1])) as u8)
}

/// Hex digits whose letters are upper case (the form this library emits).
pub open spec fn is_upper_hex(s: Seq<char>) -> bool {
    forall|i: int| 0 <= i < s.len() ==> hex_char(hex_val(#[trigger] s[i])) == s[i]
}

/// Rendering a byte string and reading the text back yields the bytes.
pub proof fn lemma_hex_round_trip(s: Seq<u8>)
    ensures
        valid_hex(bytes_to_hex(s)),
        is_upper_hex(bytes_to_hex(s)),
        hex_parse(bytes_to_hex(s)) == s,
{
    let h = bytes_to_hex(s);
    assert forall|i: int| 0 <= i < h.len() implies is_hex_digit(#[trigger] h[i]) by {
        if i % 2 == 0 {
            assert(0 <= s[i / 2] / 16 < 16);
        } else {
            assert(0 <= s[i / 2] % 16 < 16);
        }
    }
    let p = hex_parse(h);
    assert forall|i: int| 0 <= i < s.len() implies p[i] == s[i] by {
        assert(h[2 * i] == hex_char((s[i] / 16) as int));
        assert(h[2 * i + 1] == hex_char((s[i] % 16) as int));
        assert(s[i] == 16 * (s[i] / 16) + s[i] % 16) by (nonlinear_arith);
    }
    assert(p =~= s);
    assert forall|i: int| 0 <= i < h.len() implies hex_char(hex_val(#[trigger] h[i])) == h[i] by {
        if i % 2 == 0 {
            assert(0 <= s[i / 2] / 16 < 16);
        } else {
            assert(0 <= s[i / 2] % 16 < 16);
        }
    }
}

/// Reading upper-case hex text and rendering the bytes again yields the text.
pub proof fn lemma_hex_reencode(s: Seq<char>)
    requires
        valid_hex(s),
        is_upper_hex(s),
    ensures
        bytes_to_hex(hex_parse(s)) == s,
{
    let p = hex_parse(s);
    let h = bytes_to_hex(p);
    assert forall|i: int| 0 <= i < h.len() implies h[i] == s[i] by {
        let b = p[i / 2];
        let hi = hex_val(s[2 * (i / 2)]);
        let lo = hex_val(s[2 * (i / 2) + 1]);
        assert(is_hex_digit(s[2 * (i / 2)]));
        assert(is_hex_digit(s[2 * (i / 2) + 1]));
        assert(b == 16 * hi + lo);
        assert(b / 16 == hi && b % 16 == lo) by (nonlinear_arith)
            requires
                b == 16 * hi + lo,
                0 <= hi < 16,
                0 <= lo < 16,
        ;
        if i % 2 == 0 {
            assert(h[i] == hex_char(hi));
            assert(hex_char(hex_val(s[i])) == s[i]);
        } else {
            assert(h[i] == hex_char(lo));
            assert(hex_char(hex_val(s[i])) == s[i]);
        }
    }
    assert(h =~= s);
}

/// One-character string slice for a nibble, used to build hex and decimal
/// text.
pub fn hex_digit_str(n: u8) -> (r: &'static str)
    requires
        n < 16,
    ensures
        r@ == seq![hex_char(n as int)],
        r.is_ascii(),
{
    proof {
        reveal_strlit("0");
        reveal_strlit("1");
        reveal_strlit("2");
        reveal_strlit("3");
        reveal_strlit("4");
        reveal_strlit("5");
        reveal_strlit("6");
        reveal_strlit("7");
        reveal_strlit("8");
        reveal_strlit("9");
        reveal_strlit("A");
        reveal_strlit("B");
        reveal_strlit("C");
        reveal_strlit("D");
        reveal_strlit("E");
        reveal_strlit("F");
    }
    let r = match n {
        0 => "0",
        1 => "1",
        2 => "2",
        3 => "3",
        4 => "4",
        5 => "5",
        6 => "6",
        7 => "7",
        8 => "8",
        9 => "9",
        10 => "A",
        11 => "B",
        12 => "C",
        13 => "D",
        14 => "E",
        _ => "F",
    };
    proof {
        assert(r@ =~= seq![hex_char(n as int)]);
    }
    r
}

/// Render bytes as upper-case hex text.
pub fn bytes_to_hex_upper(data: &[u8]) -> (r: String)
    ensures
        r@ == bytes_to_hex(data@),
        r.is_ascii(),
{
    let mut r = String::new();
    let mut i: usize = 0;
    while i < data.len()
        invariant
            i <= data.len(),
            r@ == bytes_to_hex(data@.take(i as int)),
            r.is_ascii(),
        decreases data.len() - i,
    {
        let b = data[i];
        r.append(hex_digit_str(b / 16));
        r.append(hex_digit_str(b % 16));
        proof {
            assert(r@ =~= bytes_to_hex(data@.take(i + 1)));
        }
        i = i + 1;
    }
    proof {
        assert(data@.take(data@.len() as int) =~= data@);
    }
    r
}

/// Value of one hex digit character, if it is one.
pub fn hex_digit_val(c: char) -> (r: Option<u8>)
    ensures
        is_hex_digit(c) <==> r is Some,
        r is Some ==> r->0 == hex_val(c),
{
    match c {
        '0' => Some(0),
        '1' => Some(1),
        '2' => Some(2),
        '3' => Some(3),
        '4' => Some(4),
        '5' => Some(5),
        '6' => Some(6),
        '7' => Some(7),
        '8' => Some(8),
        '9' => Some(9),
        'A' | 'a' => Some(10),
        'B' | 'b' => Some(11),
        'C' | 'c' => Some(12),
        'D' | 'd' => Some(13),
        'E' | 'e' => Some(14),
        'F' | 'f' => Some(15),
        _ => None,
    }
}

/// Why a hex text failed to parse.
#[derive(Debug, Clone, Copy, PartialEq, Eq, Structural)]
pub enum HexError {
    OddLength,
    BadDigit,
}

/// Parse hex characters into bytes; fails exactly on odd length or a
/// non-hex character.
pub fn hex_chars_to_bytes(v: &Vec<char>) -> (r: Result<Vec<u8>, HexError>)
    ensures
        r is Ok <==> valid_hex(v@),
        r is Ok ==> r->Ok_0@ == hex_parse(v@),
        r is Err && v@.len() % 2 != 0 ==> r->Err_0 == HexError::OddLength,
        r is Err && v@.len() % 2 == 0 ==> r->Err_0 == HexError::BadDigit,
{
    if v.len() % 2 != 0 {
        return Err(HexError::OddLength);
    }
    let mut out: Vec<u8> = Vec::new();
    let mut i: usize = 0;
    while i < v.len()
        invariant
            v@.len() % 2 == 0,
            i % 2 == 0,
            i <= v.len(),
            out@.len() == i / 2,
            forall|j: int| 0 <= j < i ==> is_hex_digit(#[trigger] v@[j]),
            forall|j: int|
                0 <= j < out@.len() ==> out@[j] == (16 * hex_val(v@[2 * j]) + hex_val(
                    v@[2 * j + 1],
                )) as u8,
        decreases v.len() - i,
    {
        let hi = match hex_digit_val(v[i]) {
            Some(x) => x,
            None => {
                return Err(HexError::BadDigit);
            },
        };
        let lo = match hex_digit_val(v[i + 1]) {
            Some(x) => x,
            None => {
                return Err(HexError::BadDigit);
            },
        };
        out.push(16 * hi + lo);
        i = i + 2;
    }
    proof {
        assert(out@ =~= hex_parse(v@));
    }
    Ok(out)
}

} // verus!
