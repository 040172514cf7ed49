//! Small verified text helpers: character-exact equality, ASCII case
//! folding, fixed-width decimal rendering and padding.
//!
//! Field values and message text are `String`s; these helpers give the rest
//! of the library character-level contracts over their views.

use vstd::prelude::*;

verus! {

/// ASCII upper-casing of one character; other characters are unchanged.
pub open spec fn to_upper_char(c: char) -> char {
    if 'a' <= c <= 'z' {
        ((c as u8) - 0x20) as char
    } else {
        c
    }
}

/// ASCII upper-casing of a text.
pub open spec fn upper(s: Seq<char>) -> Seq<char> {
    Seq::new(s.len(), |i: int| to_upper_char(s[i]))
}

/// Character-exact string equality.
pub fn str_eq(a: &str, b: &str) -> (r: bool)
    ensures
        r <==> a@ == b@,
{
    let la = a.unicode_len();
    let lb = b.unicode_len();
    if la != lb {
        proof {
            assert(a@ != b@);
        }
        return false;
    }
    let mut i: usize = 0;
    while i < la
        invariant
            la == a@.len(),
            lb == b@.len(),
            la == lb,
            i <= la,
            forall|j: int| 0 <= j < i ==> a@[j] == b@[j],
        decreases la - i,
    {
        if a.get_char(i) != b.get_char(i) {
            proof {
                assert(a@ != b@);
            }
            return false;
        }
        i = i + 1;
    }
    proof {
        assert(a@ =~= b@);
    }
    true
}

/// ASCII upper-casing of one character, executable form.
pub fn upper_char(c: char) -> (r: char)
    ensures
        r == to_upper_char(c),
{
    if 'a' <= c && c <= 'z' {
        (((c as u8) - 0x20)) as char
    } else {
        c
    }
}

/// Equality up to ASCII letter case.
pub fn str_eq_ignore_case(a: &str, b: &str) -> (r: bool)
    ensures
        r <==> upper(a@) == upper(b@),
{
    let la = a.unicode_len();
    let lb = b.unicode_len();
    if la != lb {
        proof {
            assert(upper(a@).len() != upper(b@).len());
        }
        return false;
    }
    let mut i: usize = 0;
    while i < la
        invariant
            la == a@.len(),
            lb == b@.len(),
            la == lb,
            i <= la,
            forall|j: int| 0 <= j < i ==> upper(a@)[j] == upper(b@)[j],
        decreases la - i,
    {
        if upper_char(a.get_char(i)) != upper_char(b.get_char(i)) {
            proof {
                assert(upper(a@)[i as int] != upper(b@)[i as int]);
            }
            return false;
        }
        i = i + 1;
    }
    proof {
        assert(upper(a@) =~= upper(b@));
    }
    true
}

/// The characters of a string, for index-based processing.
pub fn str_to_chars(s: &str) -> (r: Vec<char>)
    ensures
        r@ == s@,
{
    let n = s.unicode_len();
    let mut r: Vec<char> = Vec::new();
    let mut i: usize = 0;
    while i < n
        invariant
            n == s@.len(),
            i <= n,
            r@ == s@.take(i as int),
        decreases n - i,
    {
        r.push(s.get_char(i));
        proof {
            assert(r@ =~= s@.take(i + 1));
        }
        i = i + 1;
    }
    proof {
        assert(s@.take(n as int) =~= s@);
    }
    r
}

/// Ten to the power `e`.
pub open spec fn pow10(e: int) -> int
    decreases e,
{
    if e <= 0 {
        1
    } else {
        10 * pow10(e - 1)
    }
}

/// Decimal digit character for a value 0..10.
pub open spec fn dec_char(n: int) -> char {
    crate::hexutil::hex_char(n)
}

/// Zero-padded decimal rendering of `n` in exactly `width` digits
/// (meaningful when `n < pow10(width)`).
pub open spec fn dec_seq(n: int, width: int) -> Seq<char> {
    Seq::new(width as nat, |i: int| dec_char((n / pow10(width - 1 - i)) % 10))
}

pub proof fn lemma_pow10_positive(a: int)
    ensures
        pow10(a) >= 1,
    decreases a,
{
    if a > 0 {
        lemma_pow10_positive(a - 1);
    }
}

pub proof fn lemma_pow10_increases(a: int, b: int)
    requires
        0 <= a <= b,
    ensures
        1 <= pow10(a) <= pow10(b),
    decreases b,
{
    lemma_pow10_positive(a);
    if a < b {
        lemma_pow10_increases(a, b - 1);
    }
}

pub proof fn lemma_pow10_value_15()
    ensures
        pow10(15) == 1000000000000000,
{
    assert(pow10(0) == 1);
    assert(pow10(1) == 10);
    assert(pow10(2) == 100);
    assert(pow10(3) == 1000);
    assert(pow10(4) == 10000);
    assert(pow10(5) == 100000);
    assert(pow10(6) == 1000000);
    assert(pow10(7) == 10000000);
    assert(pow10(8) == 100000000);
    assert(pow10(9) == 1000000000);
    assert(pow10(10) == 10000000000);
    assert(pow10(11) == 100000000000);
    assert(pow10(12) == 1000000000000);
    assert(pow10(13) == 10000000000000);
    assert(pow10(14) == 100000000000000);
    assert(pow10(15) == 1000000000000000);
}

/// Executable ten to the power `e`, for widths used by the wire formats.
pub fn pow10_u64(e: usize) -> (r: u64)
    requires
        e <= 15,
    ensures
        r == pow10(e as int),
        r >= 1,
{
    let mut r: u64 = 1;
    let mut i: usize = 0;
    while i < e
        invariant
            i <= e <= 15,
            r == pow10(i as int),
        decreases e - i,
    {
        proof {
            lemma_pow10_value_15();
            lemma_pow10_increases(i + 1, 15);
        }
        r = r * 10;
        i = i + 1;
    }
    proof {
        lemma_pow10_increases(e as int, e as int);
    }
    r
}

/// Render `n` as a zero-padded decimal string of exactly `width` digits.
pub fn format_dec(n: u64, width: usize) -> (r: String)
    requires
        width <= 15,
        n < pow10(width as int),
    ensures
        r@ == dec_seq(n as int, width as int),
        r@.len() == width,
        r.is_ascii(),
{
    let mut r = String::new();
    let mut i: usize = 0;
    while i < width
        invariant
            width <= 15,
            n < pow10(width as int),
            i <= width,
            r@ == dec_seq(n as int, width as int).take(i as int),
            r.is_ascii(),
        decreases width - i,
    {
        let p = pow10_u64(width - 1 - i);
        let d = ((n / p) % 10) as u8;
        r.append(crate::hexutil::hex_digit_str(d));
        proof {
            assert(dec_char(((n as int) / pow10(width - 1 - (i as int))) % 10) == crate::hexutil::hex_char(
                d as int,
            ));
            assert(r@ =~= dec_seq(n as int, width as int).take(i + 1));
        }
        i = i + 1;
    }
    proof {
        assert(dec_seq(n as int, width as int).take(width as int) =~= dec_seq(
            n as int,
            width as int,
        ));
    }
    r
}

/// Text consisting only of decimal digits.
pub open spec fn all_digits(s: Seq<char>) -> bool {
    forall|i: int| 0 <= i < s.len() ==> '0' <= #[trigger] s[i] <= '9'
}

/// A run of one repeated character.
pub open spec fn repeat_char(c: char, n: int) -> Seq<char> {
    Seq::new(n as nat, |i: int| c)
}

/// `s` left-padded with zeros to `width` (unchanged if already longer).
pub open spec fn left_pad_zeros(s: Seq<char>, width: int) -> Seq<char> {
    if s.len() >= width {
        s
    } else {
        repeat_char('0', width - s.len()) + s
    }
}

/// `s` right-padded with spaces to `width` (unchanged if already longer).
pub open spec fn right_pad_spaces(s: Seq<char>, width: int) -> Seq<char> {
    if s.len() >= width {
        s
    } else {
        s + repeat_char(' ', width - s.len())
    }
}

/// Append `n` copies of a one-character string to `r`.
pub fn append_repeated(r: &mut String, unit: &str, n: usize)
    requires
        unit@.len() == 1,
    ensures
        final(r)@ == old(r)@ + repeat_char(unit@[0], n as int),
        old(r).is_ascii() && unit.is_ascii() ==> final(r).is_ascii(),
{
    let mut i: usize = 0;
    while i < n
        invariant
            unit@.len() == 1,
            i <= n,
            r@ == old(r)@ + repeat_char(unit@[0], i as int),
            old(r).is_ascii() && unit.is_ascii() ==> r.is_ascii(),
        decreases n - i,
    {
        r.append(unit);
        proof {
            assert(r@ =~= old(r)@ + repeat_char(unit@[0], i + 1));
        }
        i = i + 1;
    }
    proof {
        assert(old(r)@ + repeat_char(unit@[0], 0) =~= old(r)@);
    }
}

/// Left-pad with zeros to `width`.
pub fn pad_left_zeros(s: &str, width: usize) -> (r: String)
    ensures
        r@ == left_pad_zeros(s@, width as int),
{
    let n = s.unicode_len();
    if n >= width {
        return s.to_owned();
    }
    let mut r = String::new();
    proof {
        reveal_strlit("0");
    }
    append_repeated(&mut r, "0", width - n);
    r.append(s);
    proof {
        assert(r@ =~= left_pad_zeros(s@, width as int));
    }
    r
}

/// Right-pad with spaces to `width`.
pub fn pad_right_spaces(s: &str, width: usize) -> (r: String)
    ensures
        r@ == right_pad_spaces(s@, width as int),
{
    let n = s.unicode_len();
    if n >= width {
        return s.to_owned();
    }
    let mut r = s.to_owned();
    proof {
        reveal_strlit(" ");
    }
    append_repeated(&mut r, " ", width - n);
    proof {
        assert(r@ =~= right_pad_spaces(s@, width as int));
    }
    r
}

/// `s` right-padded with zeros to `width` (unchanged if already longer).
pub open spec fn right_pad_zeros(s: Seq<char>, width: int) -> Seq<char> {
    if s.len() >= width {
        s
    } else {
        s + repeat_char('0', width - s.len())
    }
}

/// Right-pad with zeros to `width`.
pub fn pad_right_zeros(s: &str, width: usize) -> (r: String)
    ensures
        r@ == right_pad_zeros(s@, width as int),
{
    let n = s.unicode_len();
    if n >= width {
        return s.to_owned();
    }
    let mut r = s.to_owned();
    proof {
        reveal_strlit("0");
    }
    append_repeated(&mut r, "0", width - n);
    proof {
        assert(r@ =~= right_pad_zeros(s@, width as int));
    }
    r
}

/// The decimal digits of a text, in order, everything else removed.
pub open spec fn digit_filter(s: Seq<char>) -> Seq<char>
    decreases s.len(),
{
    if s.len() == 0 {
        Seq::empty()
    } else if '0' <= s.last() <= '9' {
        digit_filter(s.drop_last()).push(s.last())
    } else {
        digit_filter(s.drop_last())
    }
}

/// Keep only the decimal digits of a text.
pub fn filter_digits(s: &str) -> (r: Vec<char>)
    ensures
        r@ == digit_filter(s@),
{
    let chars = str_to_chars(s);
    let mut r: Vec<char> = Vec::new();
    let mut i: usize = 0;
    while i < chars.len()
        invariant
            chars@ == s@,
            i <= chars@.len(),
            r@ == digit_filter(s@.take(i as int)),
        decreases chars@.len() - i,
    {
        let c = chars[i];
        proof {
            assert(s@.take(i + 1).drop_last() =~= s@.take(i as int));
        }
        if '0' <= c && c <= '9' {
            r.push(c);
        }
        i = i + 1;
    }
    proof {
        assert(s@.take(s@.len() as int) =~= s@);
    }
    r
}

/// Bytes that are all 7-bit ASCII.
pub open spec fn all_ascii(bs: Seq<u8>) -> bool {
    forall|i: int| 0 <= i < bs.len() ==> bs[i] < 0x80
}

/// The characters of ASCII bytes, one per byte.
pub open spec fn ascii_chars(bs: Seq<u8>) -> Seq<char> {
    Seq::new(bs.len(), |i: int| bs[i] as char)
}

/// What lossy UTF-8 decoding yields on bytes that are not all ASCII; a
/// fixed function of the bytes alone.
pub uninterp spec fn lossy_text_raw(bs: Seq<u8>) -> Seq<char>;

/// Text read from raw bytes: exact for ASCII, lossy UTF-8 otherwise.
pub open spec fn decoded_text(bs: Seq<u8>) -> Seq<char> {
    if all_ascii(bs) {
        ascii_chars(bs)
    } else {
        lossy_text_raw(bs)
    }
}

/// Relies on `String::from_utf8_lossy`: ASCII bytes are valid UTF-8 and
/// decode to the same code points one per byte; other inputs decode to a
/// text that depends on the bytes alone.
#[verifier::external_body]
pub fn string_from_bytes_lossy(v: &[u8]) -> (r: String)
    ensures
        r@ == decoded_text(v@),
        !all_ascii(v@) ==> r@ == lossy_text_raw(v@),
{
    String::from_utf8_lossy(v).to_string()
}

/// Relies on `String::from_utf8`: ASCII bytes decode to the same code
/// points, one character per byte.
#[verifier::external_body]
pub fn string_from_ascii(v: &Vec<u8>) -> (r: String)
    requires
        forall|i: int| 0 <= i < v@.len() ==> v@[i] < 0x80,
    ensures
        r@.len() == v@.len(),
        forall|i: int| 0 <= i < v@.len() ==> r@[i] == v@[i] as char,
        r.is_ascii(),
{
    match String::from_utf8(v.clone()) {
        Ok(s) => s,
        Err(_) => String::new(),
    }
}

} // verus!
