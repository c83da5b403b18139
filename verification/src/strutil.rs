//! String helpers shared by the library: exact string comparison, path
//! joining with `/`, fixed-width uppercase hexadecimal and plain decimal
//! renderings of 64-bit words, and thin trusted bridges to the standard
//! library's UTF-8 decoding and Unicode lowercasing.
use vstd::prelude::*;

verus! {

use vstd::utf8::{decode_utf8, valid_utf8};

/// Compares two string slices character by character.
pub fn str_eq(a: &str, b: &str) -> (r: bool)
    ensures
        r == (a@ == b@),
{
    let a_owned: String = a.to_owned();
    let b_owned: String = b.to_owned();
    a_owned == b_owned
}

/// Joins a base path and one further segment with a `/` separator.
pub fn join_path(base: &str, segment: &str) -> (r: String)
    ensures
        r@ == base@ + "/"@ + segment@,
{
    let mut r = base.to_owned();
    r.append("/");
    r.append(segment);
    r
}

/// The character sequence an optional owned string holds.
pub open spec fn opt_string_view(o: Option<String>) -> Option<Seq<char>> {
    match o {
        Some(s) => Some(s@),
        None => None,
    }
}

/// The character sequence an optional string slice holds.
pub open spec fn opt_str_view(o: Option<&str>) -> Option<Seq<char>> {
    match o {
        Some(s) => Some(s@),
        None => None,
    }
}

/// Relies on String::from_utf8: succeeds exactly on valid UTF-8 input and
/// returns the decoded character sequence.
#[verifier::external_body]
pub fn utf8_to_string(bytes: Vec<u8>) -> (r: Option<String>)
    ensures
        r.is_some() == valid_utf8(bytes@),
        r matches Some(s) ==> s@ == decode_utf8(bytes@),
{
    String::from_utf8(bytes).ok()
}

/// The Unicode lowercase form of a character sequence, as the standard
/// library computes it; it depends on the characters alone.
pub uninterp spec fn lower_of(s: Seq<char>) -> Seq<char>;

/// Relies on str::to_lowercase: the result is a function of the characters
/// alone, and an empty string stays empty.
#[verifier::external_body]
pub fn lowercase(s: &str) -> (r: String)
    ensures
        r@ == lower_of(s@),
        s@.len() == 0 ==> r@.len() == 0,
{
    s.to_lowercase()
}

/// Uppercase hexadecimal digit for a value below 16.
pub open spec fn hex_digit(d: u64) -> char
    recommends
        d < 16,
{
    if d == 0 {
        '0'
    } else if d == 1 {
        '1'
    } else if d == 2 {
        '2'
    } else if d == 3 {
        '3'
    } else if d == 4 {
        '4'
    } else if d == 5 {
        '5'
    } else if d == 6 {
        '6'
    } else if d == 7 {
        '7'
    } else if d == 8 {
        '8'
    } else if d == 9 {
        '9'
    } else if d == 10 {
        'A'
    } else if d == 11 {
        'B'
    } else if d == 12 {
        'C'
    } else if d == 13 {
        'D'
    } else if d == 14 {
        'E'
    } else {
        'F'
    }
}

/// The 16-digit, zero-padded, uppercase hexadecimal rendering of a 64-bit
/// word, most significant digit first.
pub open spec fn hex16(x: u64) -> Seq<char> {
    Seq::new(16, |i: int| hex_digit((x >> ((4 * (15 - i)) as u64)) & 0xf))
}

fn hex_digit_str(d: u64) -> (s: &'static str)
    requires
        d < 16,
    ensures
        s@ =~= seq![hex_digit(d)],
{
    proof {
        reveal_strlit("0");
        reveal_strlit("1");
        reveal_strlit("2");
        reveal_strlit("3");
        reveal_strlit("4");
        reveal_strlit("5");
        reveal_strlit("6");
        reveal_strlit("7");
        reveal_strlit("8");
        reveal_strlit("9");
        reveal_strlit("A");
        reveal_strlit("B");
        reveal_strlit("C");
        reveal_strlit("D");
        reveal_strlit("E");
        reveal_strlit("F");
    }
    if d == 0 {
        "0"
    } else if d == 1 {
        "1"
    } else if d == 2 {
        "2"
    } else if d == 3 {
        "3"
    } else if d == 4 {
        "4"
    } else if d == 5 {
        "5"
    } else if d == 6 {
        "6"
    } else if d == 7 {
        "7"
    } else if d == 8 {
        "8"
    } else if d == 9 {
        "9"
    } else if d == 10 {
        "A"
    } else if d == 11 {
        "B"
    } else if d == 12 {
        "C"
    } else if d == 13 {
        "D"
    } else if d == 14 {
        "E"
    } else {
        "F"
    }
}

/// Renders a 64-bit word as 16 uppercase hexadecimal digits, zero-padded.
pub fn hex16_string(x: u64) -> (s: String)
    ensures
        s@ == hex16(x),
{
    let mut s = String::new();
    let mut k: usize = 0;
    while k < 16
        invariant
            k <= 16,
            s@ =~= hex16(x).subrange(0, k as int),
        decreases 16 - k,
    {
        let shift: u64 = (4 * (15 - k as u64));
        let d: u64 = (x >> shift) & 0xf;
        proof {
            assert((x >> shift) & 0xf < 16) by (bit_vector);
        }
        s.append(hex_digit_str(d));
        proof {
            assert(hex16(x)[k as int] == hex_digit(d));
            assert(s@ =~= hex16(x).subrange(0, k as int + 1));
        }
        k = k + 1;
    }
    proof {
        assert(hex16(x).subrange(0, 16) =~= hex16(x));
    }
    s
}

/// Decimal digit character for a value below 10.
pub open spec fn dec_digit(d: u64) -> char
    recommends
        d < 10,
{
    if d == 0 {
        '0'
    } else if d == 1 {
        '1'
    } else if d == 2 {
        '2'
    } else if d == 3 {
        '3'
    } else if d == 4 {
        '4'
    } else if d == 5 {
        '5'
    } else if d == 6 {
        '6'
    } else if d == 7 {
        '7'
    } else if d == 8 {
        '8'
    } else {
        '9'
    }
}

/// The plain decimal rendering of a 64-bit word, without leading zeros
/// (a lone zero for the value zero).
pub open spec fn dec_str(n: u64) -> Seq<char>
    decreases n,
{
    if n < 10 {
        seq![dec_digit(n)]
    } else {
        dec_str(n / 10).push(dec_digit(n % 10))
    }
}

/// The digit characters of the collected remainders, least significant
/// last: position `i` holds the digit stored at `ds[ds.len() - 1 - i]`.
spec fn rev_digit_chars(ds: Seq<u64>) -> Seq<char> {
    Seq::new(ds.len(), |i: int| dec_digit(ds[ds.len() - 1 - i]))
}

fn dec_digit_str(d: u64) -> (s: &'static str)
    requires
        d < 10,
    ensures
        s@ =~= seq![dec_digit(d)],
{
    hex_digit_str(d)
}

proof fn lemma_hex_digit_is_dec_digit(d: u64)
    requires
        d < 10,
    ensures
        hex_digit(d) == dec_digit(d),
{
}

/// Renders a 64-bit word in decimal.
pub fn decimal_string(n: u64) -> (s: String)
    ensures
        s@ == dec_str(n),
{
    let mut digits: Vec<u64> = Vec::new();
    let mut m: u64 = n;
    loop
        invariant_except_break
            dec_str(n) =~= dec_str(m) + rev_digit_chars(digits@),
            forall|i: int| 0 <= i < digits@.len() ==> digits@[i] < 10,
        ensures
            dec_str(n) =~= rev_digit_chars(digits@),
            forall|i: int| 0 <= i < digits@.len() ==> digits@[i] < 10,
        decreases m,
    {
        let d: u64 = m % 10;
        let next: u64 = m / 10;
        digits.push(d);
        proof {
            let ds = digits@;
            assert(rev_digit_chars(ds) =~= seq![dec_digit(d)] + rev_digit_chars(
                ds.drop_last(),
            ));
            if next > 0 {
                assert(dec_str(m) =~= dec_str(next).push(dec_digit(d)));
            }
        }
        m = next;
        if m == 0 {
            break ;
        }
    }
    let mut s = String::new();
    let total: usize = digits.len();
    let mut k: usize = 0;
    while k < total
        invariant
            k <= total,
            total == digits@.len(),
            forall|i: int| 0 <= i < digits@.len() ==> digits@[i] < 10,
            dec_str(n) =~= rev_digit_chars(digits@),
            s@ =~= rev_digit_chars(digits@).subrange(0, k as int),
        decreases total - k,
    {
        let d: u64 = digits[total - 1 - k];
        proof {
            lemma_hex_digit_is_dec_digit(d);
        }
        s.append(dec_digit_str(d));
        proof {
            assert(rev_digit_chars(digits@)[k as int] == dec_digit(d));
            assert(s@ =~= rev_digit_chars(digits@).subrange(0, k as int + 1));
        }
        k = k + 1;
    }
    proof {
        assert(rev_digit_chars(digits@).subrange(0, digits@.len() as int) =~= rev_digit_chars(
            digits@,
        ));
    }
    s
}

} // verus!
