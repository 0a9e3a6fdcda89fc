//! Decimal text for 32-bit identifiers.
//!
//! Identifiers travel through URL path segments as decimal text, so the
//! library parses and renders that form itself, against an exact account of
//! which character sequences denote which integers. Parsing accepts an
//! optional sign followed by one or more digits, provided the value fits in
//! an `i32`; rendering produces the canonical form (a `-` for negatives,
//! no `+`, no leading zeros beyond a single `0`).
use vstd::prelude::*;
use vstd::string::StrSliceExecFns;
use vstd::string::StringExecFns;

verus! {

/// The ten decimal digit characters.
pub open spec fn is_digit(c: char) -> bool {
    ||| c == '0'
    ||| c == '1'
    ||| c == '2'
    ||| c == '3'
    ||| c == '4'
    ||| c == '5'
    ||| c == '6'
    ||| c == '7'
    ||| c == '8'
    ||| c == '9'
}

/// The numeric value of a digit character (`0` for anything else).
pub open spec fn digit_val(c: char) -> int {
    if c == '1' {
        1
    } else if c == '2' {
        2
    } else if c == '3' {
        3
    } else if c == '4' {
        4
    } else if c == '5' {
        5
    } else if c == '6' {
        6
    } else if c == '7' {
        7
    } else if c == '8' {
        8
    } else if c == '9' {
        9
    } else {
        0
    }
}

/// The digit character for a value below ten (`'9'` for anything else).
pub open spec fn char_of_digit(d: int) -> char {
    if d == 0 {
        '0'
    } else if d == 1 {
        '1'
    } else if d == 2 {
        '2'
    } else if d == 3 {
        '3'
    } else if d == 4 {
        '4'
    } else if d == 5 {
        '5'
    } else if d == 6 {
        '6'
    } else if d == 7 {
        '7'
    } else if d == 8 {
        '8'
    } else {
        '9'
    }
}

/// Every character of the sequence is a decimal digit.
pub open spec fn all_digits(s: Seq<char>) -> bool {
    forall|i: int| 0 <= i < s.len() ==> is_digit(#[trigger] s[i])
}

/// The value of a digit sequence read in base ten.
pub open spec fn digits_val(s: Seq<char>) -> int
    decreases s.len(),
{
    if s.len() == 0 {
        0
    } else {
        digits_val(s.drop_last()) * 10 + digit_val(s.last())
    }
}

/// The sequence with a single leading sign removed.
pub open spec fn digits_part(s: Seq<char>) -> Seq<char> {
    if s.len() > 0 && (s[0] == '-' || s[0] == '+') {
        s.skip(1)
    } else {
        s
    }
}

/// An optional sign followed by at least one digit.
pub open spec fn is_dec_int(s: Seq<char>) -> bool {
    digits_part(s).len() > 0 && all_digits(digits_part(s))
}

/// The signed value such a sequence denotes.
pub open spec fn dec_val(s: Seq<char>) -> int {
    if s.len() > 0 && s[0] == '-' {
        -digits_val(digits_part(s))
    } else {
        digits_val(digits_part(s))
    }
}

/// Decimal text denoting a value that fits in an `i32`.
pub open spec fn is_dec_i32(s: Seq<char>) -> bool {
    is_dec_int(s) && i32::MIN <= dec_val(s) <= i32::MAX
}

/// The canonical digit string of a nonnegative integer.
pub open spec fn dec_digits_of(n: int) -> Seq<char>
    recommends
        0 <= n,
    decreases n,
{
    if n < 10 {
        seq![char_of_digit(n)]
    } else {
        dec_digits_of(n / 10).push(char_of_digit(n % 10))
    }
}

/// The canonical decimal rendering of an integer, sign included.
pub open spec fn dec_rep_of(n: int) -> Seq<char> {
    if n < 0 {
        seq!['-'] + dec_digits_of(-n)
    } else {
        dec_digits_of(n)
    }
}

/// A digit string never denotes a negative value.
pub proof fn lemma_digits_val_nonneg(s: Seq<char>)
    ensures
        digits_val(s) >= 0,
    decreases s.len(),
{
    if s.len() > 0 {
        lemma_digits_val_nonneg(s.drop_last());
    }
}

/// Reading more digits can only increase the value.
pub proof fn lemma_digits_val_prefix(s: Seq<char>, k: int)
    requires
        0 <= k <= s.len(),
    ensures
        digits_val(s.take(k)) <= digits_val(s),
    decreases s.len(),
{
    if k == s.len() {
        assert(s.take(k) =~= s);
    } else {
        assert(s.drop_last().take(k) =~= s.take(k));
        lemma_digits_val_prefix(s.drop_last(), k);
        lemma_digits_val_nonneg(s.drop_last());
    }
}

/// The canonical digit string denotes the integer it was built from.
pub proof fn lemma_dec_digits_of_val(n: int)
    requires
        0 <= n,
    ensures
        dec_digits_of(n).len() > 0,
        all_digits(dec_digits_of(n)),
        digits_val(dec_digits_of(n)) == n,
    decreases n,
{
    if n < 10 {
        let s = seq![char_of_digit(n)];
        assert(s.drop_last() =~= Seq::<char>::empty());
        assert(digits_val(s.drop_last()) == 0);
        assert(s.last() == char_of_digit(n));
        assert(digits_val(s) == digit_val(char_of_digit(n)));
    } else {
        lemma_dec_digits_of_val(n / 10);
        let s = dec_digits_of(n / 10).push(char_of_digit(n % 10));
        assert(s.drop_last() =~= dec_digits_of(n / 10));
        assert(digits_val(s) == (n / 10) * 10 + (n % 10));
        assert forall|i: int| 0 <= i < s.len() implies is_digit(#[trigger] s[i]) by {
            if i < s.len() - 1 {
                assert(s[i] == dec_digits_of(n / 10)[i]);
            }
        }
    }
}

/// Rendering then parsing gives the integer back.
pub proof fn lemma_dec_round_trip(n: int)
    requires
        i32::MIN <= n <= i32::MAX,
    ensures
        is_dec_i32(dec_rep_of(n)),
        dec_val(dec_rep_of(n)) == n,
{
    if n < 0 {
        lemma_dec_digits_of_val(-n);
        let s = seq!['-'] + dec_digits_of(-n);
        assert(s[0] == '-');
        assert(s.skip(1) =~= dec_digits_of(-n));
    } else {
        lemma_dec_digits_of_val(n);
        let s = dec_digits_of(n);
        assert(is_digit(s[0]));
        assert(digits_part(s) =~= s);
    }
}

/// The digit value of a character, or `None` for anything else.
fn digit_of_char(c: char) -> (r: Option<u32>)
    ensures
        r is Some <==> is_digit(c),
        r matches Some(d) ==> d == digit_val(c),
{
    match c {
        '0' => Some(0),
        '1' => Some(1),
        '2' => Some(2),
        '3' => Some(3),
        '4' => Some(4),
        '5' => Some(5),
        '6' => Some(6),
        '7' => Some(7),
        '8' => Some(8),
        '9' => Some(9),
        _ => None,
    }
}

/// The one-character string of a digit value.
fn str_of_digit(d: u32) -> (r: &'static str)
    requires
        d < 10,
    ensures
        r@ =~= seq![char_of_digit(d as int)],
{
    proof {
        reveal_strlit("0");
        reveal_strlit("1");
        reveal_strlit("2");
        reveal_strlit("3");
        reveal_strlit("4");
        reveal_strlit("5");
        reveal_strlit("6");
        reveal_strlit("7");
        reveal_strlit("8");
        reveal_strlit("9");
    }
    match d {
        0 => "0",
        1 => "1",
        2 => "2",
        3 => "3",
        4 => "4",
        5 => "5",
        6 => "6",
        7 => "7",
        8 => "8",
        _ => "9",
    }
}

/// Parses decimal text as an `i32`, exactly when the text denotes a value
/// that fits.
#[verifier::loop_isolation(false)]
pub fn parse_i32(s: &str) -> (r: Option<i32>)
    ensures
        r == (if is_dec_i32(s@) {
            Some(dec_val(s@) as i32)
        } else {
            None::<i32>
        }),
{
    let len = s.unicode_len();
    if len == 0 {
        return None;
    }
    let first = s.get_char(0);
    let neg = first == '-';
    let start: usize = if first == '-' || first == '+' {
        1
    } else {
        0
    };
    if start == len {
        // a bare sign has no digits
        return None;
    }
    let ghost digits = digits_part(s@);
    proof {
        assert(digits =~= s@.subrange(start as int, len as int));
    }
    let mut i: usize = start;
    let mut mag: u64 = 0;
    while i < len
        invariant
            s@.len() == len,
            start <= i <= len,
            start <= 1,
            digits =~= s@.subrange(start as int, len as int),
            all_digits(s@.subrange(start as int, i as int)),
            mag == digits_val(s@.subrange(start as int, i as int)),
            mag <= 0x8000_0000,
        decreases len - i,
    {
        let c = s.get_char(i);
        let ghost prefix = s@.subrange(start as int, i as int);
        let ghost prefix1 = s@.subrange(start as int, i + 1 as int);
        proof {
            assert(prefix1.drop_last() =~= prefix);
            assert(prefix1.last() == s@[i as int]);
        }
        match digit_of_char(c) {
            None => {
                proof {
                    assert(digits[i - start] == s@[i as int]);
                    assert(!all_digits(digits));
                }
                return None;
            },
            Some(d) => {
                mag = mag * 10 + (d as u64);
                assert(mag == digits_val(prefix1));
                if mag > 0x8000_0000 {
                    // every longer digit string denotes something still larger
                    proof {
                        if is_dec_i32(s@) {
                            assert(prefix1 =~= digits.take(i + 1 - start));
                            lemma_digits_val_prefix(digits, i + 1 - start);
                        }
                    }
                    return None;
                }
            },
        }
        i += 1;
    }
    proof {
        assert(s@.subrange(start as int, len as int) =~= digits);
        assert(all_digits(digits));
        assert(mag == digits_val(digits));
    }
    if neg {
        if mag == 0x8000_0000 {
            Some(i32::MIN)
        } else {
            Some(-(mag as i32))
        }
    } else {
        if mag > 0x7fff_ffff {
            None
        } else {
            Some(mag as i32)
        }
    }
}

/// The canonical digit string of a nonnegative 32-bit value.
fn render_u32(n: u32) -> (r: String)
    ensures
        r@ == dec_digits_of(n as int),
    decreases n,
{
    if n < 10 {
        String::from_str(str_of_digit(n))
    } else {
        let mut s = render_u32(n / 10);
        s.append(str_of_digit(n % 10));
        proof {
            assert(dec_digits_of(n as int / 10) + seq![char_of_digit(n as int % 10)]
                =~= dec_digits_of(n as int / 10).push(char_of_digit(n as int % 10)));
        }
        s
    }
}

/// Renders an `i32` as canonical decimal text.
pub fn render_i32(n: i32) -> (r: String)
    ensures
        r@ == dec_rep_of(n as int),
{
    if n >= 0 {
        render_u32(n as u32)
    } else {
        let mag: u32 = if n == i32::MIN {
            0x8000_0000
        } else {
            (-n) as u32
        };
        let digits = render_u32(mag);
        let mut s = String::from_str("-");
        proof {
            reveal_strlit("-");
            assert("-"@ =~= seq!['-']);
        }
        s.append(digits.as_str());
        s
    }
}

} // verus!
