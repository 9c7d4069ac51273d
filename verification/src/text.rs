//! Character-level helpers: whitespace, trimming, decimal numbers.

use vstd::prelude::*;

verus! {

/// The Unicode `White_Space` property, the set that `char::is_whitespace` tests.
pub open spec fn is_ws(c: char) -> bool {
    let u = c as u32;
    ||| u == 0x20
    ||| 0x09 <= u <= 0x0D
    ||| u == 0x85
    ||| u == 0xA0
    ||| u == 0x1680
    ||| 0x2000 <= u <= 0x200A
    ||| u == 0x2028
    ||| u == 0x2029
    ||| u == 0x202F
    ||| u == 0x205F
    ||| u == 0x3000
}

pub fn is_whitespace(c: char) -> (r: bool)
    ensures
        r == is_ws(c),
{
    let u = c as u32;
    u == 0x20 || (0x09 <= u && u <= 0x0D) || u == 0x85 || u == 0xA0 || u == 0x1680 || (0x2000
        <= u && u <= 0x200A) || u == 0x2028 || u == 0x2029 || u == 0x202F || u == 0x205F || u
        == 0x3000
}


/// Strips leading whitespace.
pub open spec fn trim_start(s: Seq<char>) -> Seq<char>
    decreases s.len(),
{
    if s.len() > 0 && is_ws(s[0]) {
        trim_start(s.drop_first())
    } else {
        s
    }
}

/// Strips trailing whitespace.
pub open spec fn trim_end(s: Seq<char>) -> Seq<char>
    decreases s.len(),
{
    if s.len() > 0 && is_ws(s.last()) {
        trim_end(s.drop_last())
    } else {
        s
    }
}

/// What `str::trim` gives back: the text without whitespace at either end.
pub open spec fn trim(s: Seq<char>) -> Seq<char> {
    trim_end(trim_start(s))
}

/// A text with no whitespace at either end is its own trimmed form.
pub proof fn lemma_trim_untouched(s: Seq<char>)
    requires
        s.len() > 0 ==> !is_ws(s[0]) && !is_ws(s.last()),
    ensures
        trim(s) == s,
{
}

/// Bounds `[a, b)` of the trimmed part of `s[lo..hi]`.
pub fn trim_bounds(s: &Vec<char>, lo: usize, hi: usize) -> (r: (usize, usize))
    requires
        lo <= hi <= s@.len(),
    ensures
        lo <= r.0 <= r.1 <= hi,
        s@.subrange(r.0 as int, r.1 as int) == trim(s@.subrange(lo as int, hi as int)),
{
    let mut a = lo;
    while a < hi && is_whitespace(s[a])
        invariant
            lo <= a <= hi <= s@.len(),
            trim_start(s@.subrange(lo as int, hi as int)) == trim_start(
                s@.subrange(a as int, hi as int),
            ),
        decreases hi - a,
    {
        assert(s@.subrange(a as int, hi as int).drop_first() =~= s@.subrange(
            a + 1,
            hi as int,
        ));
        a = a + 1;
    }
    let mut b = hi;
    while b > a && is_whitespace(s[b - 1])
        invariant
            lo <= a <= b <= hi <= s@.len(),
            trim_end(s@.subrange(a as int, hi as int)) == trim_end(
                s@.subrange(a as int, b as int),
            ),
            a < hi ==> !is_ws(s@[a as int]),
        decreases b - a,
    {
        assert(s@.subrange(a as int, b as int).drop_last() =~= s@.subrange(
            a as int,
            b - 1,
        ));
        b = b - 1;
    }
    (a, b)
}

pub open spec fn is_digit(c: char) -> bool {
    '0' <= c <= '9'
}

pub open spec fn digit_value(c: char) -> nat {
    (c as u32 - '0' as u32) as nat
}

pub open spec fn digit_char(d: nat) -> char {
    ('0' as u32 + d) as char
}

pub open spec fn all_digits(s: Seq<char>) -> bool {
    forall|i: int| 0 <= i < s.len() ==> is_digit(#[trigger] s[i])
}

/// The number that a string of decimal digits spells.
pub open spec fn digits_value(s: Seq<char>) -> nat
    decreases s.len(),
{
    if s.len() == 0 {
        0
    } else {
        digits_value(s.drop_last()) * 10 + digit_value(s.last())
    }
}

/// Decimal digits of `n`, most significant first, without leading zeros.
pub open spec fn dec_nat(n: nat) -> Seq<char>
    decreases n,
{
    if n < 10 {
        seq![digit_char(n)]
    } else {
        dec_nat(n / 10).push(digit_char(n % 10))
    }
}

/// Decimal form of an integer, with a `-` in front of a negative one.
pub open spec fn dec_int(i: int) -> Seq<char> {
    if i < 0 {
        seq!['-'] + dec_nat((-i) as nat)
    } else {
        dec_nat(i as nat)
    }
}

pub proof fn lemma_dec_nat(n: nat)
    ensures
        dec_nat(n).len() >= 1,
        all_digits(dec_nat(n)),
        digits_value(dec_nat(n)) == n,
    decreases n,
{
    assert(digit_value(digit_char(n % 10)) == n % 10);
    if n < 10 {
        assert(dec_nat(n).drop_last() =~= Seq::<char>::empty());
        assert(digits_value(Seq::<char>::empty()) == 0);
        assert(dec_nat(n).last() == digit_char(n));
        assert(digits_value(dec_nat(n)) == n);
    } else {
        lemma_dec_nat(n / 10);
        let s = dec_nat(n);
        assert(s.drop_last() =~= dec_nat(n / 10));
        assert(s.last() == digit_char(n % 10));
        assert((n / 10) * 10 + n % 10 == n) by (nonlinear_arith);
        assert(digits_value(s) == digits_value(s.drop_last()) * 10 + digit_value(s.last()));
        assert(digits_value(s) == n);
        assert forall|i: int| 0 <= i < s.len() implies is_digit(#[trigger] s[i]) by {
            if i < s.len() - 1 {
                assert(s[i] == dec_nat(n / 10)[i]);
            }
        }
    }
}

/// Rust's `str::parse::<i32>`: an optional `+` or `-`, then at least one
/// decimal digit and nothing else, with a value in range.
pub open spec fn parse_i32_spec(s: Seq<char>) -> Option<i32> {
    if s.len() == 0 {
        None
    } else if (s[0] == '+' || s[0] == '-') && s.len() == 1 {
        None
    } else {
        let digits = if s[0] == '+' || s[0] == '-' {
            s.drop_first()
        } else {
            s
        };
        let v: int = if s[0] == '-' {
            -digits_value(digits)
        } else {
            digits_value(digits) as int
        };
        if all_digits(digits) && i32::MIN <= v <= i32::MAX {
            Some(v as i32)
        } else {
            None
        }
    }
}

/// Rust's `str::parse::<u64>`: an optional `+`, then at least one decimal
/// digit and nothing else, with a value in range.
pub open spec fn parse_u64_spec(s: Seq<char>) -> Option<u64> {
    if s.len() == 0 {
        None
    } else if s[0] == '+' && s.len() == 1 {
        None
    } else {
        let digits = if s[0] == '+' {
            s.drop_first()
        } else {
            s
        };
        if all_digits(digits) && digits_value(digits) <= u64::MAX {
            Some(digits_value(digits) as u64)
        } else {
            None
        }
    }
}

/// Parsing the decimal form of an `i32` gives the number back.
pub proof fn lemma_parse_dec_i32(x: i32)
    ensures
        parse_i32_spec(dec_int(x as int)) == Some(x),
{
    if x < 0 {
        lemma_dec_nat((-x) as nat);
        let s = dec_int(x as int);
        assert(s.drop_first() =~= dec_nat((-x) as nat));
    } else {
        lemma_dec_nat(x as nat);
        assert(is_digit(dec_nat(x as nat)[0]));
    }
}

/// Parsing the decimal form of a `u64` gives the number back.
pub proof fn lemma_parse_dec_u64(x: u64)
    ensures
        parse_u64_spec(dec_nat(x as nat)) == Some(x),
{
    lemma_dec_nat(x as nat);
    assert(is_digit(dec_nat(x as nat)[0]));
}

proof fn lemma_digits_value_prefix(s: Seq<char>, k: int)
    requires
        0 <= k <= s.len(),
    ensures
        digits_value(s.subrange(0, k)) <= digits_value(s),
    decreases s.len() - k,
{
    if k < s.len() {
        lemma_digits_value_prefix(s, k + 1);
        assert(s.subrange(0, k + 1).drop_last() =~= s.subrange(0, k));
    } else {
        assert(s.subrange(0, k) =~= s);
    }
}

/// Value of the digits `s[lo..hi]`, or `None` when it is above `limit`.
fn digits_up_to(s: &Vec<char>, lo: usize, hi: usize, limit: u64) -> (r: Option<u64>)
    requires
        lo <= hi <= s@.len(),
        all_digits(s@.subrange(lo as int, hi as int)),
    ensures
        match r {
            Some(v) => v == digits_value(s@.subrange(lo as int, hi as int)) && v <= limit,
            None => digits_value(s@.subrange(lo as int, hi as int)) > limit,
        },
{
    let ghost whole = s@.subrange(lo as int, hi as int);
    let mut acc: u64 = 0;
    let mut i = lo;
    while i < hi
        invariant
            lo <= i <= hi <= s@.len(),
            whole == s@.subrange(lo as int, hi as int),
            all_digits(whole),
            acc == digits_value(whole.subrange(0, i - lo)),
            acc <= limit,
        decreases hi - i,
    {
        assert(whole[i - lo] == s@[i as int]);
        assert(is_digit(whole[i - lo]));
        let d = (s[i] as u32 - '0' as u32) as u64;
        assert(whole.subrange(0, i - lo + 1).drop_last() =~= whole.subrange(0, i - lo));
        if (acc as u128) * 10 + (d as u128) > (limit as u128) {
            proof {
                lemma_digits_value_prefix(whole, i - lo + 1);
            }
            return None;
        }
        acc = acc * 10 + d;
        i = i + 1;
    }
    assert(whole.subrange(0, hi - lo) =~= whole);
    Some(acc)
}


/// Value of the decimal-or-signed text `s[lo..hi]` as `str::parse::<i32>` reads it.
pub fn parse_i32_at(s: &Vec<char>, lo: usize, hi: usize) -> (r: Option<i32>)
    requires
        lo <= hi <= s@.len(),
    ensures
        r == parse_i32_spec(s@.subrange(lo as int, hi as int)),
{
    let ghost t = s@.subrange(lo as int, hi as int);
    if lo == hi {
        return None;
    }
    let first = s[lo];
    let signed = first == '+' || first == '-';
    if signed && hi - lo == 1 {
        return None;
    }
    let start = if signed {
        lo + 1
    } else {
        lo
    };
    let ghost digits = s@.subrange(start as int, hi as int);
    assert(digits =~= (if signed {
        t.drop_first()
    } else {
        t
    }));
    if !all_digits_at(s, start, hi) {
        return None;
    }
    let limit: u64 = if first == '-' {
        0x8000_0000
    } else {
        0x7FFF_FFFF
    };
    match digits_up_to(s, start, hi, limit) {
        None => None,
        Some(v) => {
            if first == '-' {
                Some((0 - (v as i64)) as i32)
            } else {
                Some(v as i32)
            }
        },
    }
}

/// Value of the text `s[lo..hi]` as `str::parse::<u64>` reads it.
pub fn parse_u64_at(s: &Vec<char>, lo: usize, hi: usize) -> (r: Option<u64>)
    requires
        lo <= hi <= s@.len(),
    ensures
        r == parse_u64_spec(s@.subrange(lo as int, hi as int)),
{
    let ghost t = s@.subrange(lo as int, hi as int);
    if lo == hi {
        return None;
    }
    let plus = s[lo] == '+';
    if plus && hi - lo == 1 {
        return None;
    }
    let start = if plus {
        lo + 1
    } else {
        lo
    };
    assert(s@.subrange(start as int, hi as int) =~= (if plus {
        t.drop_first()
    } else {
        t
    }));
    if !all_digits_at(s, start, hi) {
        return None;
    }
    digits_up_to(s, start, hi, u64::MAX)
}

/// Whether every character of `s[lo..hi]` is a decimal digit.
pub fn all_digits_at(s: &Vec<char>, lo: usize, hi: usize) -> (r: bool)
    requires
        lo <= hi <= s@.len(),
    ensures
        r == all_digits(s@.subrange(lo as int, hi as int)),
{
    let mut i = lo;
    while i < hi
        invariant
            lo <= i <= hi <= s@.len(),
            forall|j: int| lo <= j < i ==> is_digit(#[trigger] s@[j]),
        decreases hi - i,
    {
        let c = s[i];
        if !('0' <= c && c <= '9') {
            assert(!is_digit(s@.subrange(lo as int, hi as int)[i - lo]));
            return false;
        }
        i = i + 1;
    }
    assert forall|j: int| 0 <= j < hi - lo implies is_digit(
        #[trigger] s@.subrange(lo as int, hi as int)[j],
    ) by {
        assert(s@.subrange(lo as int, hi as int)[j] == s@[lo + j]);
    }
    true
}

/// Whether `s[lo..hi]` is exactly the text `lit`.
pub fn eq_at(s: &Vec<char>, lo: usize, hi: usize, lit: &str) -> (r: bool)
    requires
        lo <= hi <= s@.len(),
    ensures
        r == (s@.subrange(lo as int, hi as int) == lit@),
{
    let n = lit.unicode_len();
    if hi - lo != n {
        return false;
    }
    let mut i: usize = 0;
    while i < n
        invariant
            n == lit@.len(),
            hi - lo == n,
            lo <= hi <= s@.len(),
            0 <= i <= n,
            forall|j: int| 0 <= j < i ==> s@[lo + j] == lit@[j],
        decreases n - i,
    {
        if s[lo + i] != lit.get_char(i) {
            assert(s@.subrange(lo as int, hi as int)[i as int] != lit@[i as int]);
            return false;
        }
        i = i + 1;
    }
    assert(s@.subrange(lo as int, hi as int) =~= lit@);
    true
}

/// The characters of a text, in order.
pub fn chars_of(text: &str) -> (r: Vec<char>)
    ensures
        r@ == text@,
{
    let n = text.unicode_len();
    let mut r: Vec<char> = Vec::new();
    let mut i: usize = 0;
    while i < n
        invariant
            n == text@.len(),
            0 <= i <= n,
            r@ == text@.subrange(0, i as int),
        decreases n - i,
    {
        r.push(text.get_char(i));
        assert(r@ =~= text@.subrange(0, i + 1));
        i = i + 1;
    }
    assert(r@ =~= text@);
    r
}

/// One decimal digit as a text.
fn digit_str(d: u8) -> (s: &'static str)
    requires
        d < 10,
    ensures
        s@ == seq![digit_char(d as nat)],
{
    proof {
        reveal_strlit("0");
        reveal_strlit("1");
        reveal_strlit("2");
        reveal_strlit("3");
        reveal_strlit("4");
        reveal_strlit("5");
        reveal_strlit("6");
        reveal_strlit("7");
        reveal_strlit("8");
        reveal_strlit("9");
    }
    match d {
        0 => "0",
        1 => "1",
        2 => "2",
        3 => "3",
        4 => "4",
        5 => "5",
        6 => "6",
        7 => "7",
        8 => "8",
        _ => "9",
    }
}

/// Decimal form of `n`, as `u64`'s `Display` writes it.
pub fn fmt_u64(n: u64) -> (r: String)
    ensures
        r@ == dec_nat(n as nat),
    decreases n,
{
    if n < 10 {
        digit_str(n as u8).to_owned()
    } else {
        let mut r = fmt_u64(n / 10);
        r.append(digit_str((n % 10) as u8));
        r
    }
}

/// Decimal form of `x`, as `i32`'s `Display` writes it.
pub fn fmt_i32(x: i32) -> (r: String)
    ensures
        r@ == dec_int(x as int),
{
    if x < 0 {
        let m = (0 - (x as i64)) as u64;
        let mut r = "-".to_owned();
        proof {
            reveal_strlit("-");
        }
        let digits = fmt_u64(m);
        r.append(digits.as_str());
        r
    } else {
        fmt_u64(x as u64)
    }
}

} // verus!
