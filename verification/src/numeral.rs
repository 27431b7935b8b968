//! Decimal numerals: formatting integers as text and parsing text back,
//! with exact specifications in both directions.

use vstd::prelude::*;

verus! {

/// The decimal digit character for `d`, or a placeholder outside `0..=9`.
pub open spec fn dec_digit(d: int) -> char {
    if d == 0 {
        '0'
    } else if d == 1 {
        '1'
    } else if d == 2 {
        '2'
    } else if d == 3 {
        '3'
    } else if d == 4 {
        '4'
    } else if d == 5 {
        '5'
    } else if d == 6 {
        '6'
    } else if d == 7 {
        '7'
    } else if d == 8 {
        '8'
    } else {
        '9'
    }
}

/// The value of a decimal digit character, or `-1` for any other character.
pub open spec fn dec_val(c: char) -> int {
    if c == '0' {
        0
    } else if c == '1' {
        1
    } else if c == '2' {
        2
    } else if c == '3' {
        3
    } else if c == '4' {
        4
    } else if c == '5' {
        5
    } else if c == '6' {
        6
    } else if c == '7' {
        7
    } else if c == '8' {
        8
    } else if c == '9' {
        9
    } else {
        -1
    }
}

pub open spec fn is_dec_digit(c: char) -> bool {
    dec_val(c) >= 0
}

/// Decimal text of a nonnegative integer, without leading zeros
/// (except for `0` itself).
pub open spec fn nat_text(n: int) -> Seq<char>
    decreases n,
{
    if n < 10 {
        seq![dec_digit(n)]
    } else {
        nat_text(n / 10) + seq![dec_digit(n % 10)]
    }
}

/// Decimal text of an integer, with a leading minus sign when negative.
pub open spec fn int_text(n: int) -> Seq<char> {
    if n < 0 {
        seq!['-'] + nat_text(-n)
    } else {
        nat_text(n)
    }
}

/// Value of a sequence of decimal digit characters, most significant first.
pub open spec fn digits_val(s: Seq<char>) -> int
    decreases s.len(),
{
    if s.len() == 0 {
        0
    } else {
        digits_val(s.drop_last()) * 10 + dec_val(s.last())
    }
}

pub open spec fn all_digits(s: Seq<char>) -> bool {
    forall|i: int| 0 <= i < s.len() ==> is_dec_digit(s[i])
}

/// What `str::parse::<usize>` accepts: an optional leading `+`, then one
/// or more decimal digits, the whole value fitting the type.
pub open spec fn spec_parse_usize(s: Seq<char>) -> Option<int> {
    let body = if s.len() > 0 && s[0] == '+' {
        s.subrange(1, s.len() as int)
    } else {
        s
    };
    if body.len() > 0 && all_digits(body) && digits_val(body) <= usize::MAX as int {
        Some(digits_val(body))
    } else {
        None
    }
}

/// Signed decimal parsing: an optional `+` or `-`, then one or more
/// digits, the whole value fitting `i64`.
pub open spec fn spec_parse_i64(s: Seq<char>) -> Option<int> {
    let neg = s.len() > 0 && s[0] == '-';
    let body = if s.len() > 0 && (s[0] == '-' || s[0] == '+') {
        s.subrange(1, s.len() as int)
    } else {
        s
    };
    if body.len() > 0 && all_digits(body) {
        if neg {
            if -digits_val(body) >= i64::MIN as int {
                Some(-digits_val(body))
            } else {
                None
            }
        } else {
            if digits_val(body) <= i64::MAX as int {
                Some(digits_val(body))
            } else {
                None
            }
        }
    } else {
        None
    }
}

pub open spec fn pow10(k: int) -> int
    decreases k,
{
    if k <= 0 {
        1
    } else {
        pow10(k - 1) * 10
    }
}

proof fn lemma_digits_val_upper(s: Seq<char>)
    requires
        all_digits(s),
    ensures
        0 <= digits_val(s) < pow10(s.len() as int),
    decreases s.len(),
{
    if s.len() > 0 {
        let d = s.drop_last();
        assert(all_digits(d));
        lemma_digits_val_upper(d);
        assert(is_dec_digit(s.last()));
        assert(pow10(s.len() as int) == pow10(s.len() - 1) * 10);
    }
}

proof fn lemma_digits_val_lower(s: Seq<char>)
    requires
        all_digits(s),
        s.len() > 0,
        dec_val(s[0]) >= 1,
    ensures
        digits_val(s) >= pow10(s.len() - 1),
    decreases s.len(),
{
    if s.len() == 1 {
        assert(s.drop_last().len() == 0);
        assert(digits_val(s.drop_last()) == 0);
        assert(s.last() == s[0]);
    } else {
        let d = s.drop_last();
        assert(all_digits(d));
        assert(d[0] == s[0]);
        lemma_digits_val_lower(d);
        assert(is_dec_digit(s.last()));
        assert(pow10(s.len() - 1) == pow10(s.len() - 2) * 10);
    }
}

proof fn lemma_digits_val_drop_zero(s: Seq<char>)
    requires
        s.len() > 0,
        s[0] == '0',
    ensures
        digits_val(s) == digits_val(s.subrange(1, s.len() as int)),
    decreases s.len(),
{
    if s.len() == 1 {
        assert(s.drop_last().len() == 0);
        assert(digits_val(s.drop_last()) == 0);
        assert(s.last() == s[0]);
        assert(digits_val(s) == 0);
        assert(s.subrange(1, 1).len() == 0);
        assert(digits_val(s.subrange(1, 1)) == 0);
    } else {
        let d = s.drop_last();
        assert(d[0] == '0');
        lemma_digits_val_drop_zero(d);
        let t = s.subrange(1, s.len() as int);
        assert(t.drop_last() =~= d.subrange(1, d.len() as int));
        assert(t.last() == s.last());
    }
}

proof fn lemma_digits_val_skip_zeros(t: Seq<char>, a: int, z: int, n: int)
    requires
        0 <= a <= z <= n <= t.len(),
        forall|j: int| a <= j < z ==> t[j] == '0',
    ensures
        digits_val(t.subrange(a, n)) == digits_val(t.subrange(z, n)),
    decreases z - a,
{
    if a < z {
        let s = t.subrange(a, n);
        assert(s[0] == t[a]);
        lemma_digits_val_drop_zero(s);
        assert(s.subrange(1, s.len() as int) =~= t.subrange(a + 1, n));
        lemma_digits_val_skip_zeros(t, a + 1, z, n);
    }
}

proof fn lemma_pow10_vals()
    ensures
        pow10(19) == 10000000000000000000,
        pow10(20) == 100000000000000000000,
{
    assert(pow10(0) == 1);
    assert(pow10(1) == 10);
    assert(pow10(2) == 100);
    assert(pow10(3) == 1000);
    assert(pow10(4) == 10000);
    assert(pow10(5) == 100000);
    assert(pow10(6) == 1000000);
    assert(pow10(7) == 10000000);
    assert(pow10(8) == 100000000);
    assert(pow10(9) == 1000000000);
    assert(pow10(10) == 10000000000);
    assert(pow10(11) == 100000000000);
    assert(pow10(12) == 1000000000000);
    assert(pow10(13) == 10000000000000);
    assert(pow10(14) == 100000000000000);
    assert(pow10(15) == 1000000000000000);
    assert(pow10(16) == 10000000000000000);
    assert(pow10(17) == 100000000000000000);
    assert(pow10(18) == 1000000000000000000);
    assert(pow10(19) == 10000000000000000000);
    assert(pow10(20) == 100000000000000000000);
}

proof fn lemma_pow10_pos(k: int)
    ensures
        pow10(k) >= 1,
    decreases k,
{
    if k > 0 {
        lemma_pow10_pos(k - 1);
    }
}

proof fn lemma_pow10_mono(a: int, b: int)
    requires
        a <= b,
    ensures
        pow10(a) <= pow10(b),
    decreases b - a,
{
    if a < b {
        lemma_pow10_mono(a, b - 1);
        if b > 0 {
            assert(pow10(b) == pow10(b - 1) * 10);
            lemma_pow10_pos(b - 1);
        }
    }
}

fn digit_char(d: u64) -> (c: char)
    requires
        d < 10,
    ensures
        c == dec_digit(d as int),
{
    if d == 0 {
        '0'
    } else if d == 1 {
        '1'
    } else if d == 2 {
        '2'
    } else if d == 3 {
        '3'
    } else if d == 4 {
        '4'
    } else if d == 5 {
        '5'
    } else if d == 6 {
        '6'
    } else if d == 7 {
        '7'
    } else if d == 8 {
        '8'
    } else {
        '9'
    }
}

fn digit_val_of(c: char) -> (r: i8)
    ensures
        r as int == dec_val(c),
{
    if c == '0' {
        0
    } else if c == '1' {
        1
    } else if c == '2' {
        2
    } else if c == '3' {
        3
    } else if c == '4' {
        4
    } else if c == '5' {
        5
    } else if c == '6' {
        6
    } else if c == '7' {
        7
    } else if c == '8' {
        8
    } else if c == '9' {
        9
    } else {
        -1
    }
}

fn push_nat_text(out: &mut Vec<char>, m: u64)
    ensures
        final(out)@ == old(out)@ + nat_text(m as int),
    decreases m,
{
    if m < 10 {
        out.push(digit_char(m));
        proof {
            assert(old(out)@ + nat_text(m as int) =~= old(out)@.push(dec_digit(m as int)));
        }
    } else {
        push_nat_text(out, m / 10);
        out.push(digit_char(m % 10));
        proof {
            assert(old(out)@ + nat_text(m as int) =~= (old(out)@ + nat_text(m as int / 10)).push(
                dec_digit(m as int % 10),
            ));
        }
    }
}

/// Decimal text of an `i64`, as `String`.
pub fn i64_string(n: i64) -> (r: String)
    ensures
        r@ == int_text(n as int),
{
    let mut out: Vec<char> = Vec::new();
    if n < 0 {
        out.push('-');
        let m: u64 = (-(n as i128)) as u64;
        proof {
            assert(m as int == -(n as int));
            assert(Seq::<char>::empty().push('-') =~= seq!['-']);
        }
        push_nat_text(&mut out, m);
    } else {
        push_nat_text(&mut out, n as u64);
    }
    crate::text::chars_to_string(&out)
}

/// Decimal text of a `usize`, as `String`.
pub fn usize_string(n: usize) -> (r: String)
    ensures
        r@ == nat_text(n as int),
{
    let mut out: Vec<char> = Vec::new();
    push_nat_text(&mut out, n as u64);
    crate::text::chars_to_string(&out)
}

/// Scans `s` from `start` to the end as a run of decimal digits and
/// returns their value when it fits `u64`.
fn parse_digits(s: &Vec<char>, start: usize) -> (r: Option<u64>)
    requires
        start <= s@.len(),
    ensures
        ({
            let body = s@.subrange(start as int, s@.len() as int);
            match r {
                Some(v) => body.len() > 0 && all_digits(body) && digits_val(body) == v as int,
                None => body.len() == 0 || !all_digits(body) || digits_val(body) > u64::MAX as int,
            }
        }),
{
    let n = s.len();
    let ghost body = s@.subrange(start as int, n as int);
    if start == n {
        return None;
    }
    // Every character must be a decimal digit.
    let mut i = start;
    while i < n
        invariant
            start <= i <= n,
            n == s@.len(),
            forall|j: int| start <= j < i ==> is_dec_digit(s@[j]),
        decreases n - i,
    {
        if digit_val_of(s[i]) < 0 {
            proof {
                assert(s@.subrange(start as int, n as int)[i - start] == s@[i as int]);
            }
            return None;
        }
        i = i + 1;
    }
    proof {
        assert(forall|k: int| 0 <= k < body.len() ==> body[k] == s@[start + k]);
        assert(all_digits(body));
    }
    // Leading zeros do not change the value; skip them so the length of
    // what remains bounds the value.
    let mut z = start;
    while z < n && s[z] == '0'
        invariant
            start <= z <= n,
            n == s@.len(),
            forall|j: int| start <= j < z ==> s@[j] == '0',
        decreases n - z,
    {
        z = z + 1;
    }
    proof {
        lemma_digits_val_skip_zeros(s@, start as int, z as int, n as int);
    }
    let ghost sig = s@.subrange(z as int, n as int);
    if n - z > 20 {
        proof {
            assert(forall|k: int| 0 <= k < sig.len() ==> sig[k] == s@[z + k]);
            assert(all_digits(sig));
            assert(sig[0] == s@[z as int]);
            assert(is_dec_digit(sig[0]) && sig[0] != '0');
            lemma_digits_val_lower(sig);
            lemma_pow10_mono(20, sig.len() - 1);
            lemma_pow10_vals();
        }
        return None;
    }
    let mut acc: u128 = 0;
    let mut i2 = z;
    while i2 < n
        invariant
            start <= z <= i2 <= n,
            n == s@.len(),
            n - z <= 20,
            forall|j: int| start <= j < n ==> is_dec_digit(s@[j]),
            acc as int == digits_val(s@.subrange(z as int, i2 as int)),
            (acc as int) < pow10((i2 - z) as int),
        decreases n - i2,
    {
        let d = digit_val_of(s[i2]);
        proof {
            assert(is_dec_digit(s@[i2 as int]));
            lemma_pow10_mono((i2 - z) as int, 19);
            lemma_pow10_vals();
        }
        acc = acc * 10 + (d as u128);
        proof {
            let prev = s@.subrange(z as int, i2 as int);
            let cur = s@.subrange(z as int, (i2 + 1) as int);
            assert(cur.drop_last() =~= prev);
            assert(cur.last() == s@[i2 as int]);
            assert(pow10((i2 + 1 - z) as int) == pow10((i2 - z) as int) * 10);
        }
        i2 = i2 + 1;
    }
    proof {
        assert(s@.subrange(z as int, n as int) =~= sig);
        assert(acc as int == digits_val(body));
    }
    if acc > u64::MAX as u128 {
        return None;
    }
    Some(acc as u64)
}

/// Parses a `usize` as `str::parse` would: optional `+`, then digits.
pub fn parse_usize(s: &str) -> (r: Option<usize>)
    ensures
        match r {
            Some(v) => spec_parse_usize(s@) == Some(v as int),
            None => spec_parse_usize(s@) is None,
        },
{
    let cs = crate::text::to_chars(s);
    let start: usize = if cs.len() > 0 && cs[0] == '+' {
        1
    } else {
        0
    };
    proof {
        if !(cs@.len() > 0 && cs@[0] == '+') {
            assert(cs@.subrange(0, cs@.len() as int) =~= cs@);
        }
    }
    match parse_digits(&cs, start) {
        Some(v) => {
            if v as u128 <= usize::MAX as u128 {
                Some(v as usize)
            } else {
                None
            }
        },
        None => None,
    }
}

/// Parses an `i64`: optional `+` or `-`, then digits.
pub fn parse_i64(s: &str) -> (r: Option<i64>)
    ensures
        match r {
            Some(v) => spec_parse_i64(s@) == Some(v as int),
            None => spec_parse_i64(s@) is None,
        },
{
    let cs = crate::text::to_chars(s);
    let neg = cs.len() > 0 && cs[0] == '-';
    let start: usize = if cs.len() > 0 && (cs[0] == '-' || cs[0] == '+') {
        1
    } else {
        0
    };
    proof {
        if !(cs@.len() > 0 && (cs@[0] == '-' || cs@[0] == '+')) {
            assert(cs@.subrange(0, cs@.len() as int) =~= cs@);
        }
    }
    match parse_digits(&cs, start) {
        Some(v) => {
            if neg {
                if v <= 9223372036854775808u64 {
                    Some((-(v as i128)) as i64)
                } else {
                    None
                }
            } else {
                if v <= 9223372036854775807u64 {
                    Some(v as i64)
                } else {
                    None
                }
            }
        },
        None => None,
    }
}

} // verus!
