//! Decimal digits: formatting unsigned integers and parsing them back.

use vstd::prelude::*;

verus! {

/// The character that spells the decimal digit `d`.
pub open spec fn digit_char(d: nat) -> char {
    if d == 0 { '0' }
    else if d == 1 { '1' }
    else if d == 2 { '2' }
    else if d == 3 { '3' }
    else if d == 4 { '4' }
    else if d == 5 { '5' }
    else if d == 6 { '6' }
    else if d == 7 { '7' }
    else if d == 8 { '8' }
    else { '9' }
}

/// Whether `c` is an ASCII decimal digit.
pub open spec fn is_digit(c: char) -> bool {
    '0' <= c && c <= '9'
}

/// The value of the ASCII digit `c`.
pub open spec fn digit_value(c: char) -> nat {
    (c as int - '0' as int) as nat
}

/// Every character of `s` is an ASCII digit.
pub open spec fn all_digits(s: Seq<char>) -> bool {
    forall|i: int| 0 <= i < s.len() ==> is_digit(#[trigger] s[i])
}

/// The number that the digits `s` spell in base ten (0 for no digits).
pub open spec fn digits_value(s: Seq<char>) -> nat
    decreases s.len(),
{
    if s.len() == 0 {
        0
    } else {
        digits_value(s.drop_last()) * 10 + digit_value(s.last())
    }
}

/// The shortest decimal spelling of `n`.
pub open spec fn decimal(n: nat) -> Seq<char>
    decreases n,
{
    if n < 10 {
        seq![digit_char(n)]
    } else {
        decimal(n / 10).push(digit_char(n % 10))
    }
}

/// What `str::parse::<u64>` gives: an optional `+` and then one or more
/// digits whose value fits in `u64`.
pub open spec fn parse_u64_spec(s: Seq<char>) -> Option<u64> {
    let body = if s.len() > 0 && s[0] == '+' { s.skip(1) } else { s };
    if body.len() > 0 && all_digits(body) && digits_value(body) <= u64::MAX {
        Some(digits_value(body) as u64)
    } else {
        None
    }
}

/// The character for the digit `d`.
pub fn digit_to_char(d: u64) -> (c: char)
    requires
        d < 10,
    ensures
        c == digit_char(d as nat),
        is_digit(c),
        digit_value(c) == d,
{
    match d {
        0 => '0',
        1 => '1',
        2 => '2',
        3 => '3',
        4 => '4',
        5 => '5',
        6 => '6',
        7 => '7',
        8 => '8',
        _ => '9',
    }
}

/// The decimal spelling of `n`.
pub fn decimal_chars(n: u64) -> (out: Vec<char>)
    ensures
        out@ == decimal(n as nat),
    decreases n,
{
    if n < 10 {
        let mut out = Vec::new();
        out.push(digit_to_char(n));
        out
    } else {
        let mut out = decimal_chars(n / 10);
        out.push(digit_to_char(n % 10));
        out
    }
}

/// Each digit character reads back as its digit.
pub proof fn lemma_digit_char(d: nat)
    requires
        d < 10,
    ensures
        is_digit(digit_char(d)),
        digit_value(digit_char(d)) == d,
{
}

/// The decimal spelling of `n` consists of digits and spells `n` back.
pub proof fn lemma_decimal_roundtrip(n: nat)
    ensures
        decimal(n).len() > 0,
        all_digits(decimal(n)),
        digits_value(decimal(n)) == n,
    decreases n,
{
    lemma_digit_char(n % 10);
    if n < 10 {
        assert(decimal(n).drop_last() =~= Seq::<char>::empty());
        assert(digits_value(decimal(n).drop_last()) == 0);
    } else {
        lemma_decimal_roundtrip(n / 10);
        let d = decimal(n);
        assert(d.drop_last() == decimal(n / 10));
        assert forall|i: int| 0 <= i < d.len() implies is_digit(#[trigger] d[i]) by {
            if i < d.len() - 1 {
                assert(d[i] == decimal(n / 10)[i]);
            }
        }
    }
}

/// The decimal spelling of a `u64` reads back as that number.
pub proof fn lemma_parse_decimal(n: u64)
    ensures
        parse_u64_spec(decimal(n as nat)) == Some(n),
{
    lemma_decimal_roundtrip(n as nat);
    let d = decimal(n as nat);
    assert(is_digit(d[0]));
}

/// Different numbers have different decimal spellings.
pub proof fn lemma_decimal_injective(a: nat, b: nat)
    requires
        decimal(a) == decimal(b),
    ensures
        a == b,
{
    lemma_decimal_roundtrip(a);
    lemma_decimal_roundtrip(b);
}

/// The value of a prefix of a digit string is at most the value of the whole.
pub proof fn lemma_prefix_value_le(s: Seq<char>, k: int)
    requires
        0 <= k <= s.len(),
        all_digits(s),
    ensures
        digits_value(s.take(k)) <= digits_value(s),
    decreases s.len() - k,
{
    if k < s.len() {
        lemma_prefix_value_le(s, k + 1);
        assert(s.take(k + 1).drop_last() == s.take(k));
        assert(is_digit(s[k]));
    } else {
        assert(s.take(k) == s);
    }
}

/// Parses `s` as `str::parse::<u64>` does.
pub fn parse_u64(s: &Vec<char>) -> (r: Option<u64>)
    ensures
        r == parse_u64_spec(s@),
{
    let start: usize = if s.len() > 0 && s[0] == '+' { 1 } else { 0 };
    let ghost body = if s@.len() > 0 && s@[0] == '+' { s@.skip(1) } else { s@ };
    assert(body == s@.skip(start as int));
    if start >= s.len() {
        assert(body.len() == 0);
        return None;
    }
    let mut value: u64 = 0;
    let mut i: usize = start;
    while i < s.len()
        invariant
            start <= i <= s.len(),
            body == s@.skip(start as int),
            body == (if s@.len() > 0 && s@[0] == '+' { s@.skip(1) } else { s@ }),
            start < s.len(),
            all_digits(body.take(i - start)),
            value as nat == digits_value(body.take(i - start)),
        decreases s.len() - i,
    {
        let c = s[i];
        assert(body[i - start] == c);
        if !('0' <= c && c <= '9') {
            assert(!is_digit(body[i - start]));
            assert(!all_digits(body));
            return None;
        }
        let d = (c as u32 - '0' as u32) as u64;
        assert(d == digit_value(c));
        assert(body.take(i - start + 1).drop_last() == body.take(i - start));
        assert(body.take(i - start + 1).last() == c);
        assert(digits_value(body.take(i - start + 1)) == digits_value(body.take(i - start)) * 10 + d);
        assert(all_digits(body.take(i - start + 1))) by {
            assert forall|j: int| 0 <= j < i - start + 1 implies is_digit(#[trigger] body.take(i - start + 1)[j]) by {
                if j < i - start {
                    assert(body.take(i - start + 1)[j] == body.take(i - start)[j]);
                }
            }
        }
        match value.checked_mul(10) {
            Some(v10) => match v10.checked_add(d) {
                Some(v) => {
                    value = v;
                },
                None => {
                    proof { overflow_means_too_big(body, i - start + 1); }
                    return None;
                },
            },
            None => {
                proof { overflow_means_too_big(body, i - start + 1); }
                return None;
            },
        }
        i = i + 1;
    }
    assert(body.take(i - start) == body);
    Some(value)
}

proof fn overflow_means_too_big(body: Seq<char>, k: int)
    requires
        0 < k <= body.len(),
        all_digits(body.take(k)),
        digits_value(body.take(k)) > u64::MAX,
    ensures
        !(all_digits(body) && digits_value(body) <= u64::MAX),
{
    if all_digits(body) {
        lemma_prefix_value_le(body, k);
    }
}


/// The value of a digit string that is known to consist of digits, or
/// `None` when it does not fit in `u128`.
pub fn digits_to_u128(s: &Vec<char>) -> (r: Option<u128>)
    requires
        all_digits(s@),
    ensures
        match r {
            Some(v) => v as nat == digits_value(s@),
            None => digits_value(s@) > u128::MAX,
        },
{
    let mut value: u128 = 0;
    let mut i: usize = 0;
    while i < s.len()
        invariant
            i <= s.len(),
            all_digits(s@),
            value as nat == digits_value(s@.take(i as int)),
        decreases s.len() - i,
    {
        let c = s[i];
        assert(is_digit(s@[i as int]));
        let d = (c as u32 - '0' as u32) as u128;
        assert(s@.take(i + 1).drop_last() == s@.take(i as int));
        assert(s@.take(i + 1).last() == c);
        assert(digits_value(s@.take(i + 1)) == digits_value(s@.take(i as int)) * 10 + d);
        match value.checked_mul(10) {
            Some(v10) => match v10.checked_add(d) {
                Some(v) => {
                    value = v;
                },
                None => {
                    proof { lemma_prefix_value_le(s@, i + 1); }
                    return None;
                },
            },
            None => {
                proof { lemma_prefix_value_le(s@, i + 1); }
                return None;
            },
        }
        i = i + 1;
    }
    assert(s@.take(i as int) == s@);
    Some(value)
}

/// Whether every character of `s` is an ASCII digit (executable).
pub fn are_digits(s: &Vec<char>) -> (r: bool)
    ensures
        r == all_digits(s@),
{
    let mut i: usize = 0;
    while i < s.len()
        invariant
            i <= s.len(),
            forall|j: int| 0 <= j < i ==> is_digit(#[trigger] s@[j]),
        decreases s.len() - i,
    {
        if !('0' <= s[i] && s[i] <= '9') {
            return false;
        }
        i = i + 1;
    }
    true
}

/// Whether a digit string spells zero: every digit is `0`.
pub fn digits_are_zero(s: &Vec<char>) -> (r: bool)
    requires
        all_digits(s@),
    ensures
        r == (digits_value(s@) == 0),
{
    let mut i: usize = 0;
    while i < s.len()
        invariant
            i <= s.len(),
            all_digits(s@),
            digits_value(s@.take(i as int)) == 0,
        decreases s.len() - i,
    {
        assert(s@.take(i + 1).drop_last() == s@.take(i as int));
        assert(is_digit(s@[i as int]));
        if s[i] != '0' {
            proof { lemma_prefix_value_le(s@, i + 1); }
            return false;
        }
        i = i + 1;
    }
    assert(s@.take(i as int) == s@);
    true
}


/// What `str::parse::<i64>` gives: an optional sign and then one or more
/// digits whose signed value fits in `i64`.
pub open spec fn parse_i64_spec(s: Seq<char>) -> Option<i64> {
    let neg = s.len() > 0 && s[0] == '-';
    let body = if s.len() > 0 && (s[0] == '+' || s[0] == '-') { s.skip(1) } else { s };
    if body.len() > 0 && all_digits(body) {
        let v: int = if neg { -(digits_value(body) as int) } else { digits_value(body) as int };
        if i64::MIN <= v && v <= i64::MAX { Some(v as i64) } else { None }
    } else {
        None
    }
}

/// Parses `s` as `str::parse::<i64>` does.
pub fn parse_i64(s: &Vec<char>) -> (r: Option<i64>)
    ensures
        r == parse_i64_spec(s@),
{
    let neg = s.len() > 0 && s[0] == '-';
    let start: usize = if s.len() > 0 && (s[0] == '+' || s[0] == '-') { 1 } else { 0 };
    let ghost body = s@.skip(start as int);
    if start >= s.len() {
        assert(body.len() == 0);
        return None;
    }
    let mut body_x: Vec<char> = Vec::new();
    let mut i = start;
    while i < s.len()
        invariant
            start <= i <= s.len(),
            body_x@ == s@.subrange(start as int, i as int),
        decreases s.len() - i,
    {
        body_x.push(s[i]);
        assert(s@.subrange(start as int, i + 1) == s@.subrange(start as int, i as int).push(s@[i as int]));
        i = i + 1;
    }
    assert(body_x@ == body);
    assert(s@.skip(0) == s@);
    assert(body == (if s@.len() > 0 && (s@[0] == '+' || s@[0] == '-') { s@.skip(1) } else { s@ }));
    if !are_digits(&body_x) {
        return None;
    }
    match digits_to_u128(&body_x) {
        None => None,
        Some(v) => {
            if neg {
                if v <= 9_223_372_036_854_775_808 {
                    if v == 9_223_372_036_854_775_808 {
                        Some(i64::MIN)
                    } else {
                        let w = v as i64;
                        assert(w == v);
                        Some(-w)
                    }
                } else {
                    None
                }
            } else {
                if v <= 9_223_372_036_854_775_807 {
                    let w = v as i64;
                    assert(w == v);
                    Some(w)
                } else {
                    None
                }
            }
        },
    }
}

} // verus!
