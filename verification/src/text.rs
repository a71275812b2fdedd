//! Character-sequence helpers on which the parsers and formatters are built.

use vstd::prelude::*;

verus! {

/// `String::push` from std: appends one character.
#[verifier::external_body]
fn push_char(s: &mut String, c: char)
    ensures
        final(s)@ == old(s)@.push(c),
{
    s.push(c);
}

/// The characters of a string slice, in order.
pub fn chars_of(s: &str) -> (out: Vec<char>)
    ensures
        out@ == s@,
{
    let mut out: Vec<char> = Vec::new();
    for c in it: s.chars()
        invariant
            out@ == it.seq().take(it.index() as int),
    {
        out.push(c);
    }
    out
}

/// A string holding exactly the given characters.
pub fn string_of(cs: &Vec<char>) -> (out: String)
    ensures
        out@ == cs@,
{
    let mut out = String::new();
    let mut i: usize = 0;
    while i < cs.len()
        invariant
            i <= cs.len(),
            out@ == cs@.take(i as int),
        decreases cs.len() - i,
    {
        push_char(&mut out, cs[i]);
        assert(cs@.take(i as int + 1) == cs@.take(i as int).push(cs@[i as int]));
        i = i + 1;
    }
    assert(cs@.take(cs.len() as int) == cs@);
    out
}


/// Appends the characters of `lit` to `out`.
pub fn push_str(out: &mut Vec<char>, lit: &str)
    ensures
        final(out)@ == old(out)@ + lit@,
{
    let cs = chars_of(lit);
    push_chars(out, &cs);
}

/// Appends the characters of `cs` to `out`.
pub fn push_chars(out: &mut Vec<char>, cs: &Vec<char>)
    ensures
        final(out)@ == old(out)@ + cs@,
{
    let ghost start = out@;
    let mut i: usize = 0;
    while i < cs.len()
        invariant
            i <= cs.len(),
            out@ == start + cs@.take(i as int),
        decreases cs.len() - i,
    {
        out.push(cs[i]);
        assert(cs@.take(i as int + 1) == cs@.take(i as int).push(cs@[i as int]));
        i = i + 1;
    }
    assert(cs@.take(cs.len() as int) == cs@);
}

/// Whether two character sequences are equal.
pub fn chars_eq(a: &Vec<char>, b: &Vec<char>) -> (r: bool)
    ensures
        r == (a@ == b@),
{
    if a.len() != b.len() {
        return false;
    }
    let mut i: usize = 0;
    while i < a.len()
        invariant
            i <= a.len(),
            a.len() == b.len(),
            forall|j: int| 0 <= j < i ==> a@[j] == b@[j],
        decreases a.len() - i,
    {
        if a[i] != b[i] {
            return false;
        }
        i = i + 1;
    }
    assert(a@ =~= b@);
    true
}

/// Whether the characters `a` spell exactly the literal `lit`.
pub fn is_lit(a: &Vec<char>, lit: &str) -> (r: bool)
    ensures
        r == (a@ == lit@),
{
    let b = chars_of(lit);
    chars_eq(a, &b)
}

/// `s` begins with `p`.
pub open spec fn has_prefix(s: Seq<char>, p: Seq<char>) -> bool {
    p.len() <= s.len() && s.take(p.len() as int) == p
}

/// `s` ends with `p`.
pub open spec fn has_suffix(s: Seq<char>, p: Seq<char>) -> bool {
    p.len() <= s.len() && s.skip(s.len() - p.len()) == p
}

/// `p` occurs in `s` starting at index `i`.
pub open spec fn occurs_at(s: Seq<char>, p: Seq<char>, i: int) -> bool {
    0 <= i && i + p.len() <= s.len() && s.subrange(i, i + p.len()) == p
}

/// `p` occurs somewhere in `s`.
pub open spec fn contains_seq(s: Seq<char>, p: Seq<char>) -> bool {
    exists|i: int| occurs_at(s, p, i)
}

/// The index of the first occurrence of `p` in `s`.
pub open spec fn first_occurrence(s: Seq<char>, p: Seq<char>) -> Option<int> {
    if contains_seq(s, p) {
        Some(choose|i: int| occurs_at(s, p, i) && forall|j: int| 0 <= j < i ==> !occurs_at(s, p, j))
    } else {
        None
    }
}

/// Whether `p` occurs in `s` at index `i` (executable).
pub fn matches_at(s: &Vec<char>, p: &Vec<char>, i: usize) -> (r: bool)
    requires
        i <= s.len(),
    ensures
        r == occurs_at(s@, p@, i as int),
{
    if p.len() > s.len() - i {
        return false;
    }
    let mut k: usize = 0;
    while k < p.len()
        invariant
            k <= p.len(),
            i + p.len() <= s.len(),
            forall|j: int| 0 <= j < k ==> s@[i + j] == p@[j],
        decreases p.len() - k,
    {
        if s[i + k] != p[k] {
            assert(s@.subrange(i as int, i + p.len())[k as int] != p@[k as int]);
            return false;
        }
        k = k + 1;
    }
    assert(s@.subrange(i as int, i + p.len()) =~= p@);
    true
}

/// The index of the first occurrence of `p` in `s`, if any.
pub fn find(s: &Vec<char>, p: &Vec<char>) -> (r: Option<usize>)
    ensures
        match r {
            Some(i) => occurs_at(s@, p@, i as int) && forall|j: int| 0 <= j < i ==> !occurs_at(s@, p@, j),
            None => !contains_seq(s@, p@),
        },
{
    let mut i: usize = 0;
    while i < s.len()
        invariant
            i <= s.len(),
            forall|j: int| 0 <= j < i ==> !occurs_at(s@, p@, j),
        decreases s.len() - i,
    {
        if matches_at(s, p, i) {
            return Some(i);
        }
        i = i + 1;
    }
    if matches_at(s, p, i) {
        return Some(i);
    }
    assert forall|j: int| !occurs_at(s@, p@, j) by {
        if 0 <= j && j <= i {
        }
    }
    None
}

/// Proves that the first occurrence found by `find` is the one the spec names.
pub proof fn lemma_first_occurrence(s: Seq<char>, p: Seq<char>, i: int)
    requires
        occurs_at(s, p, i),
        forall|j: int| 0 <= j < i ==> !occurs_at(s, p, j),
    ensures
        first_occurrence(s, p) == Some(i),
{
    assert(contains_seq(s, p));
    let k = choose|k: int| occurs_at(s, p, k) && forall|j: int| 0 <= j < k ==> !occurs_at(s, p, j);
    assert(occurs_at(s, p, k) && forall|j: int| 0 <= j < k ==> !occurs_at(s, p, j));
    if k < i {
        assert(!occurs_at(s, p, k));
    }
    if i < k {
        assert(!occurs_at(s, p, i));
    }
}

/// The index of the last occurrence of `p` in `s`.
pub open spec fn last_occurrence(s: Seq<char>, p: Seq<char>) -> Option<int> {
    if contains_seq(s, p) {
        Some(choose|i: int| occurs_at(s, p, i) && forall|j: int| i < j ==> !occurs_at(s, p, j))
    } else {
        None
    }
}

/// Proves that an occurrence with none after it is the one the spec names.
pub proof fn lemma_last_occurrence(s: Seq<char>, p: Seq<char>, i: int)
    requires
        occurs_at(s, p, i),
        forall|j: int| i < j ==> !occurs_at(s, p, j),
    ensures
        last_occurrence(s, p) == Some(i),
{
    assert(contains_seq(s, p));
    let k = choose|k: int| occurs_at(s, p, k) && forall|j: int| k < j ==> !occurs_at(s, p, j);
    assert(occurs_at(s, p, k) && forall|j: int| k < j ==> !occurs_at(s, p, j));
    if k < i {
        assert(!occurs_at(s, p, i));
    }
    if i < k {
        assert(!occurs_at(s, p, k));
    }
}

/// The index of the last occurrence of `p` in `s`, if any.
pub fn rfind(s: &Vec<char>, p: &Vec<char>) -> (r: Option<usize>)
    ensures
        match r {
            Some(i) => last_occurrence(s@, p@) == Some(i as int) && occurs_at(s@, p@, i as int),
            None => last_occurrence(s@, p@) is None && !contains_seq(s@, p@),
        },
{
    let mut i: usize = s.len();
    loop
        invariant
            i <= s.len(),
            forall|j: int| i < j ==> !occurs_at(s@, p@, j),
        decreases i,
    {
        if matches_at(s, p, i) {
            proof {
                lemma_last_occurrence(s@, p@, i as int);
            }
            return Some(i);
        }
        if i == 0 {
            assert forall|j: int| !occurs_at(s@, p@, j) by {
                if j >= 0 {
                }
            }
            return None;
        }
        i = i - 1;
    }
}

/// The parts before and after the last occurrence of `sep`.
pub open spec fn rsplit_once_spec(s: Seq<char>, sep: Seq<char>) -> Option<(Seq<char>, Seq<char>)> {
    match last_occurrence(s, sep) {
        Some(i) => Some((s.take(i), s.skip(i + sep.len()))),
        None => None,
    }
}

/// Splits `s` at the last occurrence of `sep`.
pub fn rsplit_once(s: &Vec<char>, sep: &Vec<char>) -> (r: Option<(Vec<char>, Vec<char>)>)
    ensures
        match (r, rsplit_once_spec(s@, sep@)) {
            (Some((a, b)), Some((sa, sb))) => a@ == sa && b@ == sb,
            (None, None) => true,
            _ => false,
        },
{
    match rfind(s, sep) {
        Some(i) => {
            let n = sep.len();
            let total = s.len();
            assert(i + n <= total);
            let a = slice(s, 0, i);
            let b = slice(s, i + n, total);
            assert(a@ == s@.take(i as int));
            assert(b@ == s@.skip(i + sep@.len()));
            Some((a, b))
        },
        None => None,
    }
}

/// Whether `s` begins with `p` (executable).
pub fn starts_with(s: &Vec<char>, p: &Vec<char>) -> (r: bool)
    ensures
        r == has_prefix(s@, p@),
{
    let r = matches_at(s, p, 0);
    if r {
        assert(s@.subrange(0, p@.len() as int) == s@.take(p@.len() as int));
    } else if p.len() <= s.len() {
        assert(s@.subrange(0, p@.len() as int) == s@.take(p@.len() as int));
    }
    r
}

/// Whether `s` contains `p` (executable).
pub fn contains(s: &Vec<char>, p: &Vec<char>) -> (r: bool)
    ensures
        r == contains_seq(s@, p@),
{
    match find(s, p) {
        Some(_) => true,
        None => false,
    }
}

/// The characters of `s` from `start` up to `end`.
pub fn slice(s: &Vec<char>, start: usize, end: usize) -> (out: Vec<char>)
    requires
        start <= end <= s.len(),
    ensures
        out@ == s@.subrange(start as int, end as int),
{
    let mut out: Vec<char> = Vec::new();
    let mut i: usize = start;
    while i < end
        invariant
            start <= i <= end,
            end <= s.len(),
            out@ == s@.subrange(start as int, i as int),
        decreases end - i,
    {
        out.push(s[i]);
        assert(s@.subrange(start as int, i + 1) == s@.subrange(start as int, i as int).push(s@[i as int]));
        i = i + 1;
    }
    out
}

/// The parts before and after the first occurrence of `sep`.
pub open spec fn split_once_spec(s: Seq<char>, sep: Seq<char>) -> Option<(Seq<char>, Seq<char>)> {
    match first_occurrence(s, sep) {
        Some(i) => Some((s.take(i), s.skip(i + sep.len()))),
        None => None,
    }
}

/// Splits `s` at the first occurrence of `sep`.
pub fn split_once(s: &Vec<char>, sep: &Vec<char>) -> (r: Option<(Vec<char>, Vec<char>)>)
    ensures
        match (r, split_once_spec(s@, sep@)) {
            (Some((a, b)), Some((sa, sb))) => a@ == sa && b@ == sb,
            (None, None) => true,
            _ => false,
        },
{
    match find(s, sep) {
        Some(i) => {
            proof {
                lemma_first_occurrence(s@, sep@, i as int);
            }
            assert(occurs_at(s@, sep@, i as int));
            assert(i + sep@.len() <= s@.len());
            let a = slice(s, 0, i);
            let n = sep.len();
            let total = s.len();
            assert(i + n <= total);
            let b = slice(s, i + n, total);
            assert(a@ == s@.take(i as int));
            assert(b@ == s@.skip(i + sep@.len()));
            Some((a, b))
        },
        None => None,
    }
}


/// The characters `a`, then `b`, then `c`.
pub fn join3(a: &str, b: &Vec<char>, c: &str) -> (out: Vec<char>)
    ensures
        out@ == a@ + b@ + c@,
{
    let mut out = Vec::new();
    push_str(&mut out, a);
    push_chars(&mut out, b);
    push_str(&mut out, c);
    assert(out@ == Seq::<char>::empty() + a@ + b@ + c@);
    assert(Seq::<char>::empty() + a@ == a@);
    out
}

/// The string `a`, then `b`, then `c`.
pub fn text3(a: &str, b: &Vec<char>, c: &str) -> (out: String)
    ensures
        out@ == a@ + b@ + c@,
{
    let v = join3(a, b, c);
    string_of(&v)
}

/// Unicode white space, as `char::is_whitespace` decides it.
pub open spec fn is_ws(c: char) -> bool {
    ||| ('\u{9}' <= c && c <= '\u{d}')
    ||| c == ' '
    ||| c == '\u{85}'
    ||| c == '\u{a0}'
    ||| c == '\u{1680}'
    ||| ('\u{2000}' <= c && c <= '\u{200a}')
    ||| c == '\u{2028}'
    ||| c == '\u{2029}'
    ||| c == '\u{202f}'
    ||| c == '\u{205f}'
    ||| c == '\u{3000}'
}

/// Whether `c` is white space (executable).
pub fn is_whitespace(c: char) -> (r: bool)
    ensures
        r == is_ws(c),
{
    ('\u{9}' <= c && c <= '\u{d}') || c == ' ' || c == '\u{85}' || c == '\u{a0}'
        || c == '\u{1680}' || ('\u{2000}' <= c && c <= '\u{200a}') || c == '\u{2028}'
        || c == '\u{2029}' || c == '\u{202f}' || c == '\u{205f}' || c == '\u{3000}'
}

/// `s` without its leading white space.
pub open spec fn trim_start_spec(s: Seq<char>) -> Seq<char>
    decreases s.len(),
{
    if s.len() > 0 && is_ws(s[0]) {
        trim_start_spec(s.skip(1))
    } else {
        s
    }
}

/// `s` without its trailing white space.
pub open spec fn trim_end_spec(s: Seq<char>) -> Seq<char>
    decreases s.len(),
{
    if s.len() > 0 && is_ws(s.last()) {
        trim_end_spec(s.drop_last())
    } else {
        s
    }
}

/// `s` without leading and trailing white space, as `str::trim` gives it.
pub open spec fn trim_spec(s: Seq<char>) -> Seq<char> {
    trim_end_spec(trim_start_spec(s))
}

/// Index of the first character of `s` at or after `i` that is not white space.
pub open spec fn skip_ws_from(s: Seq<char>, i: int) -> int
    decreases s.len() - i,
{
    if 0 <= i < s.len() && is_ws(s[i]) {
        skip_ws_from(s, i + 1)
    } else {
        i
    }
}

proof fn lemma_trim_start_skip(s: Seq<char>, i: int)
    requires
        0 <= i <= s.len(),
    ensures
        trim_start_spec(s.skip(i)) == s.skip(skip_ws_from(s, i)),
        i <= skip_ws_from(s, i) <= s.len(),
    decreases s.len() - i,
{
    if i < s.len() && is_ws(s[i]) {
        lemma_trim_start_skip(s, i + 1);
        assert(s.skip(i).skip(1) == s.skip(i + 1));
    }
}

/// Index just past the last character of `s.take(j)` that is not white space.
pub open spec fn trim_end_at(s: Seq<char>, j: int) -> int
    decreases j,
{
    if 0 < j <= s.len() && is_ws(s[j - 1]) {
        trim_end_at(s, j - 1)
    } else {
        j
    }
}

proof fn lemma_trim_end_take(s: Seq<char>, j: int)
    requires
        0 <= j <= s.len(),
    ensures
        trim_end_spec(s.take(j)) == s.take(trim_end_at(s, j)),
        0 <= trim_end_at(s, j) <= j,
    decreases j,
{
    if 0 < j && is_ws(s[j - 1]) {
        lemma_trim_end_take(s, j - 1);
        assert(s.take(j).drop_last() == s.take(j - 1));
    }
}

/// `s` without leading white space (executable).
pub fn trim_start(s: &Vec<char>) -> (out: Vec<char>)
    ensures
        out@ == trim_start_spec(s@),
{
    let mut i: usize = 0;
    while i < s.len() && is_whitespace(s[i])
        invariant
            i <= s.len(),
            skip_ws_from(s@, 0) == skip_ws_from(s@, i as int),
        decreases s.len() - i,
    {
        i = i + 1;
    }
    proof {
        lemma_trim_start_skip(s@, 0);
        assert(s@.skip(0) == s@);
    }
    slice(s, i, s.len())
}

/// `s` without trailing white space (executable).
pub fn trim_end(s: &Vec<char>) -> (out: Vec<char>)
    ensures
        out@ == trim_end_spec(s@),
{
    let mut j: usize = s.len();
    while j > 0 && is_whitespace(s[j - 1])
        invariant
            j <= s.len(),
            trim_end_at(s@, s@.len() as int) == trim_end_at(s@, j as int),
        decreases j,
    {
        j = j - 1;
    }
    proof {
        lemma_trim_end_take(s@, s@.len() as int);
        assert(s@.take(s@.len() as int) == s@);
    }
    slice(s, 0, j)
}

/// `s` without leading and trailing white space (executable).
pub fn trim(s: &Vec<char>) -> (out: Vec<char>)
    ensures
        out@ == trim_spec(s@),
{
    let a = trim_start(s);
    trim_end(&a)
}

/// Lowercase mapping of a whole string, as `str::to_lowercase` gives it.
pub uninterp spec fn lowercase(s: Seq<char>) -> Seq<char>;

/// The ASCII lowercase of a character: `A` to `Z` become `a` to `z`,
/// every other character stays.
pub open spec fn ascii_lower(c: char) -> char {
    if 'A' <= c && c <= 'Z' { ((c as u32) + 32) as char } else { c }
}

/// Every character of `s` is ASCII.
pub open spec fn is_ascii_text(s: Seq<char>) -> bool {
    forall|i: int| 0 <= i < s.len() ==> (s[i] as u32) < 128
}

/// `str::to_lowercase` from std: the Unicode lowercase form of `s`, named
/// by `lowercase`. The Unicode lowercase mapping of an ASCII character is
/// its ASCII lowercase, one character for one; for other characters the
/// mapping may change the length and is not stated.
#[verifier::external_body]
pub(crate) fn to_lowercase(s: &Vec<char>) -> (out: Vec<char>)
    ensures
        out@ == lowercase(s@),
        is_ascii_text(s@) ==> out@ == s@.map_values(|c: char| ascii_lower(c)),
{
    let text: String = s.iter().collect();
    text.to_lowercase().chars().collect()
}

} // verus!
