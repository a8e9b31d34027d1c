//! Character-sequence utilities used throughout the bot: prefix and
//! substring tests, search, replacement, trimming, case mapping and
//! decimal / hexadecimal rendering and parsing of integers.
use vstd::prelude::*;

verus! {

// ---------------------------------------------------------------------------
// Specifications
// ---------------------------------------------------------------------------

/// `p` occurs in `s` starting at index `i`.
pub open spec fn occurs_at(s: Seq<char>, p: Seq<char>, i: int) -> bool {
    0 <= i && i + p.len() <= s.len() && s.subrange(i, i + p.len()) == p
}

pub open spec fn seq_starts_with(s: Seq<char>, p: Seq<char>) -> bool {
    occurs_at(s, p, 0)
}

pub open spec fn seq_ends_with(s: Seq<char>, p: Seq<char>) -> bool {
    occurs_at(s, p, s.len() - p.len())
}

pub open spec fn seq_contains(s: Seq<char>, p: Seq<char>) -> bool {
    exists|i: int| occurs_at(s, p, i)
}

/// Index of the first occurrence of `p` in `s`, if any.
pub open spec fn first_occurrence(s: Seq<char>, p: Seq<char>, i: int) -> bool {
    occurs_at(s, p, i) && forall|j: int| 0 <= j < i ==> !occurs_at(s, p, j)
}

/// `r` before every character of `s` and once more at its end: what
/// `str::replace` does with an empty pattern.
pub open spec fn interleave(s: Seq<char>, r: Seq<char>) -> Seq<char>
    decreases s.len(),
{
    if s.len() == 0 {
        r
    } else {
        r + seq![s[0]] + interleave(s.skip(1), r)
    }
}

/// Left-to-right, non-overlapping replacement of every occurrence of `p`
/// by `r` (the behaviour of `str::replace`); an empty pattern occurs
/// before every character and at the end.
pub open spec fn replace_all(s: Seq<char>, p: Seq<char>, r: Seq<char>) -> Seq<char>
    decreases s.len(),
{
    if p.len() == 0 {
        interleave(s, r)
    } else if s.len() < p.len() {
        s
    } else if s.take(p.len() as int) == p {
        r + replace_all(s.skip(p.len() as int), p, r)
    } else {
        seq![s[0]] + replace_all(s.skip(1), p, r)
    }
}

/// The characters with the Unicode `White_Space` property, which
/// `char::is_whitespace` tests: U+0009 to U+000D, U+0020, U+0085, U+00A0,
/// U+1680, U+2000 to U+200A, U+2028, U+2029, U+202F, U+205F and U+3000.
pub open spec fn unicode_white_space(c: char) -> bool {
    let n = c as u32;
    ||| 0x09 <= n <= 0x0D
    ||| n == 0x20
    ||| n == 0x85
    ||| n == 0xA0
    ||| n == 0x1680
    ||| 0x2000 <= n <= 0x200A
    ||| n == 0x2028
    ||| n == 0x2029
    ||| n == 0x202F
    ||| n == 0x205F
    ||| n == 0x3000
}

/// The `DefaultHasher` hash of a text (`DefaultHasher::new()`, the text
/// hashed into it, then `finish`).
pub uninterp spec fn default_hash_of(s: Seq<char>) -> u64;

/// The lower-case mapping of a string (`str::to_lowercase`).
pub uninterp spec fn unicode_lowercase(s: Seq<char>) -> Seq<char>;

/// The upper-case mapping of a string (`str::to_uppercase`).
pub uninterp spec fn unicode_uppercase(s: Seq<char>) -> Seq<char>;

pub open spec fn trim_start_spec(s: Seq<char>) -> Seq<char>
    decreases s.len(),
{
    if s.len() > 0 && unicode_white_space(s[0]) {
        trim_start_spec(s.drop_first())
    } else {
        s
    }
}

pub open spec fn trim_end_spec(s: Seq<char>) -> Seq<char>
    decreases s.len(),
{
    if s.len() > 0 && unicode_white_space(s.last()) {
        trim_end_spec(s.drop_last())
    } else {
        s
    }
}

/// Leading and trailing white space removed (`str::trim`).
pub open spec fn trim_spec(s: Seq<char>) -> Seq<char> {
    trim_end_spec(trim_start_spec(s))
}

/// Trailing occurrences of `c` removed (`str::trim_end_matches` with a char).
pub open spec fn trim_end_char_spec(s: Seq<char>, c: char) -> Seq<char>
    decreases s.len(),
{
    if s.len() > 0 && s.last() == c {
        trim_end_char_spec(s.drop_last(), c)
    } else {
        s
    }
}

pub open spec fn is_ascii_digit(c: char) -> bool {
    '0' <= c && c <= '9'
}

/// The ASCII digits of `s`, in order.
pub open spec fn digits_only_spec(s: Seq<char>) -> Seq<char> {
    s.filter(|c: char| is_ascii_digit(c))
}

pub open spec fn digit_char(d: nat) -> char
    recommends
        d < 16,
{
    if d < 10 {
        (48 + d) as char
    } else {
        (87 + d) as char
    }
}

/// Digits of `n` in base `b` (2 to 16), most significant first, no leading zeros.
pub open spec fn digits_in_base(n: nat, b: nat) -> Seq<char>
    recommends
        2 <= b <= 16,
    decreases n,
{
    if b < 2 || n < b {
        seq![digit_char(n)]
    } else {
        proof {
            lemma_div_decreases(n, b);
        }
        digits_in_base(n / b, b).push(digit_char(n % b))
    }
}

pub proof fn lemma_div_decreases(n: nat, b: nat)
    requires
        2 <= b <= n,
    ensures
        n / b < n,
{
    assert(n / b < n) by (nonlinear_arith)
        requires
            2 <= b <= n,
    ;
}

pub open spec fn decimal(n: nat) -> Seq<char> {
    digits_in_base(n, 10)
}

pub open spec fn lower_hex(n: nat) -> Seq<char> {
    digits_in_base(n, 16)
}

/// Decimal rendering of a signed integer (`Display` for integers).
pub open spec fn signed_decimal(n: int) -> Seq<char> {
    if n < 0 {
        seq!['-'] + decimal((-n) as nat)
    } else {
        decimal(n as nat)
    }
}

pub open spec fn all_digits(s: Seq<char>) -> bool {
    forall|i: int| 0 <= i < s.len() ==> is_ascii_digit(#[trigger] s[i])
}

/// Value of a string of decimal digits.
pub open spec fn digits_value(s: Seq<char>) -> nat
    decreases s.len(),
{
    if s.len() == 0 {
        0
    } else {
        digits_value(s.drop_last()) * 10 + ((s.last() as nat) - 48) as nat
    }
}

/// What `str::parse::<usize>` accepts: an optional `+`, then one or more
/// decimal digits, whose value fits in a `usize`.
pub open spec fn parse_usize_spec(s: Seq<char>) -> Option<usize> {
    let body = if s.len() > 0 && s[0] == '+' {
        s.drop_first()
    } else {
        s
    };
    if body.len() > 0 && all_digits(body) && digits_value(body) <= usize::MAX {
        Some(digits_value(body) as usize)
    } else {
        None
    }
}

// ---------------------------------------------------------------------------
// Trusted wrappers around std
// ---------------------------------------------------------------------------

/// `String::push`: appends the character at the end of the string.
#[verifier::external_body]
fn push_char(s: &mut String, c: char)
    ensures
        final(s)@ == old(s)@.push(c),
{
    s.push(c);
}

/// Whether the character is white space (`char::is_whitespace`).
pub fn is_whitespace(c: char) -> (b: bool)
    ensures
        b == unicode_white_space(c),
{
    let n = c as u32;
    (0x09 <= n && n <= 0x0D) || n == 0x20 || n == 0x85 || n == 0xA0 || n == 0x1680 || (0x2000 <= n && n
        <= 0x200A) || n == 0x2028 || n == 0x2029 || n == 0x202F || n == 0x205F || n == 0x3000
}

/// `BuildHasher::hash_one` with `DefaultHasher` (what hashing the text
/// into `DefaultHasher::new()` gives).  `DefaultHasher::new()` has fixed
/// keys and hashing a `str` does not depend on the machine, so the hash is
/// a function of the text alone; its value is named, not restated.
#[verifier::external_body]
pub(crate) fn default_hash(s: &str) -> (h: u64)
    ensures
        h == default_hash_of(s@),
{
    std::hash::BuildHasher::hash_one(
        &std::hash::BuildHasherDefault::<std::collections::hash_map::DefaultHasher>::default(),
        s,
    )
}

/// `str::to_lowercase`: the Unicode lower-case mapping, a function of the
/// characters alone; the result is named, not restated.
#[verifier::external_body]
pub(crate) fn to_lowercase(s: &str) -> (r: String)
    ensures
        r@ == unicode_lowercase(s@),
{
    s.to_lowercase()
}

/// `str::to_uppercase`: the Unicode upper-case mapping, a function of the
/// characters alone; the result is named, not restated.
#[verifier::external_body]
pub(crate) fn to_uppercase(s: &str) -> (r: String)
    ensures
        r@ == unicode_uppercase(s@),
{
    s.to_uppercase()
}

// ---------------------------------------------------------------------------
// Conversions
// ---------------------------------------------------------------------------

/// The characters of `s`, in order.
pub fn chars_of(s: &str) -> (v: Vec<char>)
    ensures
        v@ == s@,
{
    let mut v: Vec<char> = Vec::new();
    for c in it: s.chars()
        invariant
            v@ == it.seq().take(it.index() as int),
    {
        v.push(c);
    }
    v
}

/// A `String` holding the characters of `v`.
pub fn string_of(v: &Vec<char>) -> (s: String)
    ensures
        s@ == v@,
{
    let mut s = String::new();
    let mut i: usize = 0;
    while i < v.len()
        invariant
            i <= v.len(),
            s@ == v@.take(i as int),
        decreases v.len() - i,
    {
        push_char(&mut s, v[i]);
        i = i + 1;
    }
    s
}

/// The concatenation of two strings.
pub fn concat(a: &str, b: &str) -> (s: String)
    ensures
        s@ == a@ + b@,
{
    let mut s = a.to_owned();
    s.append(b);
    s
}

// ---------------------------------------------------------------------------
// Searching
// ---------------------------------------------------------------------------

/// Whether `p` occurs in `v` at index `i`.
pub fn matches_at(v: &Vec<char>, p: &Vec<char>, i: usize) -> (b: bool)
    ensures
        b == occurs_at(v@, p@, i as int),
{
    if p.len() > v.len() || i > v.len() - p.len() {
        return false;
    }
    let mut k: usize = 0;
    while k < p.len()
        invariant
            k <= p.len(),
            i + p.len() <= v.len(),
            forall|j: int| 0 <= j < k ==> v@[i + j] == p@[j],
        decreases p.len() - k,
    {
        if v[i + k] != p[k] {
            assert(v@.subrange(i as int, i + p.len())[k as int] != p@[k as int]);
            return false;
        }
        k = k + 1;
    }
    assert(v@.subrange(i as int, i + p.len()) =~= p@);
    true
}

/// Index of the first occurrence of `p` in `v`.
pub fn find_chars(v: &Vec<char>, p: &Vec<char>) -> (r: Option<usize>)
    ensures
        r matches Some(i) ==> first_occurrence(v@, p@, i as int),
        r is None ==> !seq_contains(v@, p@),
{
    if p.len() > v.len() {
        assert forall|j: int| !occurs_at(v@, p@, j) by {}
        return None;
    }
    let last = v.len() - p.len();
    let mut i: usize = 0;
    while i < last
        invariant
            last == v.len() - p.len(),
            p.len() <= v.len(),
            i <= last,
            forall|j: int| 0 <= j < i ==> !occurs_at(v@, p@, j),
        decreases last - i,
    {
        if matches_at(v, p, i) {
            return Some(i);
        }
        i = i + 1;
    }
    if matches_at(v, p, last) {
        return Some(last);
    }
    assert forall|j: int| !occurs_at(v@, p@, j) by {
        if 0 <= j < last {
        }
    }
    None
}

/// Index (in characters) of the first occurrence of `p` in `s`
/// (`str::find`, counted in characters).
pub fn find(s: &str, p: &str) -> (r: Option<usize>)
    ensures
        r matches Some(i) ==> first_occurrence(s@, p@, i as int),
        r is None ==> !seq_contains(s@, p@),
{
    let v = chars_of(s);
    let q = chars_of(p);
    find_chars(&v, &q)
}

/// Whether `p` occurs in `s` (`str::contains`).
pub fn contains(s: &str, p: &str) -> (b: bool)
    ensures
        b == seq_contains(s@, p@),
{
    find(s, p).is_some()
}

/// Whether `s` begins with `p` (`str::starts_with`).
pub fn starts_with(s: &str, p: &str) -> (b: bool)
    ensures
        b == seq_starts_with(s@, p@),
{
    let v = chars_of(s);
    let q = chars_of(p);
    matches_at(&v, &q, 0)
}

/// Whether `s` ends with `p` (`str::ends_with`).
pub fn ends_with(s: &str, p: &str) -> (b: bool)
    ensures
        b == seq_ends_with(s@, p@),
{
    let v = chars_of(s);
    let q = chars_of(p);
    if q.len() > v.len() {
        false
    } else {
        matches_at(&v, &q, v.len() - q.len())
    }
}

/// Whether the two strings are equal.
pub fn str_eq(a: &str, b: &str) -> (r: bool)
    ensures
        r == (a@ == b@),
{
    let v = chars_of(a);
    let w = chars_of(b);
    if v.len() != w.len() {
        return false;
    }
    let r = matches_at(&v, &w, 0);
    assert(v@ =~= v@.subrange(0, w@.len() as int));
    r
}

// ---------------------------------------------------------------------------
// Replacement
// ---------------------------------------------------------------------------

proof fn lemma_replace_step_match(s: Seq<char>, p: Seq<char>, r: Seq<char>, i: int)
    requires
        p.len() > 0,
        occurs_at(s, p, i),
    ensures
        replace_all(s.skip(i), p, r) == r + replace_all(s.skip(i + p.len()), p, r),
{
    let t = s.skip(i);
    assert(t.take(p.len() as int) =~= s.subrange(i, i + p.len()));
    assert(t.skip(p.len() as int) =~= s.skip(i + p.len()));
}

proof fn lemma_replace_step_skip(s: Seq<char>, p: Seq<char>, r: Seq<char>, i: int)
    requires
        p.len() > 0,
        0 <= i,
        i + p.len() <= s.len(),
        !occurs_at(s, p, i),
    ensures
        replace_all(s.skip(i), p, r) == seq![s[i]] + replace_all(s.skip(i + 1), p, r),
{
    let t = s.skip(i);
    assert(t.take(p.len() as int) =~= s.subrange(i, i + p.len()));
    assert(t.skip(1) =~= s.skip(i + 1));
}

proof fn lemma_replace_short(s: Seq<char>, p: Seq<char>, r: Seq<char>, i: int)
    requires
        0 <= i <= s.len(),
        s.len() - i < p.len(),
    ensures
        replace_all(s.skip(i), p, r) == s.skip(i),
{
}

fn append_chars(out: &mut Vec<char>, w: &Vec<char>)
    ensures
        final(out)@ == old(out)@ + w@,
{
    let mut k: usize = 0;
    while k < w.len()
        invariant
            k <= w.len(),
            out@ == old(out)@ + w@.take(k as int),
        decreases w.len() - k,
    {
        out.push(w[k]);
        k = k + 1;
        assert(w@.take(k as int) =~= w@.take(k - 1).push(w@[k - 1]));
    }
    assert(w@.take(w.len() as int) =~= w@);
}

/// `r` interleaved with the characters of `s`.
fn replace_empty(s: &str, r: &str) -> (out: String)
    ensures
        out@ == interleave(s@, r@),
{
    let v = chars_of(s);
    let w = chars_of(r);
    let mut out: Vec<char> = Vec::new();
    let mut i: usize = 0;
    assert(v@.skip(0) =~= v@);
    while i < v.len()
        invariant
            v@ == s@,
            w@ == r@,
            i <= v.len(),
            interleave(v@, w@) == out@ + interleave(v@.skip(i as int), w@),
        decreases v.len() - i,
    {
        let ghost before = out@;
        append_chars(&mut out, &w);
        out.push(v[i]);
        assert(v@.skip(i as int).skip(1) =~= v@.skip(i + 1));
        assert(v@.skip(i as int)[0] == v@[i as int]);
        assert(out@ =~= before + w@ + seq![v@[i as int]]);
        assert(before + (w@ + seq![v@[i as int]] + interleave(v@.skip(i + 1), w@)) =~= out@ + interleave(
            v@.skip(i + 1),
            w@,
        ));
        i = i + 1;
    }
    append_chars(&mut out, &w);
    assert(interleave(v@.skip(v.len() as int), w@) == w@) by {
        assert(v@.skip(v.len() as int) =~= Seq::<char>::empty());
    }
    string_of(&out)
}

/// Every non-overlapping occurrence of `p`, scanning left to right,
/// replaced by `r` (`str::replace`).
pub fn replace(s: &str, p: &str, r: &str) -> (out: String)
    ensures
        out@ == replace_all(s@, p@, r@),
{
    if p.is_empty() {
        return replace_empty(s, r);
    }
    let v = chars_of(s);
    let q = chars_of(p);
    let w = chars_of(r);
    let mut out: Vec<char> = Vec::new();
    let mut i: usize = 0;
    assert(v@.skip(0) =~= v@);
    while i < v.len()
        invariant
            q@.len() > 0,
            v@ == s@,
            q@ == p@,
            w@ == r@,
            i <= v.len(),
            replace_all(v@, q@, w@) == out@ + replace_all(v@.skip(i as int), q@, w@),
        decreases v.len() - i,
    {
        if q.len() > v.len() - i {
            proof {
                lemma_replace_short(v@, q@, w@, i as int);
            }
            let ghost before = out@;
            let mut k = i;
            while k < v.len()
                invariant
                    i <= k <= v.len(),
                    out@ == before + v@.subrange(i as int, k as int),
                decreases v.len() - k,
            {
                out.push(v[k]);
                k = k + 1;
                assert(v@.subrange(i as int, k as int) =~= v@.subrange(i as int, k - 1).push(v@[k - 1]));
            }
            assert(v@.subrange(i as int, v.len() as int) =~= v@.skip(i as int));
            assert(v@.skip(v.len() as int) =~= Seq::<char>::empty());
            i = v.len();
        } else if matches_at(&v, &q, i) {
            proof {
                lemma_replace_step_match(v@, q@, w@, i as int);
            }
            let mut k: usize = 0;
            let ghost before = out@;
            while k < w.len()
                invariant
                    k <= w.len(),
                    out@ == before + w@.take(k as int),
                decreases w.len() - k,
            {
                out.push(w[k]);
                k = k + 1;
            }
            assert(w@.take(w.len() as int) =~= w@);
            i = i + q.len();
        } else {
            proof {
                lemma_replace_step_skip(v@, q@, w@, i as int);
            }
            out.push(v[i]);
            i = i + 1;
        }
    }
    string_of(&out)
}

// ---------------------------------------------------------------------------
// Trimming and filtering
// ---------------------------------------------------------------------------

/// The characters of `v` from index `a` (inclusive) to `b` (exclusive).
pub fn slice_chars(v: &Vec<char>, a: usize, b: usize) -> (r: Vec<char>)
    requires
        a <= b <= v.len(),
    ensures
        r@ == v@.subrange(a as int, b as int),
{
    let mut r: Vec<char> = Vec::new();
    let mut k = a;
    while k < b
        invariant
            a <= k <= b <= v.len(),
            r@ == v@.subrange(a as int, k as int),
        decreases b - k,
    {
        r.push(v[k]);
        k = k + 1;
        assert(v@.subrange(a as int, k as int) =~= v@.subrange(a as int, k - 1).push(v@[k - 1]));
    }
    r
}

/// Leading and trailing white space removed (`str::trim`).
pub fn trim(s: &str) -> (r: String)
    ensures
        r@ == trim_spec(s@),
{
    let v = chars_of(s);
    let mut a: usize = 0;
    assert(v@.skip(0) =~= v@);
    while a < v.len() && is_whitespace(v[a])
        invariant
            a <= v.len(),
            trim_start_spec(v@) == trim_start_spec(v@.skip(a as int)),
        decreases v.len() - a,
    {
        assert(v@.skip(a as int).drop_first() =~= v@.skip(a + 1));
        a = a + 1;
    }
    assert(trim_start_spec(v@.skip(a as int)) == v@.skip(a as int));
    assert(v@.skip(a as int) =~= v@.subrange(a as int, v.len() as int));
    let mut b: usize = v.len();
    while b > a && is_whitespace(v[b - 1])
        invariant
            a <= b <= v.len(),
            trim_spec(v@) == trim_end_spec(v@.subrange(a as int, b as int)),
        decreases b,
    {
        assert(v@.subrange(a as int, b as int).drop_last() =~= v@.subrange(a as int, b - 1));
        b = b - 1;
    }
    let r = slice_chars(&v, a, b);
    string_of(&r)
}

/// Trailing occurrences of `c` removed (`str::trim_end_matches(c)`).
pub fn trim_end_char(s: &str, c: char) -> (r: String)
    ensures
        r@ == trim_end_char_spec(s@, c),
{
    let v = chars_of(s);
    let mut b: usize = v.len();
    assert(v@.subrange(0, v.len() as int) =~= v@);
    while b > 0 && v[b - 1] == c
        invariant
            b <= v.len(),
            trim_end_char_spec(v@, c) == trim_end_char_spec(v@.subrange(0, b as int), c),
        decreases b,
    {
        assert(v@.subrange(0, b as int).drop_last() =~= v@.subrange(0, b - 1));
        b = b - 1;
    }
    let r = slice_chars(&v, 0, b);
    string_of(&r)
}

/// The ASCII digits of `s`, in order.
pub fn digits_only(s: &str) -> (r: String)
    ensures
        r@ == digits_only_spec(s@),
{
    let v = chars_of(s);
    let mut out: Vec<char> = Vec::new();
    let mut i: usize = 0;
    assert(digits_only_spec(v@.take(0)) =~= Seq::<char>::empty());
    while i < v.len()
        invariant
            i <= v.len(),
            out@ == digits_only_spec(v@.take(i as int)),
        decreases v.len() - i,
    {
        assert(v@.take(i + 1).drop_last() =~= v@.take(i as int));
        assert(v@.take(i + 1).last() == v@[i as int]);
        proof {
            reveal_with_fuel(Seq::<_>::filter, 1);
        }
        if '0' <= v[i] && v[i] <= '9' {
            assert(digits_only_spec(v@.take(i + 1)) == digits_only_spec(v@.take(i as int)).push(v@[i as int]));
            out.push(v[i]);
        } else {
            assert(digits_only_spec(v@.take(i + 1)) == digits_only_spec(v@.take(i as int)));
        }
        i = i + 1;
    }
    assert(v@.take(v.len() as int) =~= v@);
    string_of(&out)
}

// ---------------------------------------------------------------------------
// Integer rendering and parsing
// ---------------------------------------------------------------------------

fn digit_of(d: u128) -> (c: char)
    requires
        d < 16,
    ensures
        c == digit_char(d as nat),
{
    if d < 10 {
        ((48 + d) as u8) as char
    } else {
        ((87 + d) as u8) as char
    }
}

fn digits_vec(n: u128, b: u128) -> (v: Vec<char>)
    requires
        2 <= b <= 16,
    ensures
        v@ == digits_in_base(n as nat, b as nat),
    decreases n,
{
    if n < b {
        let mut v = Vec::new();
        v.push(digit_of(n));
        v
    } else {
        proof {
            lemma_div_decreases(n as nat, b as nat);
        }
        let mut v = digits_vec(n / b, b);
        v.push(digit_of(n % b));
        v
    }
}

/// Decimal rendering of an unsigned integer (`usize::to_string`).
pub fn usize_to_decimal(n: usize) -> (s: String)
    ensures
        s@ == decimal(n as nat),
{
    let v = digits_vec(n as u128, 10);
    string_of(&v)
}

/// Decimal rendering of a `u64` (`u64::to_string`).
pub fn u64_to_decimal(n: u64) -> (s: String)
    ensures
        s@ == decimal(n as nat),
{
    let v = digits_vec(n as u128, 10);
    string_of(&v)
}

/// Decimal rendering of a signed integer (`i64::to_string`).
pub fn i64_to_decimal(n: i64) -> (s: String)
    ensures
        s@ == signed_decimal(n as int),
{
    if n < 0 {
        let m: u128 = (-(n as i128)) as u128;
        let v = digits_vec(m, 10);
        let mut out: Vec<char> = Vec::new();
        out.push('-');
        let mut rest = v;
        out.append(&mut rest);
        string_of(&out)
    } else {
        let v = digits_vec(n as u128, 10);
        string_of(&v)
    }
}

/// Lower-case hexadecimal rendering of the two's-complement bits of a
/// signed integer (`format!("{:x}", n)` for an `i64`).
pub fn i64_to_lower_hex(n: i64) -> (s: String)
    ensures
        s@ == lower_hex((n as u64) as nat),
{
    let v = digits_vec((n as u64) as u128, 16);
    string_of(&v)
}

proof fn lemma_digits_value_prefix(s: Seq<char>, j: int)
    requires
        all_digits(s),
        0 <= j <= s.len(),
    ensures
        digits_value(s.take(j)) <= digits_value(s),
    decreases s.len(),
{
    if j < s.len() {
        let t = s.drop_last();
        assert(t.take(j) =~= s.take(j));
        assert(all_digits(t));
        lemma_digits_value_prefix(t, j);
    } else {
        assert(s.take(j) =~= s);
    }
}

/// Parses a decimal `usize` (`str::parse::<usize>`): an optional `+`, then
/// one or more digits whose value fits; `None` otherwise.
pub fn parse_usize(s: &str) -> (r: Option<usize>)
    ensures
        r == parse_usize_spec(s@),
{
    let v = chars_of(s);
    let start: usize = if v.len() > 0 && v[0] == '+' { 1 } else { 0 };
    let ghost body = if s@.len() > 0 && s@[0] == '+' { s@.drop_first() } else { s@ };
    assert(body =~= v@.skip(start as int));
    if start >= v.len() {
        return None;
    }
    let mut acc: usize = 0;
    let mut i = start;
    assert(body.take(0) =~= Seq::<char>::empty());
    while i < v.len()
        invariant
            start <= i <= v.len(),
            v@ == s@,
            body == (if s@.len() > 0 && s@[0] == '+' { s@.drop_first() } else { s@ }),
            body == v@.skip(start as int),
            all_digits(body.take(i - start)),
            acc as nat == digits_value(body.take(i - start)),
        decreases v.len() - i,
    {
        let c = v[i];
        let ghost k: int = i - start;
        assert(body[k] == c);
        if !('0' <= c && c <= '9') {
            assert(!all_digits(body));
            return None;
        }
        let d: usize = ((c as u32) - 48) as usize;
        assert(body.take(k + 1).drop_last() =~= body.take(k));
        assert(body.take(k + 1).last() == c);
        if acc > (usize::MAX - d) / 10 {
            proof {
                assert(digits_value(body.take(k + 1)) == digits_value(body.take(k)) * 10 + d);
                assert(digits_value(body.take(k + 1)) > usize::MAX) by (nonlinear_arith)
                    requires
                        acc > (usize::MAX - d) / 10,
                        digits_value(body.take(k + 1)) == acc * 10 + d,
                        d <= 9,
                ;
                if all_digits(body) {
                    lemma_digits_value_prefix(body, k + 1);
                }
            }
            return None;
        }
        proof {
            assert(acc * 10 + d <= usize::MAX) by (nonlinear_arith)
                requires
                    acc <= (usize::MAX - d) / 10,
                    d <= 9,
            ;
        }
        acc = acc * 10 + d;
        i = i + 1;
        assert(all_digits(body.take(k + 1)));
    }
    assert(body.take(v.len() - start) =~= body);
    Some(acc)
}

// ---------------------------------------------------------------------------
// Laws
// ---------------------------------------------------------------------------

proof fn lemma_digit_char_value(d: nat)
    requires
        d < 10,
    ensures
        digit_char(d) as nat == 48 + d,
        is_ascii_digit(digit_char(d)),
{
    assert(((48 + d) as char) as nat == 48 + d);
}

proof fn lemma_decimal_props(n: nat)
    ensures
        decimal(n).len() > 0,
        all_digits(decimal(n)),
        digits_value(decimal(n)) == n,
        decimal(n)[0] != '+',
    decreases n,
{
    if n >= 10 {
        lemma_div_decreases(n, 10);
        lemma_decimal_props(n / 10);
        let d = decimal(n);
        assert(d.drop_last() =~= decimal(n / 10));
        assert(n == (n / 10) * 10 + n % 10) by (nonlinear_arith);
        assert(d.last() == digit_char(n % 10));
        lemma_digit_char_value(n % 10);
        assert(digits_value(d) == digits_value(d.drop_last()) * 10 + ((d.last() as nat) - 48) as nat);
        assert(digits_value(d) == (n / 10) * 10 + n % 10);
        assert(d[0] == decimal(n / 10)[0]);
        assert forall|i: int| 0 <= i < d.len() implies is_ascii_digit(#[trigger] d[i]) by {
            if i < d.len() - 1 {
                assert(d[i] == decimal(n / 10)[i]);
            }
        }
    } else {
        lemma_digit_char_value(n);
        let d = decimal(n);
        assert(d.drop_last() =~= Seq::<char>::empty());
        assert(digits_value(d.drop_last()) == 0);
        assert(digits_value(d) == digits_value(d.drop_last()) * 10 + ((d.last() as nat) - 48) as nat);
    }
}

/// Rendering a `usize` in decimal and parsing it back gives the same number.
pub proof fn law_parse_usize_inverts_decimal(n: usize)
    ensures
        parse_usize_spec(decimal(n as nat)) == Some(n),
{
    lemma_decimal_props(n as nat);
}

proof fn lemma_trim_start_shape(s: Seq<char>)
    ensures
        trim_start_spec(s).len() == 0 || !unicode_white_space(trim_start_spec(s)[0]),
        exists|a: int| 0 <= a <= s.len() && trim_start_spec(s) == #[trigger] s.skip(a),
    decreases s.len(),
{
    if s.len() > 0 && unicode_white_space(s[0]) {
        lemma_trim_start_shape(s.drop_first());
        let a = choose|a: int| 0 <= a <= s.drop_first().len() && trim_start_spec(s.drop_first()) == #[trigger] s.drop_first().skip(a);
        assert(s.drop_first().skip(a) =~= s.skip(a + 1));
    } else {
        assert(s.skip(0) =~= s);
    }
}

proof fn lemma_trim_end_keeps_start(s: Seq<char>)
    requires
        s.len() == 0 || !unicode_white_space(s[0]),
    ensures
        trim_start_spec(trim_end_spec(s)) == trim_end_spec(s),
        trim_end_spec(s).len() == 0 || !unicode_white_space(trim_end_spec(s).last()),
    decreases s.len(),
{
    if s.len() > 0 && unicode_white_space(s.last()) {
        let t = s.drop_last();
        if t.len() > 0 {
            assert(t[0] == s[0]);
        }
        lemma_trim_end_keeps_start(t);
    }
}

/// Trimming a string that was already trimmed leaves it unchanged.
pub proof fn law_trim_idempotent(s: Seq<char>)
    ensures
        trim_spec(trim_spec(s)) == trim_spec(s),
{
    lemma_trim_start_shape(s);
    let t = trim_start_spec(s);
    lemma_trim_end_keeps_start(t);
    let u = trim_end_spec(t);
    assert(trim_start_spec(u) == u);
    assert(trim_end_spec(u) == u);
}

/// Replacing a pattern that does not occur leaves the text unchanged.
pub proof fn law_replace_absent_is_identity(s: Seq<char>, p: Seq<char>, r: Seq<char>)
    requires
        !seq_contains(s, p),
    ensures
        replace_all(s, p, r) == s,
    decreases s.len(),
{
    if p.len() == 0 {
        assert(occurs_at(s, p, 0)) by {
            assert(s.subrange(0, 0) =~= p);
        }
    }
    if p.len() > 0 && s.len() >= p.len() {
        assert(s.take(p.len() as int) != p) by {
            assert(s.subrange(0, p.len() as int) =~= s.take(p.len() as int));
            assert(!occurs_at(s, p, 0));
        }
        let t = s.skip(1);
        assert(!seq_contains(t, p)) by {
            if exists|i: int| occurs_at(t, p, i) {
                let i = choose|i: int| occurs_at(t, p, i);
                assert(s.subrange(i + 1, i + 1 + p.len()) =~= t.subrange(i, i + p.len()));
                assert(occurs_at(s, p, i + 1));
            }
        }
        law_replace_absent_is_identity(t, p, r);
        assert(seq![s[0]] + t =~= s);
    }
}

} // verus!
