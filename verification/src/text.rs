//! Character-level text primitives shared by the caption, settings and
//! provider modules: Unicode whitespace trimming, prefix/suffix/substring
//! tests, ASCII case folding and decimal number rendering and parsing.
use vstd::prelude::*;

verus! {

/// `String::push` appends one character at the end of the string.
pub assume_specification[ std::string::String::push ](s: &mut std::string::String, ch: char)
    ensures
        final(s)@ == old(s)@.push(ch),
;

/// The Unicode `White_Space` property, as used by `char::is_whitespace`
/// and by `str::trim`.
pub open spec fn is_ws(c: char) -> bool {
    let u = c as u32;
    ||| 9 <= u <= 13
    ||| u == 32
    ||| u == 0x85
    ||| u == 0xa0
    ||| u == 0x1680
    ||| 0x2000 <= u <= 0x200a
    ||| u == 0x2028
    ||| u == 0x2029
    ||| u == 0x202f
    ||| u == 0x205f
    ||| u == 0x3000
}

/// Removes leading whitespace.
pub open spec fn trim_start_seq(s: Seq<char>) -> Seq<char>
    decreases s.len(),
{
    if s.len() > 0 && is_ws(s[0]) {
        trim_start_seq(s.drop_first())
    } else {
        s
    }
}

/// Removes trailing whitespace.
pub open spec fn trim_end_seq(s: Seq<char>) -> Seq<char>
    decreases s.len(),
{
    if s.len() > 0 && is_ws(s.last()) {
        trim_end_seq(s.drop_last())
    } else {
        s
    }
}

/// Removes leading and trailing whitespace.
pub open spec fn trim_seq(s: Seq<char>) -> Seq<char> {
    trim_end_seq(trim_start_seq(s))
}

/// Removes every trailing occurrence of `c`.
pub open spec fn trim_end_char_seq(s: Seq<char>, c: char) -> Seq<char>
    decreases s.len(),
{
    if s.len() > 0 && s.last() == c {
        trim_end_char_seq(s.drop_last(), c)
    } else {
        s
    }
}

/// Removes every leading occurrence of `c`.
pub open spec fn trim_start_char_seq(s: Seq<char>, c: char) -> Seq<char>
    decreases s.len(),
{
    if s.len() > 0 && s[0] == c {
        trim_start_char_seq(s.drop_first(), c)
    } else {
        s
    }
}

pub open spec fn all_ws(s: Seq<char>) -> bool {
    forall|i: int| 0 <= i < s.len() ==> is_ws(#[trigger] s[i])
}

pub open spec fn is_blank_seq(s: Seq<char>) -> bool {
    trim_seq(s).len() == 0
}

pub open spec fn starts_with_seq(s: Seq<char>, p: Seq<char>) -> bool {
    p.len() <= s.len() && s.subrange(0, p.len() as int) == p
}

pub open spec fn ends_with_seq(s: Seq<char>, p: Seq<char>) -> bool {
    p.len() <= s.len() && s.subrange(s.len() - p.len(), s.len() as int) == p
}

pub open spec fn occurs_at(s: Seq<char>, p: Seq<char>, i: int) -> bool {
    0 <= i && i + p.len() <= s.len() && s.subrange(i, i + p.len()) == p
}

pub open spec fn contains_seq(s: Seq<char>, p: Seq<char>) -> bool {
    exists|i: int| occurs_at(s, p, i)
}

pub open spec fn ascii_lower_char(c: char) -> char {
    if 'A' <= c && c <= 'Z' {
        ((c as u32) + 32) as char
    } else {
        c
    }
}

pub open spec fn ascii_lower_seq(s: Seq<char>) -> Seq<char> {
    Seq::new(s.len(), |i: int| ascii_lower_char(s[i]))
}

pub open spec fn is_ascii_digit(c: char) -> bool {
    '0' <= c && c <= '9'
}

pub open spec fn is_ascii_alpha(c: char) -> bool {
    ('A' <= c && c <= 'Z') || ('a' <= c && c <= 'z')
}

pub open spec fn is_ascii_alnum(c: char) -> bool {
    is_ascii_digit(c) || is_ascii_alpha(c)
}

pub open spec fn digit_char(d: nat) -> char {
    ((d % 10) + 48) as char
}

/// The decimal rendering of a natural number, as `to_string` gives it.
pub open spec fn decimal_seq(n: nat) -> Seq<char>
    decreases n,
{
    if n < 10 {
        seq![digit_char(n)]
    } else {
        decimal_seq(n / 10).push(digit_char(n % 10))
    }
}

/// The value of a string of ASCII digits.
pub open spec fn digits_value(s: Seq<char>) -> nat
    decreases s.len(),
{
    if s.len() == 0 {
        0
    } else {
        digits_value(s.drop_last()) * 10 + ((s.last() as u32) - 48) as nat
    }
}

pub open spec fn all_digits(s: Seq<char>) -> bool {
    forall|i: int| 0 <= i < s.len() ==> is_ascii_digit(#[trigger] s[i])
}

/// The digits that `str::parse` reads for an unsigned integer: an optional
/// leading `+` followed by at least one ASCII digit.
pub open spec fn unsigned_digits(s: Seq<char>) -> Option<Seq<char>> {
    let body = if s.len() > 0 && s[0] == '+' {
        s.drop_first()
    } else {
        s
    };
    if body.len() > 0 && all_digits(body) {
        Some(body)
    } else {
        None
    }
}

/// What `str::parse::<uN>` accepts, with `max` the largest value of the type.
pub open spec fn parse_unsigned_seq(s: Seq<char>, max: nat) -> Option<nat> {
    match unsigned_digits(s) {
        Some(d) => if digits_value(d) <= max {
            Some(digits_value(d))
        } else {
            None
        },
        None => None,
    }
}

pub fn is_whitespace(c: char) -> (b: bool)
    ensures
        b == is_ws(c),
{
    let u = c as u32;
    (9 <= u && u <= 13) || u == 32 || u == 0x85 || u == 0xa0 || u == 0x1680 || (0x2000 <= u && u
        <= 0x200a) || u == 0x2028 || u == 0x2029 || u == 0x202f || u == 0x205f || u == 0x3000
}

pub fn chars_of(s: &str) -> (v: Vec<char>)
    ensures
        v@ == s@,
{
    let mut v: Vec<char> = Vec::new();
    for c in it: s.chars()
        invariant
            v@ == it.seq().take(it.index() as int),
    {
        v.push(c);
    }
    v
}

/// The characters `lo..hi` of `v` as a new string.
pub fn string_of(v: &Vec<char>, lo: usize, hi: usize) -> (r: String)
    requires
        lo <= hi <= v.len(),
    ensures
        r@ == v@.subrange(lo as int, hi as int),
{
    let mut r = String::new();
    let mut i = lo;
    while i < hi
        invariant
            lo <= i <= hi <= v.len(),
            r@ == v@.subrange(lo as int, i as int),
        decreases hi - i,
    {
        r.push(v[i]);
        i += 1;
        assert(r@ =~= v@.subrange(lo as int, i as int));
    }
    r
}

pub fn string_of_all(v: &Vec<char>) -> (r: String)
    ensures
        r@ == v@,
{
    let r = string_of(v, 0, v.len());
    assert(v@.subrange(0, v@.len() as int) =~= v@);
    r
}

pub fn owned(s: &str) -> (r: String)
    ensures
        r@ == s@,
{
    let v = chars_of(s);
    string_of_all(&v)
}

pub fn push_str(s: &mut String, t: &str)
    ensures
        final(s)@ == old(s)@ + t@,
{
    let v = chars_of(t);
    let ghost s0 = s@;
    let mut i: usize = 0;
    while i < v.len()
        invariant
            i <= v.len(),
            v@ == t@,
            s@ == s0 + v@.subrange(0, i as int),
        decreases v.len() - i,
    {
        s.push(v[i]);
        i += 1;
        assert(s@ =~= s0 + v@.subrange(0, i as int));
    }
    assert(v@.subrange(0, v@.len() as int) =~= v@);
}

pub fn concat(a: &str, b: &str) -> (r: String)
    ensures
        r@ == a@ + b@,
{
    let mut r = owned(a);
    push_str(&mut r, b);
    r
}

pub fn concat3(a: &str, b: &str, c: &str) -> (r: String)
    ensures
        r@ == a@ + b@ + c@,
{
    let mut r = owned(a);
    push_str(&mut r, b);
    push_str(&mut r, c);
    r
}

pub proof fn lemma_trim_start_skip(s: Seq<char>, k: int)
    requires
        0 <= k <= s.len(),
        forall|i: int| 0 <= i < k ==> is_ws(#[trigger] s[i]),
        k == s.len() || !is_ws(s[k]),
    ensures
        trim_start_seq(s) == s.subrange(k, s.len() as int),
    decreases k,
{
    if k == 0 {
        assert(s.subrange(0, s.len() as int) =~= s);
    } else {
        let t = s.drop_first();
        assert forall|i: int| 0 <= i < k - 1 implies is_ws(#[trigger] t[i]) by {
            assert(t[i] == s[i + 1]);
        }
        if k - 1 < t.len() {
            assert(t[k - 1] == s[k]);
        }
        lemma_trim_start_skip(t, k - 1);
        assert(t.subrange(k - 1, t.len() as int) =~= s.subrange(k, s.len() as int));
    }
}

pub proof fn lemma_trim_end_take(s: Seq<char>, k: int)
    requires
        0 <= k <= s.len(),
        forall|i: int| k <= i < s.len() ==> is_ws(#[trigger] s[i]),
        k == 0 || !is_ws(s[k - 1]),
    ensures
        trim_end_seq(s) == s.subrange(0, k),
    decreases s.len() - k,
{
    if k == s.len() {
        assert(s.subrange(0, k) =~= s);
    } else {
        let t = s.drop_last();
        assert forall|i: int| k <= i < t.len() implies is_ws(#[trigger] t[i]) by {
            assert(t[i] == s[i]);
        }
        if k > 0 {
            assert(t[k - 1] == s[k - 1]);
        }
        lemma_trim_end_take(t, k);
        assert(t.subrange(0, k) =~= s.subrange(0, k));
    }
}

pub proof fn lemma_trim_end_char_take(s: Seq<char>, c: char, k: int)
    requires
        0 <= k <= s.len(),
        forall|i: int| k <= i < s.len() ==> #[trigger] s[i] == c,
        k == 0 || s[k - 1] != c,
    ensures
        trim_end_char_seq(s, c) == s.subrange(0, k),
    decreases s.len() - k,
{
    if k == s.len() {
        assert(s.subrange(0, k) =~= s);
    } else {
        let t = s.drop_last();
        assert forall|i: int| k <= i < t.len() implies #[trigger] t[i] == c by {
            assert(t[i] == s[i]);
        }
        if k > 0 {
            assert(t[k - 1] == s[k - 1]);
        }
        lemma_trim_end_char_take(t, c, k);
        assert(t.subrange(0, k) =~= s.subrange(0, k));
    }
}

pub proof fn lemma_trim_start_char_skip(s: Seq<char>, c: char, k: int)
    requires
        0 <= k <= s.len(),
        forall|i: int| 0 <= i < k ==> #[trigger] s[i] == c,
        k == s.len() || s[k] != c,
    ensures
        trim_start_char_seq(s, c) == s.subrange(k, s.len() as int),
    decreases k,
{
    if k == 0 {
        assert(s.subrange(0, s.len() as int) =~= s);
    } else {
        let t = s.drop_first();
        assert forall|i: int| 0 <= i < k - 1 implies #[trigger] t[i] == c by {
            assert(t[i] == s[i + 1]);
        }
        if k - 1 < t.len() {
            assert(t[k - 1] == s[k]);
        }
        lemma_trim_start_char_skip(t, c, k - 1);
        assert(t.subrange(k - 1, t.len() as int) =~= s.subrange(k, s.len() as int));
    }
}

/// Bounds `(lo, hi)` such that `v[lo..hi]` is `v` trimmed.
pub fn trim_bounds(v: &Vec<char>) -> (r: (usize, usize))
    ensures
        r.0 <= r.1 <= v.len(),
        v@.subrange(r.0 as int, r.1 as int) == trim_seq(v@),
{
    let mut lo: usize = 0;
    while lo < v.len() && is_whitespace(v[lo])
        invariant
            lo <= v.len(),
            forall|i: int| 0 <= i < lo ==> is_ws(#[trigger] v@[i]),
        decreases v.len() - lo,
    {
        lo += 1;
    }
    proof {
        lemma_trim_start_skip(v@, lo as int);
    }
    let ghost t = v@.subrange(lo as int, v@.len() as int);
    let mut hi: usize = v.len();
    while hi > lo && is_whitespace(v[hi - 1])
        invariant
            lo <= hi <= v.len(),
            forall|i: int| hi <= i < v.len() ==> is_ws(#[trigger] v@[i]),
        decreases hi,
    {
        hi -= 1;
    }
    proof {
        let k = hi - lo;
        assert forall|i: int| k <= i < t.len() implies is_ws(#[trigger] t[i]) by {
            assert(t[i] == v@[i + lo]);
        }
        if k > 0 {
            assert(t[k - 1] == v@[hi - 1]);
        }
        lemma_trim_end_take(t, k);
        assert(t.subrange(0, k) =~= v@.subrange(lo as int, hi as int));
    }
    (lo, hi)
}

pub fn trim_chars(v: &Vec<char>) -> (r: String)
    ensures
        r@ == trim_seq(v@),
{
    let (lo, hi) = trim_bounds(v);
    string_of(v, lo, hi)
}

/// `str::trim`, as a new string.
pub fn trim(s: &str) -> (r: String)
    ensures
        r@ == trim_seq(s@),
{
    let v = chars_of(s);
    trim_chars(&v)
}

pub fn is_blank(s: &str) -> (b: bool)
    ensures
        b == is_blank_seq(s@),
{
    let v = chars_of(s);
    let (lo, hi) = trim_bounds(&v);
    lo == hi
}

pub fn is_empty_str(s: &str) -> (b: bool)
    ensures
        b == (s@.len() == 0),
{
    s.is_empty()
}

/// `str::trim_end_matches` with a single character.
pub fn trim_end_char(s: &str, c: char) -> (r: String)
    ensures
        r@ == trim_end_char_seq(s@, c),
{
    let v = chars_of(s);
    let mut hi: usize = v.len();
    while hi > 0 && v[hi - 1] == c
        invariant
            hi <= v.len(),
            forall|i: int| hi <= i < v.len() ==> #[trigger] v@[i] == c,
        decreases hi,
    {
        hi -= 1;
    }
    proof {
        lemma_trim_end_char_take(v@, c, hi as int);
    }
    string_of(&v, 0, hi)
}

/// `str::trim_start_matches` with a single character.
pub fn trim_start_char(s: &str, c: char) -> (r: String)
    ensures
        r@ == trim_start_char_seq(s@, c),
{
    let v = chars_of(s);
    let mut lo: usize = 0;
    while lo < v.len() && v[lo] == c
        invariant
            lo <= v.len(),
            forall|i: int| 0 <= i < lo ==> #[trigger] v@[i] == c,
        decreases v.len() - lo,
    {
        lo += 1;
    }
    proof {
        lemma_trim_start_char_skip(v@, c, lo as int);
    }
    string_of(&v, lo, v.len())
}

/// Whether `s[at..at + p.len()]` equals `p`.
pub fn matches_at(s: &Vec<char>, p: &Vec<char>, at: usize) -> (b: bool)
    requires
        at + p.len() <= s.len(),
    ensures
        b == (s@.subrange(at as int, at + p.len()) == p@),
{
    let mut i: usize = 0;
    while i < p.len()
        invariant
            i <= p.len(),
            at + p.len() <= s.len(),
            forall|j: int| 0 <= j < i ==> s@[at + j] == p@[j],
        decreases p.len() - i,
    {
        if s[at + i] != p[i] {
            assert(s@.subrange(at as int, at + p.len())[i as int] != p@[i as int]);
            return false;
        }
        i += 1;
    }
    assert(s@.subrange(at as int, at + p.len()) =~= p@);
    true
}

pub fn starts_with_chars(s: &Vec<char>, p: &Vec<char>) -> (b: bool)
    ensures
        b == starts_with_seq(s@, p@),
{
    if p.len() > s.len() {
        false
    } else {
        matches_at(s, p, 0)
    }
}

pub fn ends_with_chars(s: &Vec<char>, p: &Vec<char>) -> (b: bool)
    ensures
        b == ends_with_seq(s@, p@),
{
    if p.len() > s.len() {
        false
    } else {
        matches_at(s, p, s.len() - p.len())
    }
}

pub fn contains_chars(s: &Vec<char>, p: &Vec<char>) -> (b: bool)
    ensures
        b == contains_seq(s@, p@),
{
    if p.len() > s.len() {
        return false;
    }
    let last = s.len() - p.len();
    let mut i: usize = 0;
    loop
        invariant
            last == s.len() - p.len(),
            i <= last,
            forall|j: int| 0 <= j < i ==> !occurs_at(s@, p@, j),
        decreases last - i,
    {
        if matches_at(s, p, i) {
            assert(occurs_at(s@, p@, i as int));
            return true;
        }
        if i == last {
            assert forall|j: int| !occurs_at(s@, p@, j) by {
                if 0 <= j <= last {
                    if j < i {
                    } else {
                        assert(j == i);
                    }
                }
            }
            return false;
        }
        i += 1;
    }
}

pub fn starts_with(s: &str, p: &str) -> (b: bool)
    ensures
        b == starts_with_seq(s@, p@),
{
    starts_with_chars(&chars_of(s), &chars_of(p))
}

pub fn ends_with(s: &str, p: &str) -> (b: bool)
    ensures
        b == ends_with_seq(s@, p@),
{
    ends_with_chars(&chars_of(s), &chars_of(p))
}

pub fn contains(s: &str, p: &str) -> (b: bool)
    ensures
        b == contains_seq(s@, p@),
{
    contains_chars(&chars_of(s), &chars_of(p))
}

pub fn str_eq(a: &str, b: &str) -> (r: bool)
    ensures
        r == (a@ == b@),
{
    let va = chars_of(a);
    let vb = chars_of(b);
    if va.len() != vb.len() {
        return false;
    }
    let r = matches_at(&va, &vb, 0);
    assert(va@.subrange(0, vb@.len() as int) =~= va@);
    r
}

pub fn ascii_lower(c: char) -> (r: char)
    ensures
        r == ascii_lower_char(c),
{
    if 'A' <= c && c <= 'Z' {
        let u = c as u32 + 32;
        proof {
            assert(0x61 <= u <= 0x7a);
        }
        char_from_ascii(u)
    } else {
        c
    }
}

/// An ASCII code point as a character.
fn char_from_ascii(u: u32) -> (c: char)
    requires
        u < 128,
    ensures
        c == u as char,
{
    let b = u as u8;
    b as char
}

/// `str::to_ascii_lowercase`.
pub fn to_ascii_lowercase(s: &str) -> (r: String)
    ensures
        r@ == ascii_lower_seq(s@),
{
    let v = chars_of(s);
    let mut r = String::new();
    let mut i: usize = 0;
    while i < v.len()
        invariant
            i <= v.len(),
            v@ == s@,
            r@ == ascii_lower_seq(v@.subrange(0, i as int)),
        decreases v.len() - i,
    {
        let c = ascii_lower(v[i]);
        r.push(c);
        i += 1;
        assert(r@ =~= ascii_lower_seq(v@.subrange(0, i as int)));
    }
    assert(v@.subrange(0, v@.len() as int) =~= v@);
    r
}

pub fn is_digit(c: char) -> (b: bool)
    ensures
        b == is_ascii_digit(c),
{
    '0' <= c && c <= '9'
}

pub fn is_alpha(c: char) -> (b: bool)
    ensures
        b == is_ascii_alpha(c),
{
    ('A' <= c && c <= 'Z') || ('a' <= c && c <= 'z')
}

pub fn is_alnum(c: char) -> (b: bool)
    ensures
        b == is_ascii_alnum(c),
{
    is_digit(c) || is_alpha(c)
}

pub proof fn lemma_decimal_nonempty(n: nat)
    ensures
        decimal_seq(n).len() >= 1,
    decreases n,
{
    if n >= 10 {
        lemma_decimal_nonempty(n / 10);
    }
}

/// The decimal rendering of `n`, as `n.to_string()` gives it.
pub fn decimal_string(n: u128) -> (r: String)
    ensures
        r@ == decimal_seq(n as nat),
    decreases n,
{
    if n < 10 {
        let mut r = String::new();
        r.push(digit(n));
        assert(r@ =~= seq![digit_char(n as nat)]);
        r
    } else {
        let mut r = decimal_string(n / 10);
        r.push(digit(n % 10));
        r
    }
}

fn digit(d: u128) -> (c: char)
    ensures
        c == digit_char(d as nat),
{
    let u = (d % 10) as u32 + 48;
    char_from_ascii(u)
}

pub proof fn lemma_digits_value_bound(s: Seq<char>)
    requires
        all_digits(s),
    ensures
        digits_value(s) < pow10(s.len()),
    decreases s.len(),
{
    if s.len() > 0 {
        let t = s.drop_last();
        assert forall|i: int| 0 <= i < t.len() implies is_ascii_digit(#[trigger] t[i]) by {
            assert(t[i] == s[i]);
        }
        lemma_digits_value_bound(t);
        assert(is_ascii_digit(s[s.len() - 1]));
    }
}

pub open spec fn pow10(n: nat) -> nat
    decreases n,
{
    if n == 0 {
        1
    } else {
        10 * pow10((n - 1) as nat)
    }
}

pub proof fn lemma_digits_value_monotone(s: Seq<char>, k: int)
    requires
        all_digits(s),
        0 <= k <= s.len(),
    ensures
        digits_value(s.subrange(0, k)) <= digits_value(s),
    decreases s.len() - k,
{
    if k < s.len() {
        let t = s.drop_last();
        assert forall|i: int| 0 <= i < t.len() implies is_ascii_digit(#[trigger] t[i]) by {
            assert(t[i] == s[i]);
        }
        lemma_digits_value_monotone(t, k);
        assert(t.subrange(0, k) =~= s.subrange(0, k));
    } else {
        assert(s.subrange(0, k) =~= s);
    }
}

/// `str::parse::<u64>` for an unsigned value no larger than `max`
/// (`u32::MAX` or `u64::MAX`): `None` where it returns an error.
pub fn parse_unsigned(s: &str, max: u64) -> (r: Option<u64>)
    requires
        max >= 9,
    ensures
        match parse_unsigned_seq(s@, max as nat) {
            Some(n) => r == Some(n as u64),
            None => r is None,
        },
{
    let v = chars_of(s);
    let start: usize = if v.len() > 0 && v[0] == '+' {
        1
    } else {
        0
    };
    let ghost body = v@.subrange(start as int, v@.len() as int);
    proof {
        if start == 1 {
            assert(body =~= v@.drop_first());
        } else {
            assert(body =~= v@);
        }
    }
    if start >= v.len() {
        return None;
    }
    let mut i = start;
    let mut acc: u64 = 0;
    while i < v.len()
        invariant
            start <= i <= v.len(),
            start < v.len(),
            body == v@.subrange(start as int, v@.len() as int),
            v@ == s@,
            body == (if s@.len() > 0 && s@[0] == '+' { s@.drop_first() } else { s@ }),
            all_digits(body.subrange(0, i - start)),
            acc as nat == digits_value(body.subrange(0, i - start)),
            acc <= max,
            max >= 9,
        decreases v.len() - i,
    {
        let c = v[i];
        if !is_digit(c) {
            proof {
                assert(body[i - start] == c);
                assert(!all_digits(body));
                assert(unsigned_digits(s@) is None);
            }
            return None;
        }
        let d = (c as u32 - 48) as u64;
        let ghost pre = body.subrange(0, i - start);
        let ghost next = body.subrange(0, i - start + 1);
        proof {
            assert(next.drop_last() =~= pre);
            assert(next.last() == c);
            assert forall|j: int| 0 <= j < next.len() implies is_ascii_digit(#[trigger] next[j]) by {
                if j < pre.len() {
                    assert(next[j] == pre[j]);
                }
            }
        }
        if acc > (max - d) / 10 {
            proof {
                assert(acc * 10 + d > max) by (nonlinear_arith)
                    requires
                        acc > (max - d) / 10,
                        d <= 9,
                        d <= max,
                ;
                // every longer digit string is at least as large
                assert(body.subrange(0, i - start + 1) =~= next);
                if all_digits(body) {
                    lemma_digits_value_monotone(body, i - start + 1);
                    assert(digits_value(body) > max);
                }
                assert(parse_unsigned_seq(s@, max as nat) is None);
            }
            return None;
        }
        proof {
            assert(acc * 10 + d <= max) by (nonlinear_arith)
                requires
                    acc <= (max - d) / 10,
                    d <= max,
            ;
        }
        acc = acc * 10 + d;
        i += 1;
    }
    proof {
        assert(body.subrange(0, body.len() as int) =~= body);
    }
    Some(acc)
}

/// The texts of `list` joined by `sep`.
pub open spec fn join_seq(list: Seq<Seq<char>>, sep: Seq<char>) -> Seq<char>
    decreases list.len(),
{
    if list.len() == 0 {
        Seq::empty()
    } else if list.len() == 1 {
        list[0]
    } else {
        join_seq(list.drop_last(), sep) + sep + list.last()
    }
}

pub open spec fn string_views(list: Seq<String>) -> Seq<Seq<char>> {
    list.map_values(|s: String| s@)
}

/// `[String]::join`.
pub fn join(list: &Vec<String>, sep: &str) -> (r: String)
    ensures
        r@ == join_seq(string_views(list@), sep@),
{
    let mut r = String::new();
    let ghost views = string_views(list@);
    let mut i: usize = 0;
    while i < list.len()
        invariant
            i <= list.len(),
            views == string_views(list@),
            r@ == join_seq(views.take(i as int), sep@),
        decreases list.len() - i,
    {
        if i != 0 {
            push_str(&mut r, sep);
        }
        push_str(&mut r, list[i].as_str());
        proof {
            assert(views.take(i + 1).drop_last() =~= views.take(i as int));
            assert(views.take(i + 1).last() == list@[i as int]@);
            if i == 0 {
                assert(views.take(1) =~= seq![list@[0]@]);
            }
        }
        i += 1;
    }
    assert(views.take(list.len() as int) =~= views);
    r
}

/// The words of `s` (maximal runs of characters that are not whitespace)
/// read up to position `n`, separated by single spaces, and whether a space
/// is due before the next word.
pub open spec fn collapse_prefix(s: Seq<char>, n: nat) -> (Seq<char>, bool)
    decreases n,
{
    if n == 0 || n > s.len() {
        (Seq::empty(), false)
    } else {
        let (out, pending) = collapse_prefix(s, (n - 1) as nat);
        let c = s[n - 1];
        if is_ws(c) {
            (out, out.len() > 0)
        } else if pending {
            (out.push(' ').push(c), false)
        } else {
            (out.push(c), false)
        }
    }
}

/// The words of `s` separated by single spaces, as
/// `s.split_whitespace().collect::<Vec<_>>().join(" ")` gives them.
pub open spec fn collapse_ws(s: Seq<char>) -> Seq<char> {
    collapse_prefix(s, s.len()).0
}

pub fn collapse_whitespace(s: &str) -> (r: String)
    ensures
        r@ == collapse_ws(s@),
{
    let v = chars_of(s);
    let mut out = String::new();
    let mut pending = false;
    let mut i: usize = 0;
    while i < v.len()
        invariant
            i <= v.len(),
            v@ == s@,
            (out@, pending) == collapse_prefix(v@, i as nat),
        decreases v.len() - i,
    {
        let c = v[i];
        if is_whitespace(c) {
            pending = !out.as_str().is_empty();
        } else {
            if pending {
                out.push(' ');
            }
            out.push(c);
            pending = false;
        }
        i += 1;
    }
    out
}

/// Trimming twice is trimming once.
pub proof fn lemma_trim_idempotent(s: Seq<char>)
    ensures
        trim_seq(trim_seq(s)) == trim_seq(s),
{
    let t = trim_seq(s);
    if t.len() > 0 {
        lemma_trim_edges(s);
        lemma_trim_start_skip(t, 0);
        assert(t.subrange(0, t.len() as int) =~= t);
        lemma_trim_end_take(t, t.len() as int);
    } else {
        lemma_trim_start_skip(t, 0);
        assert(t.subrange(0, 0) =~= t);
    }
}

/// A trimmed text starts and ends with a character that is not whitespace.
pub proof fn lemma_trim_edges(s: Seq<char>)
    ensures
        trim_seq(s).len() > 0 ==> !is_ws(trim_seq(s)[0]) && !is_ws(trim_seq(s).last()),
{
    lemma_trim_start_edge(s);
    lemma_trim_end_edge(trim_start_seq(s));
    let a = trim_start_seq(s);
    if trim_seq(s).len() > 0 {
        lemma_trim_end_prefix(a);
        assert(trim_seq(s)[0] == a[0]);
    }
}

proof fn lemma_trim_start_edge(s: Seq<char>)
    ensures
        trim_start_seq(s).len() > 0 ==> !is_ws(trim_start_seq(s)[0]),
    decreases s.len(),
{
    if s.len() > 0 && is_ws(s[0]) {
        lemma_trim_start_edge(s.drop_first());
    }
}

proof fn lemma_trim_end_edge(s: Seq<char>)
    ensures
        trim_end_seq(s).len() > 0 ==> !is_ws(trim_end_seq(s).last()),
    decreases s.len(),
{
    if s.len() > 0 && is_ws(s.last()) {
        lemma_trim_end_edge(s.drop_last());
    }
}

/// Trimming the end keeps a prefix.
pub proof fn lemma_trim_end_prefix(s: Seq<char>)
    ensures
        trim_end_seq(s).len() <= s.len(),
        trim_end_seq(s) == s.subrange(0, trim_end_seq(s).len() as int),
    decreases s.len(),
{
    if s.len() > 0 && is_ws(s.last()) {
        lemma_trim_end_prefix(s.drop_last());
        let t = trim_end_seq(s.drop_last());
        assert(s.drop_last().subrange(0, t.len() as int) =~= s.subrange(0, t.len() as int));
    } else {
        assert(s.subrange(0, s.len() as int) =~= s);
    }
}

/// Removing trailing copies of a character keeps a prefix.
pub proof fn lemma_trim_end_char_prefix(s: Seq<char>, c: char)
    ensures
        trim_end_char_seq(s, c).len() <= s.len(),
        trim_end_char_seq(s, c) == s.subrange(0, trim_end_char_seq(s, c).len() as int),
    decreases s.len(),
{
    if s.len() > 0 && s.last() == c {
        lemma_trim_end_char_prefix(s.drop_last(), c);
        let t = trim_end_char_seq(s.drop_last(), c);
        assert(s.drop_last().subrange(0, t.len() as int) =~= s.subrange(0, t.len() as int));
    } else {
        assert(s.subrange(0, s.len() as int) =~= s);
    }
}

/// A text that starts and ends with a character that is not whitespace is
/// its own trim.
pub proof fn lemma_trim_noop(s: Seq<char>)
    requires
        s.len() > 0,
        !is_ws(s[0]),
        !is_ws(s.last()),
    ensures
        trim_seq(s) == s,
{
    lemma_trim_start_skip(s, 0);
    assert(s.subrange(0, s.len() as int) =~= s);
    lemma_trim_end_take(s, s.len() as int);
}

/// Whether a text holds a character that is not whitespace.
pub open spec fn has_word(s: Seq<char>) -> bool {
    exists|i: int| 0 <= i < s.len() && !is_ws(#[trigger] s[i])
}

proof fn lemma_collapse_prefix_of_longer(a: Seq<char>, r: Seq<char>, n: nat)
    requires
        n <= a.len(),
    ensures
        collapse_prefix(a + r, n) == collapse_prefix(a, n),
    decreases n,
{
    if n > 0 {
        lemma_collapse_prefix_of_longer(a, r, (n - 1) as nat);
        assert((a + r)[n - 1] == a[n - 1]);
    }
}

proof fn lemma_collapse_prefix_nonempty(s: Seq<char>, n: nat)
    requires
        n <= s.len(),
    ensures
        collapse_prefix(s, n).0.len() > 0 <==> exists|i: int| 0 <= i < n && !is_ws(#[trigger] s[i]),
    decreases n,
{
    if n > 0 {
        lemma_collapse_prefix_nonempty(s, (n - 1) as nat);
        if collapse_prefix(s, (n - 1) as nat).0.len() > 0 {
            let w = choose|i: int| 0 <= i < n - 1 && !is_ws(#[trigger] s[i]);
            assert(0 <= w < n && !is_ws(s[w]));
        } else if !is_ws(s[n - 1]) {
            assert(0 <= n - 1 < n && !is_ws(s[n - 1]));
        } else {
            assert forall|i: int| 0 <= i < n implies is_ws(#[trigger] s[i]) by {
                if i < n - 1 {
                    if !is_ws(s[i]) {
                        assert(exists|j: int| 0 <= j < n - 1 && !is_ws(#[trigger] s[j]));
                    }
                }
            }
        }
    }
}

proof fn lemma_collapse_join_steps(a: Seq<char>, b: Seq<char>, k: nat)
    requires
        has_word(a),
        k <= b.len(),
    ensures
        ({
            let t = a + seq![' '] + b;
            let oa = collapse_prefix(a, a.len()).0;
            let (ob, pb) = collapse_prefix(b, k);
            if ob.len() == 0 {
                collapse_prefix(t, a.len() + 1 + k) == (oa, true)
            } else {
                collapse_prefix(t, a.len() + 1 + k) == (oa + seq![' '] + ob, pb)
            }
        }),
    decreases k,
{
    let t = a + seq![' '] + b;
    let oa = collapse_prefix(a, a.len()).0;
    lemma_collapse_prefix_nonempty(a, a.len());
    let w = choose|i: int| 0 <= i < a.len() && !is_ws(#[trigger] a[i]);
    assert(0 <= w < a.len() && !is_ws(a[w]));
    assert(oa.len() > 0);
    if k == 0 {
        assert(t =~= a + (seq![' '] + b));
        lemma_collapse_prefix_of_longer(a, seq![' '] + b, a.len());
        assert(t[a.len() as int] == ' ');
        assert(is_ws(' '));
    } else {
        lemma_collapse_join_steps(a, b, (k - 1) as nat);
        let c = b[k - 1];
        assert(t[a.len() + 1 + k - 1] == c);
        let (ob0, pb0) = collapse_prefix(b, (k - 1) as nat);
        if ob0.len() == 0 {
            if !is_ws(c) {
                assert(oa.push(' ').push(c) =~= oa + seq![' '] + seq![c]);
                assert(Seq::<char>::empty().push(c) =~= seq![c]);
            }
        } else {
            if !is_ws(c) {
                if pb0 {
                    assert((oa + seq![' '] + ob0).push(' ').push(c) =~= oa + seq![' '] + ob0.push(' ').push(c));
                } else {
                    assert((oa + seq![' '] + ob0).push(c) =~= oa + seq![' '] + ob0.push(c));
                }
            }
        }
    }
}

/// Joining two texts that each hold a word with a space and collapsing the
/// whitespace keeps both: the first text's words, one space, then the
/// second text's words.
pub proof fn lemma_collapse_join(a: Seq<char>, b: Seq<char>)
    requires
        has_word(a),
        has_word(b),
    ensures
        collapse_ws(a + seq![' '] + b) == collapse_ws(a) + seq![' '] + collapse_ws(b),
{
    lemma_collapse_join_steps(a, b, b.len());
    lemma_collapse_prefix_nonempty(b, b.len());
    let w = choose|i: int| 0 <= i < b.len() && !is_ws(#[trigger] b[i]);
    assert(0 <= w < b.len() && !is_ws(b[w]));
    assert((a + seq![' '] + b).len() == a.len() + 1 + b.len());
}

} // verus!
