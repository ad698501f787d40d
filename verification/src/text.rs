//! Character-level helpers on strings, each with a mathematical statement
//! over the `Seq<char>` view of a `str`/`String`.
use vstd::prelude::*;
use vstd::string::*;

verus! {

/// Unicode `White_Space` code points, the set `char::is_whitespace` tests.
pub open spec fn is_ws(c: char) -> bool {
    let u = c as u32;
    ||| (0x09 <= u && u <= 0x0D)
    ||| u == 0x20
    ||| u == 0x85
    ||| u == 0xA0
    ||| u == 0x1680
    ||| (0x2000 <= u && u <= 0x200A)
    ||| u == 0x2028
    ||| u == 0x2029
    ||| u == 0x202F
    ||| u == 0x205F
    ||| u == 0x3000
}

/// Index of the first non-whitespace character at or after `i` (or the length).
pub open spec fn skip_ws_from(s: Seq<char>, i: int) -> int
    decreases s.len() - i,
{
    if 0 <= i < s.len() && is_ws(s[i]) {
        skip_ws_from(s, i + 1)
    } else {
        i
    }
}

/// Index just past the last non-whitespace character before `j` (or 0).
pub open spec fn skip_ws_back(s: Seq<char>, j: int) -> int
    decreases j,
{
    if 0 < j <= s.len() && is_ws(s[j - 1]) {
        skip_ws_back(s, j - 1)
    } else {
        j
    }
}

/// `s` without leading and trailing whitespace (what `str::trim` returns).
pub open spec fn trim(s: Seq<char>) -> Seq<char> {
    let a = skip_ws_from(s, 0);
    let b = skip_ws_back(s, s.len() as int);
    if a < b {
        s.subrange(a, b)
    } else {
        Seq::empty()
    }
}

/// `s` without trailing occurrences of `c` (what `str::trim_end_matches(c)` returns).
pub open spec fn trim_end_char(s: Seq<char>, c: char) -> Seq<char>
    decreases s.len(),
{
    if s.len() > 0 && s.last() == c {
        trim_end_char(s.drop_last(), c)
    } else {
        s
    }
}

/// `needle` occurs in `hay` as a contiguous block.
pub open spec fn is_infix(needle: Seq<char>, hay: Seq<char>) -> bool {
    exists|i: int| 0 <= i && i + needle.len() <= hay.len() && #[trigger] hay.subrange(i, i + needle.len()) == needle
}

pub open spec fn ascii_lower(c: char) -> char {
    if 'A' <= c && c <= 'Z' {
        ((c as u8) + 32) as char
    } else {
        c
    }
}

/// Decimal digits of `n` without leading zeros (what `u64::to_string` writes).
pub open spec fn decimal(n: nat) -> Seq<char>
    decreases n,
{
    if n < 10 {
        seq![digit_char(n)]
    } else {
        decimal(n / 10).push(digit_char(n % 10))
    }
}

pub open spec fn digit_char(d: nat) -> char {
    (('0' as u32) + d) as char
}

pub(crate) proof fn lemma_skip_from_bounds(s: Seq<char>, i: int)
    requires
        0 <= i <= s.len(),
    ensures
        i <= skip_ws_from(s, i) <= s.len(),
        skip_ws_from(s, i) < s.len() ==> !is_ws(s[skip_ws_from(s, i)]),
        forall|k: int| i <= k < skip_ws_from(s, i) ==> is_ws(#[trigger] s[k]),
    decreases s.len() - i,
{
    if i < s.len() && is_ws(s[i]) {
        lemma_skip_from_bounds(s, i + 1);
    }
}

proof fn lemma_skip_back_bounds(s: Seq<char>, j: int)
    requires
        0 <= j <= s.len(),
    ensures
        0 <= skip_ws_back(s, j) <= j,
        skip_ws_back(s, j) > 0 ==> !is_ws(s[skip_ws_back(s, j) - 1]),
        forall|k: int| skip_ws_back(s, j) <= k < j ==> is_ws(#[trigger] s[k]),
    decreases j,
{
    if j > 0 && is_ws(s[j - 1]) {
        lemma_skip_back_bounds(s, j - 1);
    }
}

/// Whether `c` is a Unicode whitespace character.
pub fn char_is_ws(c: char) -> (r: bool)
    ensures
        r == is_ws(c),
{
    let u = c as u32;
    (0x09 <= u && u <= 0x0D) || u == 0x20 || u == 0x85 || u == 0xA0 || u == 0x1680 || (0x2000
        <= u && u <= 0x200A) || u == 0x2028 || u == 0x2029 || u == 0x202F || u == 0x205F || u
        == 0x3000
}

/// The trimmed text of `s` as a new `String`.
pub fn trim_str(s: &str) -> (r: String)
    ensures
        r@ == trim(s@),
{
    let n = s.unicode_len();
    let mut a: usize = 0;
    while a < n && char_is_ws(s.get_char(a))
        invariant
            n == s@.len(),
            0 <= a <= n,
            skip_ws_from(s@, 0) == skip_ws_from(s@, a as int),
        decreases n - a,
    {
        a = a + 1;
    }
    let mut b: usize = n;
    while b > 0 && char_is_ws(s.get_char(b - 1))
        invariant
            n == s@.len(),
            0 <= b <= n,
            skip_ws_back(s@, n as int) == skip_ws_back(s@, b as int),
        decreases b,
    {
        b = b - 1;
    }
    if a < b {
        String::from_str(s.substring_char(a, b))
    } else {
        String::new()
    }
}

/// Whether the trimmed text of `s` is empty.
pub fn is_blank(s: &str) -> (r: bool)
    ensures
        r == (trim(s@).len() == 0),
{
    let t = trim_str(s);
    proof {
        lemma_trim_len(s@);
    }
    t.as_str().unicode_len() == 0
}

pub(crate) proof fn lemma_trim_len(s: Seq<char>)
    ensures
        trim(s).len() == 0 <==> (forall|k: int| 0 <= k < s.len() ==> is_ws(#[trigger] s[k])),
{
    lemma_skip_from_bounds(s, 0);
    lemma_skip_back_bounds(s, s.len() as int);
    let a = skip_ws_from(s, 0);
    let b = skip_ws_back(s, s.len() as int);
    if a < b {
        assert(!is_ws(s[a]));
        assert(trim(s).len() == b - a);
    } else {
        assert forall|k: int| 0 <= k < s.len() implies is_ws(#[trigger] s[k]) by {
            if k >= a {
                assert(b <= k);
            }
        }
    }
}

/// Whether `a` and `b` hold the same characters.
pub fn str_eq(a: &str, b: &str) -> (r: bool)
    ensures
        r == (a@ == b@),
{
    let n = a.unicode_len();
    let m = b.unicode_len();
    if n != m {
        return false;
    }
    let mut i: usize = 0;
    while i < n
        invariant
            n == a@.len(),
            m == b@.len(),
            n == m,
            0 <= i <= n,
            forall|k: int| 0 <= k < i ==> a@[k] == b@[k],
        decreases n - i,
    {
        if a.get_char(i) != b.get_char(i) {
            return false;
        }
        i = i + 1;
    }
    assert(a@ =~= b@);
    true
}

/// Whether `needle` occurs in `hay` starting at character position `start`.
fn occurs_at(needle: &str, hay: &str, start: usize) -> (r: bool)
    requires
        start + needle@.len() <= hay@.len(),
    ensures
        r == (hay@.subrange(start as int, start + needle@.len()) == needle@),
{
    let n = needle.unicode_len();
    let h = hay.unicode_len();
    let mut i: usize = 0;
    while i < n
        invariant
            n == needle@.len(),
            h == hay@.len(),
            start + n <= hay@.len(),
            0 <= i <= n,
            forall|k: int| 0 <= k < i ==> hay@[start + k] == needle@[k],
        decreases n - i,
    {
        if hay.get_char(start + i) != needle.get_char(i) {
            assert(hay@.subrange(start as int, start + n)[i as int] != needle@[i as int]);
            return false;
        }
        i = i + 1;
    }
    assert(hay@.subrange(start as int, start + n) =~= needle@);
    true
}

/// Whether `needle` is a substring of `hay` (what `str::contains` answers).
pub fn str_contains(hay: &str, needle: &str) -> (r: bool)
    ensures
        r == is_infix(needle@, hay@),
{
    let h = hay.unicode_len();
    let n = needle.unicode_len();
    if n > h {
        return false;
    }
    if n == 0 {
        assert(hay@.subrange(0int, 0int + needle@.len()) =~= needle@);
        return true;
    }
    let mut i: usize = 0;
    while i <= h - n
        invariant
            h == hay@.len(),
            n == needle@.len(),
            1 <= n <= h,
            0 <= i <= h - n + 1,
            forall|k: int| 0 <= k < i ==> #[trigger] hay@.subrange(k, k + n) != needle@,
        decreases h - n + 1 - i,
    {
        if occurs_at(needle, hay, i) {
            return true;
        }
        i = i + 1;
    }
    false
}

/// Whether `s` starts with `prefix`.
pub fn str_starts_with(s: &str, prefix: &str) -> (r: bool)
    ensures
        r == (prefix@.len() <= s@.len() && s@.subrange(0, prefix@.len() as int) == prefix@),
{
    let n = prefix.unicode_len();
    if n > s.unicode_len() {
        return false;
    }
    occurs_at(prefix, s, 0)
}

/// Whether `s` equals `decimal(n)`, the way `n.to_string() == s` answers.
pub fn str_is_decimal_of(s: &str, n: u64) -> (r: bool)
    ensures
        r == (s@ == decimal(n as nat)),
{
    let digits = decimal_chars(n);
    let len = s.unicode_len();
    if len != digits.len() {
        return false;
    }
    let mut i: usize = 0;
    while i < len
        invariant
            len == s@.len(),
            len == digits@.len(),
            digits@ == decimal(n as nat),
            0 <= i <= len,
            forall|k: int| 0 <= k < i ==> s@[k] == digits@[k],
        decreases len - i,
    {
        if s.get_char(i) != digits[i] {
            return false;
        }
        i = i + 1;
    }
    assert(s@ =~= digits@);
    true
}

/// The decimal digits of `n`.
pub fn decimal_chars(n: u64) -> (r: Vec<char>)
    ensures
        r@ == decimal(n as nat),
    decreases n,
{
    if n < 10 {
        let c = digit(n);
        let mut v: Vec<char> = Vec::new();
        v.push(c);
        assert(v@ =~= seq![digit_char(n as nat)]);
        v
    } else {
        let mut v = decimal_chars(n / 10);
        v.push(digit(n % 10));
        v
    }
}

fn digit(d: u64) -> (c: char)
    requires
        d < 10,
    ensures
        c == digit_char(d as nat),
{
    if d == 0 { '0' }
    else if d == 1 { '1' }
    else if d == 2 { '2' }
    else if d == 3 { '3' }
    else if d == 4 { '4' }
    else if d == 5 { '5' }
    else if d == 6 { '6' }
    else if d == 7 { '7' }
    else if d == 8 { '8' }
    else { '9' }
}

/// `String::push`: append one character.
#[verifier::external_body]
pub(crate) fn push_char(s: &mut String, c: char)
    ensures
        final(s)@ == old(s)@.push(c),
{
    s.push(c);
}

} // verus!
