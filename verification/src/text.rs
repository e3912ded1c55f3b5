//! Character classification and trimming for the text buffers of the
//! catalogue: whitespace (the Unicode `White_Space` set, as used by the
//! standard library's `trim`), decimal digits, and a verified trim.

use vstd::prelude::*;

verus! {

/// True for the characters with the Unicode `White_Space` property.
pub open spec fn is_space_char(c: char) -> bool {
    let u = c as u32;
    ||| u == 0x20
    ||| (0x9 <= u && u <= 0xD)
    ||| u == 0x85
    ||| u == 0xA0
    ||| u == 0x1680
    ||| (0x2000 <= u && u <= 0x200A)
    ||| u == 0x2028
    ||| u == 0x2029
    ||| u == 0x202F
    ||| u == 0x205F
    ||| u == 0x3000
}

/// True for the ASCII digits `'0'` to `'9'`.
pub open spec fn is_digit_char(c: char) -> bool {
    0x30 <= c as u32 && c as u32 <= 0x39
}

pub fn is_space(c: char) -> (r: bool)
    ensures
        r == is_space_char(c),
{
    let u = c as u32;
    u == 0x20 || (0x9 <= u && u <= 0xD) || u == 0x85 || u == 0xA0 || u == 0x1680
        || (0x2000 <= u && u <= 0x200A) || u == 0x2028 || u == 0x2029 || u == 0x202F
        || u == 0x205F || u == 0x3000
}

pub fn is_digit(c: char) -> (r: bool)
    ensures
        r == is_digit_char(c),
{
    let u = c as u32;
    0x30 <= u && u <= 0x39
}

/// The sequence without its leading whitespace.
pub open spec fn trim_front_spec(s: Seq<char>) -> Seq<char>
    decreases s.len(),
{
    if s.len() > 0 && is_space_char(s[0]) {
        trim_front_spec(s.drop_first())
    } else {
        s
    }
}

/// The sequence without its trailing whitespace.
pub open spec fn trim_back_spec(s: Seq<char>) -> Seq<char>
    decreases s.len(),
{
    if s.len() > 0 && is_space_char(s.last()) {
        trim_back_spec(s.drop_last())
    } else {
        s
    }
}

/// The sequence without its leading and trailing whitespace.
pub open spec fn trim_spec(s: Seq<char>) -> Seq<char> {
    trim_back_spec(trim_front_spec(s))
}

/// A prefix of whitespace followed by a non-space character (or the end)
/// pins down `trim_front_spec`: it is the rest of the sequence.
proof fn lemma_trim_front_at(s: Seq<char>, k: int)
    requires
        0 <= k <= s.len(),
        forall|j: int| 0 <= j < k ==> is_space_char(s[j]),
        k < s.len() ==> !is_space_char(s[k]),
    ensures
        trim_front_spec(s) == s.subrange(k, s.len() as int),
    decreases k,
{
    if k == 0 {
        assert(s.subrange(0, s.len() as int) =~= s);
    } else {
        assert(is_space_char(s[0]));
        let t = s.drop_first();
        assert(forall|j: int| 0 <= j < k - 1 ==> is_space_char(t[j]));
        lemma_trim_front_at(t, k - 1);
        assert(t.subrange(k - 1, t.len() as int) =~= s.subrange(k, s.len() as int));
    }
}

/// A suffix of whitespace preceded by a non-space character (or the start)
/// pins down `trim_back_spec`: it is the front of the sequence.
proof fn lemma_trim_back_at(s: Seq<char>, k: int)
    requires
        0 <= k <= s.len(),
        forall|j: int| k <= j < s.len() ==> is_space_char(s[j]),
        k > 0 ==> !is_space_char(s[k - 1]),
    ensures
        trim_back_spec(s) == s.subrange(0, k),
    decreases s.len() - k,
{
    if k == s.len() {
        assert(s.subrange(0, s.len() as int) =~= s);
    } else {
        assert(is_space_char(s.last()));
        let t = s.drop_last();
        lemma_trim_back_at(t, k);
        assert(t.subrange(0, k) =~= s.subrange(0, k));
    }
}

/// All characters are digits or dots, there is at most one dot, and at
/// least one digit: the body of a decimal numeral.
pub open spec fn numeral_ok(s: Seq<char>) -> bool {
    &&& forall|i: int| 0 <= i < s.len() ==> is_digit_char(s[i]) || s[i] == '.'
    &&& forall|i: int, j: int|
        0 <= i < s.len() && 0 <= j < s.len() && s[i] == '.' && s[j] == '.' ==> i == j
    &&& exists|i: int| 0 <= i < s.len() && is_digit_char(s[i])
}

/// Some digit other than `'0'` occurs: the numeral's value is not zero.
pub open spec fn has_nonzero_digit(s: Seq<char>) -> bool {
    exists|i: int| 0 <= i < s.len() && is_digit_char(s[i]) && s[i] != '0'
}

/// The numeral after an optional leading sign.
pub open spec fn magnitude(s: Seq<char>) -> Seq<char> {
    if s.len() > 0 && (s[0] == '+' || s[0] == '-') {
        s.drop_first()
    } else {
        s
    }
}

/// An optional sign followed by a decimal numeral, such as `"7"`, `"3.5"`,
/// `".5"`, `"-0.2"`: the texts the catalogue accepts as numbers.
pub open spec fn is_number_text(s: Seq<char>) -> bool {
    numeral_ok(magnitude(s))
}

/// A number text whose value is strictly positive: unsigned or `'+'`-signed,
/// with some nonzero digit.
pub open spec fn is_positive_number_text(s: Seq<char>) -> bool {
    &&& is_number_text(s)
    &&& !(s.len() > 0 && s[0] == '-')
    &&& has_nonzero_digit(magnitude(s))
}

/// How a dimension buffer fares as a number: not a number at all, a number
/// that is zero or negative, or a positive number.
#[derive(Debug, Clone, Copy, PartialEq, Eq, Structural)]
pub enum DimCheck {
    Invalid,
    NonPositive,
    Positive,
}

/// Classifies `s` against the number grammar above.
pub fn classify_dimension(s: &str) -> (r: DimCheck)
    ensures
        (r is Invalid) <==> !is_number_text(s@),
        (r is Positive) <==> is_positive_number_text(s@),
{
    let len = s.unicode_len();
    let ghost m = magnitude(s@);
    let (start, neg): (usize, bool) = if len > 0 {
        let c0 = s.get_char(0);
        if c0 == '+' {
            (1, false)
        } else if c0 == '-' {
            (1, true)
        } else {
            (0, false)
        }
    } else {
        (0, false)
    };
    proof {
        assert(m.len() == len - start);
        assert(forall|j: int| 0 <= j < m.len() ==> m[j] == s@[start + j]);
    }
    let mut i: usize = start;
    let mut all_ok = true;
    let mut seen_dot = false;
    let mut two_dots = false;
    let mut seen_digit = false;
    let mut seen_nonzero = false;
    while i < len
        invariant
            start <= i <= len,
            len == s@.len(),
            start <= len,
            m.len() == len - start,
            forall|j: int| 0 <= j < m.len() ==> m[j] == s@[start + j],
            all_ok == forall|j: int|
                0 <= j < i - start ==> is_digit_char(m[j]) || m[j] == '.',
            seen_dot == exists|j: int| 0 <= j < i - start && m[j] == '.',
            two_dots == exists|j: int, k: int|
                0 <= j < k < i - start && m[j] == '.' && m[k] == '.',
            seen_digit == exists|j: int| 0 <= j < i - start && is_digit_char(m[j]),
            seen_nonzero == exists|j: int|
                0 <= j < i - start && is_digit_char(m[j]) && m[j] != '0',
        decreases len - i,
    {
        let c = s.get_char(i);
        let ghost jj = i - start;
        proof {
            assert(m[jj as int] == c);
        }
        if is_digit(c) {
            seen_digit = true;
            if c != '0' {
                seen_nonzero = true;
            }
        } else if c == '.' {
            if seen_dot {
                two_dots = true;
            }
            seen_dot = true;
        } else {
            all_ok = false;
        }
        i = i + 1;
    }
    let valid = all_ok && seen_digit && !two_dots;
    proof {
        if valid {
            assert(forall|j: int, k: int|
                0 <= j < m.len() && 0 <= k < m.len() && m[j] == '.' && m[k] == '.'
                    ==> j == k) by {
                assert(!(exists|j: int, k: int|
                    0 <= j < k < m.len() && m[j] == '.' && m[k] == '.'));
            }
            assert(numeral_ok(m));
        }
        assert(valid <==> is_number_text(s@));
    }
    if !valid {
        DimCheck::Invalid
    } else if neg || !seen_nonzero {
        DimCheck::NonPositive
    } else {
        DimCheck::Positive
    }
}

/// `needle` occurs as a contiguous run of characters inside `hay`.
pub open spec fn contains_seq(hay: Seq<char>, needle: Seq<char>) -> bool {
    exists|i: int|
        0 <= i <= hay.len() - needle.len()
            && #[trigger] hay.subrange(i, i + needle.len() as int) == needle
}

/// `needle` matches the characters of `hay` starting at position `at`.
fn matches_at(hay: &str, needle: &str, at: usize) -> (r: bool)
    requires
        at + needle@.len() <= hay@.len(),
    ensures
        r == (hay@.subrange(at as int, at + needle@.len()) == needle@),
{
    let hlen = hay.unicode_len();
    let nlen = needle.unicode_len();
    let ghost sub = hay@.subrange(at as int, at + needle@.len());
    let mut j: usize = 0;
    while j < nlen
        invariant
            j <= nlen,
            nlen == needle@.len(),
            hlen == hay@.len(),
            at + nlen <= hlen,
            sub == hay@.subrange(at as int, at + needle@.len()),
            forall|k: int| 0 <= k < j ==> hay@[at + k] == needle@[k],
        decreases nlen - j,
    {
        if hay.get_char(at + j) != needle.get_char(j) {
            proof {
                assert(sub[j as int] == hay@[at + j]);
            }
            return false;
        }
        j = j + 1;
    }
    proof {
        assert(sub =~= needle@);
    }
    true
}

/// Substring search, verified against `contains_seq`.
pub fn contains_str(hay: &str, needle: &str) -> (r: bool)
    ensures
        r == contains_seq(hay@, needle@),
{
    let hlen = hay.unicode_len();
    let nlen = needle.unicode_len();
    if nlen > hlen {
        return false;
    }
    if nlen == 0 {
        proof {
            assert(contains_seq(hay@, needle@)) by {
                assert(hay@.subrange(0, 0 + needle@.len() as int) =~= needle@);
            }
        }
        return true;
    }
    let limit = hlen - nlen;
    let mut i: usize = 0;
    while i <= limit
        invariant
            i <= limit + 1,
            limit == hlen - nlen,
            1 <= nlen <= hlen,
            hlen == hay@.len(),
            nlen == needle@.len(),
            forall|k: int|
                0 <= k < i ==> #[trigger] hay@.subrange(k, k + needle@.len()) != needle@,
        decreases limit + 1 - i,
    {
        if matches_at(hay, needle, i) {
            return true;
        }
        i = i + 1;
    }
    false
}

/// What `trim_front_spec` leaves never starts with whitespace.
proof fn lemma_trim_front_no_lead(s: Seq<char>)
    ensures
        trim_front_spec(s).len() > 0 ==> !is_space_char(trim_front_spec(s)[0]),
    decreases s.len(),
{
    if s.len() > 0 && is_space_char(s[0]) {
        lemma_trim_front_no_lead(s.drop_first());
    }
}

/// What `trim_back_spec` leaves never ends with whitespace, and is a prefix
/// of the sequence it was taken from.
proof fn lemma_trim_back_props(s: Seq<char>)
    ensures
        trim_back_spec(s).len() > 0 ==> !is_space_char(trim_back_spec(s).last()),
        trim_back_spec(s).len() <= s.len(),
        trim_back_spec(s) == s.subrange(0, trim_back_spec(s).len() as int),
    decreases s.len(),
{
    if s.len() > 0 && is_space_char(s.last()) {
        let t = s.drop_last();
        lemma_trim_back_props(t);
        assert(t.subrange(0, trim_back_spec(t).len() as int)
            =~= s.subrange(0, trim_back_spec(t).len() as int));
    } else {
        assert(s.subrange(0, s.len() as int) =~= s);
    }
}

/// Trimming what is already trimmed changes nothing.
pub proof fn lemma_trim_idempotent(s: Seq<char>)
    ensures
        trim_spec(trim_spec(s)) == trim_spec(s),
{
    let u = trim_front_spec(s);
    let t = trim_back_spec(u);
    lemma_trim_front_no_lead(s);
    lemma_trim_back_props(u);
    if t.len() > 0 {
        assert(t[0] == u.subrange(0, t.len() as int)[0]);
        assert(t[0] == u[0]);
        assert(!is_space_char(t[0]));
    }
    assert(trim_front_spec(t) == t);
    assert(trim_back_spec(t) == t);
}

/// The copy of `s` with leading and trailing whitespace removed.
pub fn trimmed(s: &str) -> (r: String)
    ensures
        r@ == trim_spec(s@),
{
    let len = s.unicode_len();
    let mut lo: usize = 0;
    while lo < len && is_space(s.get_char(lo))
        invariant
            lo <= len,
            len == s@.len(),
            forall|j: int| 0 <= j < lo ==> is_space_char(s@[j]),
        decreases len - lo,
    {
        lo = lo + 1;
    }
    proof {
        lemma_trim_front_at(s@, lo as int);
    }
    let mut hi: usize = len;
    while hi > lo && is_space(s.get_char(hi - 1))
        invariant
            lo <= hi <= len,
            len == s@.len(),
            forall|j: int| 0 <= j < lo ==> is_space_char(s@[j]),
            forall|j: int| hi <= j < len ==> is_space_char(s@[j]),
        decreases hi,
    {
        hi = hi - 1;
    }
    proof {
        let m = s@.subrange(lo as int, len as int);
        assert(forall|j: int| hi - lo <= j < m.len() ==> is_space_char(m[j]));
        assert(hi > lo ==> !is_space_char(m[hi - lo - 1]));
        lemma_trim_back_at(m, hi - lo);
        assert(m.subrange(0, hi - lo) =~= s@.subrange(lo as int, hi as int));
    }
    let mid = s.substring_char(lo, hi);
    String::from_str(mid)
}

/// The lowercase form of a character sequence, as the standard library's
/// `to_lowercase` computes it from the characters alone.
pub uninterp spec fn lower_of(s: Seq<char>) -> Seq<char>;

/// Relies on `str::to_lowercase` for the Unicode lowercase mapping; the
/// result depends on the characters alone, and an empty string stays empty.
#[verifier::external_body]
pub(crate) fn to_lower(s: &str) -> (r: String)
    ensures
        r@ == lower_of(s@),
        s@.len() == 0 ==> r@.len() == 0,
{
    s.to_lowercase()
}

/// Relies on `String::push`: appends the given character to the end.
#[verifier::external_body]
pub(crate) fn push_char(s: &mut String, c: char)
    ensures
        final(s)@ == old(s)@.push(c),
{
    s.push(c)
}

/// Relies on `String::pop`: removes and returns the last character, or
/// returns `None` and leaves the string as it was when it is empty.
#[verifier::external_body]
pub(crate) fn pop_char(s: &mut String) -> (r: Option<char>)
    ensures
        old(s)@.len() == 0 ==> final(s)@ == old(s)@ && r is None,
        old(s)@.len() > 0 ==> final(s)@ == old(s)@.drop_last() && r == Some(old(s)@.last()),
{
    s.pop()
}

} // verus!
