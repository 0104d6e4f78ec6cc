//! Small verified string utilities shared by the whole crate: character-level
//! equality and substring tests, ASCII case folding, and decimal rendering of
//! integers.

use vstd::prelude::*;

verus! {

/// The decimal digit character for a value below ten.
pub open spec fn dec_digit(d: int) -> char
    recommends
        0 <= d < 10,
{
    if d == 0 {
        '0'
    } else if d == 1 {
        '1'
    } else if d == 2 {
        '2'
    } else if d == 3 {
        '3'
    } else if d == 4 {
        '4'
    } else if d == 5 {
        '5'
    } else if d == 6 {
        '6'
    } else if d == 7 {
        '7'
    } else if d == 8 {
        '8'
    } else {
        '9'
    }
}

/// Decimal rendering of a natural number, most significant digit first.
pub open spec fn spec_dec(n: nat) -> Seq<char>
    decreases n,
{
    if n < 10 {
        seq![dec_digit(n as int)]
    } else {
        spec_dec(n / 10).push(dec_digit((n % 10) as int))
    }
}

fn dec_digit_char(d: u64) -> (c: char)
    requires
        d < 10,
    ensures
        c == dec_digit(d as int),
{
    if d == 0 {
        '0'
    } else if d == 1 {
        '1'
    } else if d == 2 {
        '2'
    } else if d == 3 {
        '3'
    } else if d == 4 {
        '4'
    } else if d == 5 {
        '5'
    } else if d == 6 {
        '6'
    } else if d == 7 {
        '7'
    } else if d == 8 {
        '8'
    } else {
        '9'
    }
}

/// Relies on std's `String::push`: appends one character.
#[verifier::external_body]
pub fn push_char(s: &mut String, c: char)
    ensures
        final(s)@ == old(s)@.push(c),
{
    s.push(c);
}

/// Renders an integer in decimal.
pub fn dec_string(n: u64) -> (s: String)
    ensures
        s@ == spec_dec(n as nat),
{
    let mut s = String::new();
    dec_append(&mut s, n);
    assert(s@ =~= spec_dec(n as nat));
    s
}

fn dec_append(s: &mut String, n: u64)
    ensures
        final(s)@ == old(s)@ + spec_dec(n as nat),
    decreases n,
{
    if n < 10 {
        push_char(s, dec_digit_char(n));
        assert(s@ =~= old(s)@ + spec_dec(n as nat));
    } else {
        dec_append(s, n / 10);
        push_char(s, dec_digit_char(n % 10));
        assert(s@ =~= old(s)@ + spec_dec(n as nat));
    }
}

/// Character-level equality of two string slices.
pub fn str_eq(a: &str, b: &str) -> (r: bool)
    ensures
        r == (a@ == b@),
{
    let alen = a.unicode_len();
    let blen = b.unicode_len();
    if alen != blen {
        assert(a@ != b@);
        return false;
    }
    let mut i: usize = 0;
    while i < alen
        invariant
            i <= alen,
            alen == a@.len(),
            alen == b@.len(),
            forall|j: int| 0 <= j < i ==> a@[j] == b@[j],
        decreases alen - i,
    {
        if a.get_char(i) != b.get_char(i) {
            assert(a@ != b@);
            return false;
        }
        i = i + 1;
    }
    assert(a@ =~= b@);
    true
}

/// Whether `sub` occurs in `s` starting at position `i`.
pub open spec fn occurs_at(s: Seq<char>, sub: Seq<char>, i: int) -> bool {
    0 <= i && i + sub.len() <= s.len() && s.subrange(i, i + sub.len() as int) == sub
}

/// Whether `sub` occurs anywhere in `s`.
pub open spec fn has_substring(s: Seq<char>, sub: Seq<char>) -> bool {
    exists|i: int| occurs_at(s, sub, i)
}

fn match_at(s: &str, sub: &str, i: usize) -> (r: bool)
    requires
        i + sub@.len() <= s@.len() <= usize::MAX,
    ensures
        r == occurs_at(s@, sub@, i as int),
{
    let sublen = sub.unicode_len();
    let mut j: usize = 0;
    while j < sublen
        invariant
            j <= sublen,
            sublen == sub@.len(),
            i + sublen <= s@.len() <= usize::MAX,
            forall|k: int| 0 <= k < j ==> s@[i + k] == sub@[k],
        decreases sublen - j,
    {
        if s.get_char(i + j) != sub.get_char(j) {
            assert(!occurs_at(s@, sub@, i as int)) by {
                assert(s@.subrange(i as int, i + sub@.len() as int)[j as int] == s@[i + j]);
            }
            return false;
        }
        j = j + 1;
    }
    assert(s@.subrange(i as int, i + sub@.len() as int) =~= sub@);
    true
}

/// Substring search by character comparison.
pub fn contains_sub(s: &str, sub: &str) -> (r: bool)
    ensures
        r == has_substring(s@, sub@),
{
    let slen = s.unicode_len();
    let sublen = sub.unicode_len();
    if sublen > slen {
        assert(!has_substring(s@, sub@)) by {
            assert(forall|i: int| !occurs_at(s@, sub@, i));
        }
        return false;
    }
    if sublen == 0 {
        assert(occurs_at(s@, sub@, 0)) by {
            assert(s@.subrange(0, 0) =~= sub@);
        }
        return true;
    }
    let mut i: usize = 0;
    while i <= slen - sublen
        invariant
            slen == s@.len(),
            sublen == sub@.len(),
            0 < sublen <= slen,
            i <= slen - sublen + 1,
            forall|k: int| 0 <= k < i ==> !occurs_at(s@, sub@, k),
        decreases slen - i,
    {
        if match_at(s, sub, i) {
            return true;
        }
        i = i + 1;
    }
    assert(!has_substring(s@, sub@)) by {
        assert(forall|k: int| occurs_at(s@, sub@, k) ==> 0 <= k < i);
    }
    false
}

/// Whether `s` begins with `pre`.
pub open spec fn spec_starts_with(s: Seq<char>, pre: Seq<char>) -> bool {
    occurs_at(s, pre, 0)
}

/// Whether `s` ends with `suf`.
pub open spec fn spec_ends_with(s: Seq<char>, suf: Seq<char>) -> bool {
    occurs_at(s, suf, s.len() - suf.len())
}

/// Prefix test by character comparison.
pub fn str_starts_with(s: &str, pre: &str) -> (r: bool)
    ensures
        r == spec_starts_with(s@, pre@),
{
    let slen = s.unicode_len();
    let prelen = pre.unicode_len();
    if prelen > slen {
        return false;
    }
    let mut j: usize = 0;
    while j < prelen
        invariant
            j <= prelen,
            slen == s@.len(),
            prelen == pre@.len(),
            prelen <= slen,
            forall|k: int| 0 <= k < j ==> s@[k] == pre@[k],
        decreases prelen - j,
    {
        if s.get_char(j) != pre.get_char(j) {
            assert(!spec_starts_with(s@, pre@)) by {
                assert(s@.subrange(0, pre@.len() as int)[j as int] == s@[j as int]);
            }
            return false;
        }
        j = j + 1;
    }
    assert(s@.subrange(0, pre@.len() as int) =~= pre@);
    true
}

/// Suffix test by character comparison.
pub fn str_ends_with(s: &str, suf: &str) -> (r: bool)
    ensures
        r == spec_ends_with(s@, suf@),
{
    let slen = s.unicode_len();
    let suflen = suf.unicode_len();
    if suflen > slen {
        return false;
    }
    let off = slen - suflen;
    let mut j: usize = 0;
    while j < suflen
        invariant
            j <= suflen,
            slen == s@.len(),
            suflen == suf@.len(),
            off == slen - suflen,
            forall|k: int| 0 <= k < j ==> s@[off + k] == suf@[k],
        decreases suflen - j,
    {
        if s.get_char(off + j) != suf.get_char(j) {
            assert(!spec_ends_with(s@, suf@)) by {
                assert(s@.subrange(off as int, off + suf@.len() as int)[j as int] == s@[off + j]);
            }
            return false;
        }
        j = j + 1;
    }
    assert(s@.subrange(off as int, off + suf@.len() as int) =~= suf@);
    true
}

/// ASCII lower-casing of one character; every other character is unchanged.
pub open spec fn lower_char(c: char) -> char {
    if 'A' <= c && c <= 'Z' {
        ((c as u8) + 32) as char
    } else {
        c
    }
}

/// ASCII lower-casing of a character sequence.
pub open spec fn spec_lower(s: Seq<char>) -> Seq<char> {
    s.map_values(|c: char| lower_char(c))
}

fn lower_char_exec(c: char) -> (r: char)
    ensures
        r == lower_char(c),
{
    if 'A' <= c && c <= 'Z' {
        (((c as u8) + 32) as char)
    } else {
        c
    }
}

/// ASCII lower-casing of a string; non-ASCII characters are unchanged.
pub fn to_ascii_lowercase(s: &str) -> (r: String)
    ensures
        r@ == spec_lower(s@),
{
    let len = s.unicode_len();
    let mut out = String::new();
    let mut i: usize = 0;
    while i < len
        invariant
            i <= len,
            len == s@.len(),
            out@ =~= spec_lower(s@.subrange(0, i as int)),
        decreases len - i,
    {
        push_char(&mut out, lower_char_exec(s.get_char(i)));
        assert(out@ =~= spec_lower(s@.subrange(0, i + 1))) by {
            assert(s@.subrange(0, i + 1) =~= s@.subrange(0, i as int).push(s@[i as int]));
        }
        i = i + 1;
    }
    assert(s@.subrange(0, len as int) =~= s@);
    out
}


/// Whether a character is ASCII whitespace.
pub open spec fn is_ascii_ws(c: char) -> bool {
    c == ' ' || c == '\t' || c == '\n' || c == '\r'
}

/// A sequence with its leading whitespace removed.
pub open spec fn spec_trim_front(s: Seq<char>) -> Seq<char>
    decreases s.len(),
{
    if s.len() > 0 && is_ascii_ws(s[0]) {
        spec_trim_front(s.skip(1))
    } else {
        s
    }
}

/// A sequence with its trailing whitespace removed.
pub open spec fn spec_trim_back(s: Seq<char>) -> Seq<char>
    decreases s.len(),
{
    if s.len() > 0 && is_ascii_ws(s.last()) {
        spec_trim_back(s.take(s.len() - 1))
    } else {
        s
    }
}

/// A sequence with whitespace removed from both ends.
pub open spec fn spec_trim(s: Seq<char>) -> Seq<char> {
    spec_trim_back(spec_trim_front(s))
}

proof fn lemma_trim_front_skip(s: Seq<char>, k: int)
    requires
        0 <= k <= s.len(),
        forall|j: int| 0 <= j < k ==> is_ascii_ws(#[trigger] s[j]),
        k == s.len() || !is_ascii_ws(s[k]),
    ensures
        spec_trim_front(s) == s.skip(k),
    decreases k,
{
    if k == 0 {
        assert(s.skip(0) =~= s);
    } else {
        lemma_trim_front_skip(s.skip(1), k - 1);
        assert(s.skip(1).skip(k - 1) =~= s.skip(k));
    }
}

proof fn lemma_trim_back_take(s: Seq<char>, m: int)
    requires
        0 <= m <= s.len(),
        forall|j: int| m <= j < s.len() ==> is_ascii_ws(#[trigger] s[j]),
        m == 0 || !is_ascii_ws(s[m - 1]),
    ensures
        spec_trim_back(s) == s.take(m),
    decreases s.len() - m,
{
    if m == s.len() {
        assert(s.take(m) =~= s);
    } else {
        assert(is_ascii_ws(s.last()));
        lemma_trim_back_take(s.take(s.len() - 1), m);
        assert(s.take(s.len() - 1).take(m) =~= s.take(m));
    }
}

fn is_ws_char(c: char) -> (r: bool)
    ensures
        r == is_ascii_ws(c),
{
    c == ' ' || c == '\t' || c == '\n' || c == '\r'
}

/// Removes ASCII whitespace from both ends of a string.
pub fn trim_ascii(s: &str) -> (r: String)
    ensures
        r@ == spec_trim(s@),
{
    let len = s.unicode_len();
    let mut a: usize = 0;
    while a < len && is_ws_char(s.get_char(a))
        invariant
            a <= len,
            len == s@.len(),
            forall|j: int| 0 <= j < a ==> is_ascii_ws(#[trigger] s@[j]),
        decreases len - a,
    {
        a = a + 1;
    }
    proof {
        lemma_trim_front_skip(s@, a as int);
    }
    if a == len {
        assert(s@.skip(a as int) =~= Seq::<char>::empty());
        assert(spec_trim(s@) =~= Seq::<char>::empty());
        return String::new();
    }
    let mut b: usize = len;
    while b > a + 1 && is_ws_char(s.get_char(b - 1))
        invariant
            a < b <= len,
            len == s@.len(),
            forall|j: int| b <= j < len ==> is_ascii_ws(#[trigger] s@[j]),
        decreases b,
    {
        b = b - 1;
    }
    // the character before `b` is not whitespace: either the loop stopped on
    // it, or `b` sits just past the first non-whitespace character
    assert(!is_ascii_ws(s@[b - 1]));
    proof {
        let front = s@.skip(a as int);
        lemma_trim_back_take(front, b - a);
        assert(front.take(b - a) =~= s@.subrange(a as int, b as int));
    }
    let out = s.substring_char(a, b);
    out.to_owned()
}

} // verus!
