//! Character-sequence utilities the supervisor's parsing and rendering rest
//! on: substring search, ASCII case folding, whitespace trimming, string
//! equality, and decimal rendering of integers.

use vstd::prelude::*;
use vstd::string::StrSliceExecFns;
use vstd::string::StringExecFns;

verus! {

/// ASCII case folding of a single character: `'A'..='Z'` map to
/// `'a'..='z'`, everything else is unchanged.
pub open spec fn lower_char(c: char) -> char {
    if 65 <= c as u32 && c as u32 <= 90 {
        (((c as u32) + 32) as u8) as char
    } else {
        c
    }
}

/// ASCII case folding applied to every character of a sequence.
pub open spec fn lower_seq(s: Seq<char>) -> Seq<char> {
    s.map_values(|c: char| lower_char(c))
}

/// The needle `n` occurs in `h` starting at position `i`.
pub open spec fn matches_at(h: Seq<char>, n: Seq<char>, i: int) -> bool {
    forall|j: int| 0 <= j < n.len() ==> h[i + j] == n[j]
}

/// The needle `n` occurs somewhere in `h`.
pub open spec fn contains_seq(h: Seq<char>, n: Seq<char>) -> bool {
    exists|i: int| 0 <= i && i + n.len() <= h.len() && matches_at(h, n, i)
}

/// ASCII case folding of one character.
pub fn lower_char_exec(c: char) -> (r: char)
    ensures
        r == lower_char(c),
{
    let u = c as u32;
    if 65 <= u && u <= 90 {
        ((u + 32) as u8) as char
    } else {
        c
    }
}

fn match_at(h: &str, n: &str, i: usize, hlen: usize, nlen: usize) -> (r: bool)
    requires
        hlen == h@.len(),
        nlen == n@.len(),
        i + nlen <= hlen,
    ensures
        r == matches_at(h@, n@, i as int),
{
    let mut j: usize = 0;
    while j < nlen
        invariant
            hlen == h@.len(),
            nlen == n@.len(),
            i + nlen <= hlen,
            j <= nlen,
            forall|k: int| 0 <= k < j ==> h@[i + k] == n@[k],
        decreases nlen - j,
    {
        if h.get_char(i + j) != n.get_char(j) {
            return false;
        }
        j += 1;
    }
    true
}

/// Whether the needle `n` occurs in `h` (character-wise substring search).
pub fn contains_substring(h: &str, n: &str) -> (r: bool)
    ensures
        r == contains_seq(h@, n@),
{
    let hlen = h.unicode_len();
    let nlen = n.unicode_len();
    if nlen > hlen {
        return false;
    }
    let mut i: usize = 0;
    while i <= hlen - nlen
        invariant
            hlen == h@.len(),
            nlen == n@.len(),
            nlen <= hlen,
            i <= hlen - nlen + 1,
            forall|k: int| 0 <= k < i ==> !matches_at(h@, n@, k),
        decreases hlen - nlen - i + 1,
    {
        if match_at(h, n, i, hlen, nlen) {
            return true;
        }
        i += 1;
    }
    false
}

fn match_at_lower(h: &str, n: &str, i: usize, hlen: usize, nlen: usize) -> (r: bool)
    requires
        hlen == h@.len(),
        nlen == n@.len(),
        i + nlen <= hlen,
    ensures
        r == matches_at(lower_seq(h@), n@, i as int),
{
    let mut j: usize = 0;
    while j < nlen
        invariant
            hlen == h@.len(),
            nlen == n@.len(),
            i + nlen <= hlen,
            j <= nlen,
            forall|k: int| 0 <= k < j ==> lower_seq(h@)[i + k] == n@[k],
        decreases nlen - j,
    {
        let hc = lower_char_exec(h.get_char(i + j));
        let nc = n.get_char(j);
        assert(lower_seq(h@)[i + j] == lower_char(h@[i + j]));
        if hc != nc {
            return false;
        }
        j += 1;
    }
    true
}

/// Whether the needle `n` occurs in the ASCII-lowercased form of `h`.
/// The needle is matched as given; callers pass it already in lower case.
pub fn contains_lowered(h: &str, n: &str) -> (r: bool)
    ensures
        r == contains_seq(lower_seq(h@), n@),
{
    let hlen = h.unicode_len();
    let nlen = n.unicode_len();
    if nlen > hlen {
        return false;
    }
    let mut i: usize = 0;
    while i <= hlen - nlen
        invariant
            hlen == h@.len(),
            nlen == n@.len(),
            nlen <= hlen,
            i <= hlen - nlen + 1,
            forall|k: int| 0 <= k < i ==> !matches_at(lower_seq(h@), n@, k),
        decreases hlen - nlen - i + 1,
    {
        if match_at_lower(h, n, i, hlen, nlen) {
            return true;
        }
        i += 1;
    }
    false
}

/// A character with the Unicode `White_Space` property, the set `str::trim`
/// strips.
pub open spec fn is_ws_char(c: char) -> bool {
    let u = c as u32;
    ||| u == 0x09
    ||| u == 0x0A
    ||| u == 0x0B
    ||| u == 0x0C
    ||| u == 0x0D
    ||| u == 0x20
    ||| u == 0x85
    ||| u == 0xA0
    ||| u == 0x1680
    ||| (0x2000 <= u && u <= 0x200A)
    ||| u == 0x2028
    ||| u == 0x2029
    ||| u == 0x202F
    ||| u == 0x205F
    ||| u == 0x3000
}

/// Every character of `s` is whitespace (an empty `s` counts).
pub open spec fn all_ws(s: Seq<char>) -> bool {
    forall|i: int| 0 <= i < s.len() ==> is_ws_char(s[i])
}

/// `s` with leading whitespace removed.
pub open spec fn trim_start_seq(s: Seq<char>) -> Seq<char>
    decreases s.len(),
{
    if s.len() > 0 && is_ws_char(s[0]) {
        trim_start_seq(s.drop_first())
    } else {
        s
    }
}

/// `s` with trailing whitespace removed.
pub open spec fn trim_end_seq(s: Seq<char>) -> Seq<char>
    decreases s.len(),
{
    if s.len() > 0 && is_ws_char(s[s.len() - 1]) {
        trim_end_seq(s.drop_last())
    } else {
        s
    }
}

/// `s` with both leading and trailing whitespace removed.
pub open spec fn trim_seq(s: Seq<char>) -> Seq<char> {
    trim_end_seq(trim_start_seq(s))
}

/// Whether `c` has the Unicode `White_Space` property.
pub fn char_is_ws(c: char) -> (r: bool)
    ensures
        r == is_ws_char(c),
{
    let u = c as u32;
    u == 0x09 || u == 0x0A || u == 0x0B || u == 0x0C || u == 0x0D || u == 0x20 || u == 0x85
        || u == 0xA0 || u == 0x1680 || (0x2000 <= u && u <= 0x200A) || u == 0x2028 || u == 0x2029
        || u == 0x202F || u == 0x205F || u == 0x3000
}

proof fn lemma_trim_start_prefix(s: Seq<char>, a: int)
    requires
        0 <= a <= s.len(),
        forall|i: int| 0 <= i < a ==> is_ws_char(s[i]),
        a == s.len() || !is_ws_char(s[a]),
    ensures
        trim_start_seq(s) =~= s.subrange(a, s.len() as int),
    decreases a,
{
    if a == 0 {
        if s.len() > 0 && is_ws_char(s[0]) {
            assert(false);
        }
        assert(trim_start_seq(s) =~= s.subrange(0, s.len() as int));
    } else {
        let t = s.drop_first();
        assert(forall|i: int| 0 <= i < a - 1 ==> t[i] == s[i + 1]);
        lemma_trim_start_prefix(t, a - 1);
        assert(t.subrange(a - 1, t.len() as int) =~= s.subrange(a, s.len() as int));
    }
}

proof fn lemma_trim_end_suffix(s: Seq<char>, b: int)
    requires
        0 <= b <= s.len(),
        forall|i: int| b <= i < s.len() ==> is_ws_char(s[i]),
        b == 0 || !is_ws_char(s[b - 1]),
    ensures
        trim_end_seq(s) =~= s.subrange(0, b),
    decreases s.len() - b,
{
    if b == s.len() {
        if s.len() > 0 && is_ws_char(s[s.len() - 1]) {
            assert(false);
        }
        assert(trim_end_seq(s) =~= s.subrange(0, b));
    } else {
        let t = s.drop_last();
        lemma_trim_end_suffix(t, b);
        assert(t.subrange(0, b) =~= s.subrange(0, b));
    }
}

/// `s` with leading and trailing whitespace removed, as `str::trim` strips it.
pub fn str_trim<'a>(s: &'a str) -> (r: &'a str)
    ensures
        r@ == trim_seq(s@),
{
    let len = s.unicode_len();
    let mut a: usize = 0;
    while a < len && char_is_ws(s.get_char(a))
        invariant
            len == s@.len(),
            a <= len,
            forall|i: int| 0 <= i < a ==> is_ws_char(s@[i]),
        decreases len - a,
    {
        a += 1;
    }
    let mut b: usize = len;
    while b > a && char_is_ws(s.get_char(b - 1))
        invariant
            len == s@.len(),
            a <= b <= len,
            forall|i: int| 0 <= i < a ==> is_ws_char(s@[i]),
            forall|i: int| b <= i < len ==> is_ws_char(s@[i]),
        decreases b,
    {
        b -= 1;
    }
    proof {
        lemma_trim_start_prefix(s@, a as int);
        let t = s@.subrange(a as int, s@.len() as int);
        if b == a {
            lemma_trim_end_suffix(t, 0);
        } else {
            lemma_trim_end_suffix(t, b - a);
        }
        assert(t.subrange(0, b - a) =~= s@.subrange(a as int, b as int));
    }
    s.substring_char(a, b)
}

proof fn lemma_trim_start_all_ws(s: Seq<char>)
    requires
        all_ws(s),
    ensures
        trim_start_seq(s) =~= Seq::<char>::empty(),
    decreases s.len(),
{
    if s.len() > 0 {
        assert(is_ws_char(s[0]));
        let t = s.drop_first();
        assert(forall|i: int| 0 <= i < t.len() ==> t[i] == s[i + 1]);
        lemma_trim_start_all_ws(t);
    }
}

proof fn lemma_trim_start_not_all_ws(s: Seq<char>)
    requires
        !all_ws(s),
    ensures
        trim_start_seq(s).len() > 0,
        !is_ws_char(trim_start_seq(s)[0]),
    decreases s.len(),
{
    assert(s.len() > 0);
    if is_ws_char(s[0]) {
        let t = s.drop_first();
        assert(!all_ws(t)) by {
            let w = choose|i: int| 0 <= i < s.len() && !is_ws_char(s[i]);
            assert(t[w - 1] == s[w]);
        }
        lemma_trim_start_not_all_ws(t);
    }
}

proof fn lemma_trim_end_keeps_head(s: Seq<char>)
    requires
        s.len() > 0,
        !is_ws_char(s[0]),
    ensures
        trim_end_seq(s).len() > 0,
    decreases s.len(),
{
    if is_ws_char(s[s.len() - 1]) {
        let t = s.drop_last();
        assert(t[0] == s[0]);
        lemma_trim_end_keeps_head(t);
    }
}

/// The trimmed form of `s` is empty exactly when `s` is all whitespace.
pub proof fn lemma_trim_empty_iff_all_ws(s: Seq<char>)
    ensures
        (trim_seq(s).len() == 0) <==> all_ws(s),
{
    if all_ws(s) {
        lemma_trim_start_all_ws(s);
    } else {
        lemma_trim_start_not_all_ws(s);
        lemma_trim_end_keeps_head(trim_start_seq(s));
    }
}

/// The decimal digit `d` as a character; defined for `0 <= d <= 9`.
pub open spec fn dec_digit_char(d: int) -> char {
    if d == 0 {
        '0'
    } else if d == 1 {
        '1'
    } else if d == 2 {
        '2'
    } else if d == 3 {
        '3'
    } else if d == 4 {
        '4'
    } else if d == 5 {
        '5'
    } else if d == 6 {
        '6'
    } else if d == 7 {
        '7'
    } else if d == 8 {
        '8'
    } else {
        '9'
    }
}

/// The decimal rendering of `n`, most significant digit first, no sign and
/// no leading zeroes (except for `n == 0` itself).
pub open spec fn dec_seq(n: nat) -> Seq<char>
    decreases n,
{
    if n < 10 {
        seq![dec_digit_char(n as int)]
    } else {
        dec_seq(n / 10) + seq![dec_digit_char((n % 10) as int)]
    }
}

fn digit_str(d: u128) -> (r: &'static str)
    requires
        d < 10,
    ensures
        r@ =~= seq![dec_digit_char(d as int)],
{
    proof {
        reveal_strlit("0");
        reveal_strlit("1");
        reveal_strlit("2");
        reveal_strlit("3");
        reveal_strlit("4");
        reveal_strlit("5");
        reveal_strlit("6");
        reveal_strlit("7");
        reveal_strlit("8");
        reveal_strlit("9");
    }
    if d == 0 {
        "0"
    } else if d == 1 {
        "1"
    } else if d == 2 {
        "2"
    } else if d == 3 {
        "3"
    } else if d == 4 {
        "4"
    } else if d == 5 {
        "5"
    } else if d == 6 {
        "6"
    } else if d == 7 {
        "7"
    } else if d == 8 {
        "8"
    } else {
        "9"
    }
}

fn push_dec_digits(n: u128, out: &mut String)
    ensures
        final(out)@ == old(out)@ + dec_seq(n as nat),
    decreases n,
{
    if n < 10 {
        out.append(digit_str(n));
    } else {
        push_dec_digits(n / 10, out);
        out.append(digit_str(n % 10));
        proof {
            assert(final(out)@ =~= old(out)@ + dec_seq(n as nat));
        }
    }
}

/// The decimal rendering of `n` as a string.
pub fn u128_to_string(n: u128) -> (r: String)
    ensures
        r@ =~= dec_seq(n as nat),
{
    let mut out = String::new();
    push_dec_digits(n, &mut out);
    out
}

/// The decimal rendering of `n` as a string.
pub fn u64_to_string(n: u64) -> (r: String)
    ensures
        r@ =~= dec_seq(n as nat),
{
    u128_to_string(n as u128)
}

/// Character-wise string equality.
pub fn str_eq(a: &str, b: &str) -> (r: bool)
    ensures
        r == (a@ == b@),
{
    let alen = a.unicode_len();
    let blen = b.unicode_len();
    if alen != blen {
        return false;
    }
    let mut i: usize = 0;
    while i < alen
        invariant
            alen == a@.len(),
            blen == b@.len(),
            alen == blen,
            i <= alen,
            forall|k: int| 0 <= k < i ==> a@[k] == b@[k],
        decreases alen - i,
    {
        if a.get_char(i) != b.get_char(i) {
            return false;
        }
        i += 1;
    }
    proof {
        assert(a@ =~= b@);
    }
    true
}

} // verus!
