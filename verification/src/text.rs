//! Character-level string helpers: substring search, equality, and the
//! specification functions the rest of the crate states its contracts with.

use vstd::prelude::*;

verus! {

/// The needle `n` occurs in the haystack `h` starting at character index `i`.
pub open spec fn matches_at(h: Seq<char>, n: Seq<char>, i: int) -> bool {
    &&& 0 <= i
    &&& i + n.len() <= h.len()
    &&& forall|j: int| 0 <= j < n.len() ==> h[i + j] == n[j]
}

/// Character index of the leftmost occurrence of `n` in `h`, if any.
pub open spec fn find_index(h: Seq<char>, n: Seq<char>) -> Option<int>
    decreases h.len(),
{
    if matches_at(h, n, 0) {
        Some(0)
    } else if h.len() == 0 {
        None
    } else {
        match find_index(h.drop_first(), n) {
            Some(i) => Some(i + 1),
            None => None,
        }
    }
}

/// `n` occurs somewhere in `h`.
pub open spec fn contains_seq(h: Seq<char>, n: Seq<char>) -> bool {
    find_index(h, n) is Some
}

proof fn lemma_matches_at_shift(h: Seq<char>, n: Seq<char>, i: int)
    requires
        h.len() > 0,
        i >= 0,
    ensures
        matches_at(h, n, i + 1) == matches_at(h.drop_first(), n, i),
{
    if matches_at(h, n, i + 1) {
        assert forall|j: int| 0 <= j < n.len() implies h.drop_first()[i + j] == n[j] by {
            assert(h[i + 1 + j] == n[j]);
        }
    }
    if matches_at(h.drop_first(), n, i) {
        assert forall|j: int| 0 <= j < n.len() implies h[i + 1 + j] == n[j] by {
            assert(h.drop_first()[i + j] == n[j]);
        }
    }
}

/// A found index is a real occurrence, and the leftmost one.
pub proof fn lemma_find_index_some(h: Seq<char>, n: Seq<char>, i: int)
    requires
        find_index(h, n) == Some(i),
    ensures
        matches_at(h, n, i),
        forall|k: int| 0 <= k < i ==> !matches_at(h, n, k),
    decreases h.len(),
{
    if matches_at(h, n, 0) {
    } else if h.len() == 0 {
    } else {
        let t = h.drop_first();
        match find_index(t, n) {
            Some(j) => {
                lemma_find_index_some(t, n, j);
                lemma_matches_at_shift(h, n, j);
                assert forall|k: int| 0 <= k < i implies !matches_at(h, n, k) by {
                    if k > 0 {
                        lemma_matches_at_shift(h, n, k - 1);
                    }
                }
            },
            None => {},
        }
    }
}

/// The converse direction: an occurrence that is leftmost is what the search finds.
proof fn lemma_find_index_of_leftmost(h: Seq<char>, n: Seq<char>, i: int)
    requires
        matches_at(h, n, i),
        forall|k: int| 0 <= k < i ==> !matches_at(h, n, k),
    ensures
        find_index(h, n) == Some(i),
    decreases h.len(),
{
    if i == 0 {
    } else {
        assert(!matches_at(h, n, 0));
        assert(h.len() > 0) by {
            assert(i + n.len() <= h.len());
        }
        let t = h.drop_first();
        lemma_matches_at_shift(h, n, i - 1);
        assert forall|k: int| 0 <= k < i - 1 implies !matches_at(t, n, k) by {
            lemma_matches_at_shift(h, n, k);
        }
        lemma_find_index_of_leftmost(t, n, i - 1);
    }
}

/// Any single occurrence witnesses containment.
pub proof fn lemma_contains_of_match(h: Seq<char>, n: Seq<char>, i: int)
    requires
        matches_at(h, n, i),
    ensures
        contains_seq(h, n),
    decreases h.len(),
{
    if matches_at(h, n, 0) {
    } else {
        assert(i > 0);
        assert(h.len() > 0);
        lemma_matches_at_shift(h, n, i - 1);
        lemma_contains_of_match(h.drop_first(), n, i - 1);
    }
}

/// Whether `n` occurs in `h` at character position `i`; the lengths are passed
/// in so repeated scans do not re-measure the strings.
fn occurs_at(h: &str, n: &str, i: usize, hlen: usize, nlen: usize) -> (r: bool)
    requires
        hlen == h@.len(),
        nlen == n@.len(),
        i <= hlen,
    ensures
        r == matches_at(h@, n@, i as int),
{
    if nlen > hlen - i {
        return false;
    }
    let mut j: usize = 0;
    while j < nlen
        invariant
            hlen == h@.len(),
            nlen == n@.len(),
            i + nlen <= hlen,
            j <= nlen,
            forall|k: int| 0 <= k < j ==> h@[i + k] == n@[k],
        decreases nlen - j,
    {
        if h.get_char(i + j) != n.get_char(j) {
            return false;
        }
        j += 1;
    }
    true
}

/// Character index of the leftmost occurrence of `needle` in `hay`, if any.
pub fn find_sub(hay: &str, needle: &str) -> (r: Option<usize>)
    ensures
        match r {
            Some(i) => find_index(hay@, needle@) == Some(i as int),
            None => find_index(hay@, needle@) is None,
        },
{
    let hlen = hay.unicode_len();
    let nlen = needle.unicode_len();
    let mut i: usize = 0;
    while i < hlen
        invariant
            hlen == hay@.len(),
            nlen == needle@.len(),
            i <= hlen,
            forall|k: int| 0 <= k < i ==> !matches_at(hay@, needle@, k),
        decreases hlen - i,
    {
        if occurs_at(hay, needle, i, hlen, nlen) {
            proof {
                lemma_find_index_of_leftmost(hay@, needle@, i as int);
            }
            return Some(i);
        }
        i += 1;
    }
    if occurs_at(hay, needle, hlen, hlen, nlen) {
        proof {
            lemma_find_index_of_leftmost(hay@, needle@, hlen as int);
        }
        return Some(hlen);
    }
    proof {
        assert forall|k: int| !matches_at(hay@, needle@, k) by {
            if 0 <= k && k + needle@.len() <= hay@.len() {
                assert(k <= hay@.len());
            }
        }
        if find_index(hay@, needle@) is Some {
            let w = find_index(hay@, needle@)->Some_0;
            lemma_find_index_some(hay@, needle@, w);
        }
    }
    None
}

/// `needle` occurs somewhere in `hay`.
pub fn contains_sub(hay: &str, needle: &str) -> (r: bool)
    ensures
        r == contains_seq(hay@, needle@),
{
    find_sub(hay, needle).is_some()
}

/// Character-for-character string equality.
pub fn str_eq(a: &str, b: &str) -> (r: bool)
    ensures
        r == (a@ == b@),
{
    let alen = a.unicode_len();
    let blen = b.unicode_len();
    if alen != blen {
        return false;
    }
    let mut i: usize = 0;
    while i < alen
        invariant
            alen == a@.len(),
            alen == b@.len(),
            i <= alen,
            forall|k: int| 0 <= k < i ==> a@[k] == b@[k],
        decreases alen - i,
    {
        if a.get_char(i) != b.get_char(i) {
            return false;
        }
        i += 1;
    }
    proof {
        assert(a@ =~= b@);
    }
    true
}

/// `s` begins with `prefix`.
pub fn starts_with_sub(s: &str, prefix: &str) -> (r: bool)
    ensures
        r == matches_at(s@, prefix@, 0),
{
    let slen = s.unicode_len();
    let plen = prefix.unicode_len();
    if plen > slen {
        return false;
    }
    occurs_at(s, prefix, 0, slen, plen)
}

/// ASCII case folding: uppercase ASCII letters map to lowercase, everything
/// else is unchanged.
pub open spec fn fold_char(c: char) -> char {
    if 65 <= c as int && c as int <= 90 {
        ((c as u8) + 32) as char
    } else {
        c
    }
}

/// `n` occurs in `h` at index `i` up to ASCII case.
pub open spec fn ci_matches_at(h: Seq<char>, n: Seq<char>, i: int) -> bool {
    &&& 0 <= i
    &&& i + n.len() <= h.len()
    &&& forall|j: int| 0 <= j < n.len() ==> fold_char(h[i + j]) == fold_char(n[j])
}

/// `n` occurs somewhere in `h` up to ASCII case.
pub open spec fn contains_ci(h: Seq<char>, n: Seq<char>) -> bool {
    exists|i: int| ci_matches_at(h, n, i)
}

/// The two strings are equal up to ASCII case.
pub open spec fn ci_eq_seq(a: Seq<char>, b: Seq<char>) -> bool {
    a.len() == b.len() && ci_matches_at(a, b, 0)
}

fn fold_char_exec(c: char) -> (r: char)
    ensures
        r == fold_char(c),
{
    let u = c as u32;
    if 65 <= u && u <= 90 {
        (c as u8 + 32) as char
    } else {
        c
    }
}

/// Whether `n` occurs in `h` at position `i` up to ASCII case.
fn ci_occurs_at(h: &str, n: &str, i: usize, hlen: usize, nlen: usize) -> (r: bool)
    requires
        hlen == h@.len(),
        nlen == n@.len(),
        i <= hlen,
    ensures
        r == ci_matches_at(h@, n@, i as int),
{
    if nlen > hlen - i {
        return false;
    }
    let mut j: usize = 0;
    while j < nlen
        invariant
            hlen == h@.len(),
            nlen == n@.len(),
            i + nlen <= hlen,
            j <= nlen,
            forall|k: int| 0 <= k < j ==> fold_char(h@[i + k]) == fold_char(n@[k]),
        decreases nlen - j,
    {
        if fold_char_exec(h.get_char(i + j)) != fold_char_exec(n.get_char(j)) {
            return false;
        }
        j += 1;
    }
    true
}

/// `needle` occurs somewhere in `hay` up to ASCII case.
pub fn contains_ci_sub(hay: &str, needle: &str) -> (r: bool)
    ensures
        r == contains_ci(hay@, needle@),
{
    let hlen = hay.unicode_len();
    let nlen = needle.unicode_len();
    let mut i: usize = 0;
    while i < hlen
        invariant
            hlen == hay@.len(),
            nlen == needle@.len(),
            i <= hlen,
            forall|k: int| 0 <= k < i ==> !ci_matches_at(hay@, needle@, k),
        decreases hlen - i,
    {
        if ci_occurs_at(hay, needle, i, hlen, nlen) {
            return true;
        }
        i += 1;
    }
    if ci_occurs_at(hay, needle, hlen, hlen, nlen) {
        return true;
    }
    proof {
        assert forall|k: int| !ci_matches_at(hay@, needle@, k) by {
            if 0 <= k && k + needle@.len() <= hay@.len() {
                assert(k <= hay@.len());
            }
        }
    }
    false
}

/// The two strings are equal up to ASCII case.
pub fn ci_str_eq(a: &str, b: &str) -> (r: bool)
    ensures
        r == ci_eq_seq(a@, b@),
{
    let alen = a.unicode_len();
    let blen = b.unicode_len();
    if alen != blen {
        return false;
    }
    ci_occurs_at(a, b, 0, alen, blen)
}

/// `s` with every occurrence of `p` removed, scanning left to right and
/// skipping over each match without rescanning inside it.
pub open spec fn remove_all_spec(s: Seq<char>, p: Seq<char>) -> Seq<char>
    decreases s.len(),
{
    if p.len() == 0 || s.len() == 0 {
        s
    } else if matches_at(s, p, 0) {
        remove_all_spec(s.skip(p.len() as int), p)
    } else {
        seq![s[0]] + remove_all_spec(s.drop_first(), p)
    }
}

proof fn lemma_remove_all_match(s: Seq<char>, p: Seq<char>, i: int)
    requires
        p.len() > 0,
        matches_at(s, p, i),
    ensures
        remove_all_spec(s.skip(i), p) == remove_all_spec(s.skip(i + p.len()), p),
{
    let t = s.skip(i);
    assert(matches_at(t, p, 0)) by {
        assert forall|j: int| 0 <= j < p.len() implies t[j] == p[j] by {
            assert(s[i + j] == p[j]);
        }
    }
    assert(t.skip(p.len() as int) =~= s.skip(i + p.len()));
}

proof fn lemma_remove_all_nomatch(s: Seq<char>, p: Seq<char>, i: int)
    requires
        p.len() > 0,
        0 <= i < s.len(),
        !matches_at(s, p, i),
    ensures
        remove_all_spec(s.skip(i), p) == seq![s[i]] + remove_all_spec(s.skip(i + 1), p),
{
    let t = s.skip(i);
    assert(!matches_at(t, p, 0)) by {
        if matches_at(t, p, 0) {
            assert forall|j: int| 0 <= j < p.len() implies s[i + j] == p[j] by {
                assert(t[j] == p[j]);
            }
        }
    }
    assert(t.drop_first() =~= s.skip(i + 1));
    assert(t[0] == s[i]);
}

/// Remove every occurrence of `p` from `s`, scanning left to right.
pub fn remove_all(s: &str, p: &str) -> (r: String)
    requires
        p@.len() > 0,
    ensures
        r@ == remove_all_spec(s@, p@),
{
    let slen = s.unicode_len();
    let plen = p.unicode_len();
    let mut out = String::new();
    let mut i: usize = 0;
    proof {
        assert(s@.skip(0) =~= s@);
        assert(out@ + remove_all_spec(s@, p@) =~= remove_all_spec(s@, p@));
    }
    while i < slen
        invariant
            slen == s@.len(),
            plen == p@.len(),
            plen > 0,
            i <= slen,
            remove_all_spec(s@, p@) == out@ + remove_all_spec(s@.skip(i as int), p@),
        decreases slen - i,
    {
        if occurs_at(s, p, i, slen, plen) {
            proof {
                lemma_remove_all_match(s@, p@, i as int);
            }
            i += plen;
        } else {
            let piece = s.substring_char(i, i + 1);
            proof {
                lemma_remove_all_nomatch(s@, p@, i as int);
                assert(piece@ =~= seq![s@[i as int]]);
                assert((out@ + piece@) + remove_all_spec(s@.skip(i + 1), p@) =~= out@ + (
                seq![s@[i as int]] + remove_all_spec(s@.skip(i + 1), p@)));
            }
            out.append(piece);
            i += 1;
        }
    }
    proof {
        assert(s@.skip(slen as int) =~= Seq::<char>::empty());
        assert(out@ + remove_all_spec(s@.skip(slen as int), p@) =~= out@);
    }
    out
}

/// Index of the last occurrence of `c` in `s`, if any.
pub open spec fn last_index_of(s: Seq<char>, c: char) -> Option<int>
    decreases s.len(),
{
    if s.len() == 0 {
        None
    } else if s.last() == c {
        Some(s.len() - 1)
    } else {
        last_index_of(s.drop_last(), c)
    }
}

/// A found last index is a real occurrence, and nothing matches after it.
pub proof fn lemma_last_index_some(s: Seq<char>, c: char, i: int)
    requires
        last_index_of(s, c) == Some(i),
    ensures
        0 <= i < s.len(),
        s[i] == c,
        forall|k: int| i < k < s.len() ==> s[k] != c,
    decreases s.len(),
{
    if s.len() > 0 && s.last() != c {
        lemma_last_index_some(s.drop_last(), c, i);
        assert forall|k: int| i < k < s.len() implies s[k] != c by {
            if k < s.len() - 1 {
                assert(s.drop_last()[k] == s[k]);
            }
        }
    }
}

proof fn lemma_last_index_at(s: Seq<char>, c: char, i: int)
    requires
        0 <= i < s.len(),
        s[i] == c,
        forall|k: int| i < k < s.len() ==> s[k] != c,
    ensures
        last_index_of(s, c) == Some(i),
    decreases s.len(),
{
    if i < s.len() - 1 {
        assert(s.last() != c);
        lemma_last_index_at(s.drop_last(), c, i);
    }
}

proof fn lemma_last_index_none(s: Seq<char>, c: char)
    requires
        forall|k: int| 0 <= k < s.len() ==> s[k] != c,
    ensures
        last_index_of(s, c) is None,
    decreases s.len(),
{
    if s.len() > 0 {
        lemma_last_index_none(s.drop_last(), c);
    }
}

/// Character index of the last occurrence of `c` in `s`.
pub fn last_index_of_char(s: &str, c: char) -> (r: Option<usize>)
    ensures
        r matches Some(i) ==> last_index_of(s@, c) == Some(i as int),
        r is None ==> last_index_of(s@, c) is None,
{
    let len = s.unicode_len();
    let mut j: usize = len;
    while j > 0
        invariant
            len == s@.len(),
            j <= len,
            forall|k: int| j <= k < len ==> s@[k] != c,
        decreases j,
    {
        if s.get_char(j - 1) == c {
            proof {
                lemma_last_index_at(s@, c, j - 1);
            }
            return Some(j - 1);
        }
        j -= 1;
    }
    proof {
        lemma_last_index_none(s@, c);
    }
    None
}

/// `c` is whitespace as the Unicode `White_Space` property defines it: the
/// ASCII whitespace controls and space, next line, no-break space, ogham
/// space mark, the en-quad..hair-space range, the line and paragraph
/// separators, narrow no-break space, medium mathematical space and
/// ideographic space.
pub open spec fn is_space(c: char) -> bool {
    ||| c == ' '
    ||| c == '\t'
    ||| c == '\n'
    ||| c == '\u{0B}'
    ||| c == '\u{0C}'
    ||| c == '\r'
    ||| c == '\u{85}'
    ||| c == '\u{A0}'
    ||| c == '\u{1680}'
    ||| (0x2000 <= c as int && c as int <= 0x200A)
    ||| c == '\u{2028}'
    ||| c == '\u{2029}'
    ||| c == '\u{202F}'
    ||| c == '\u{205F}'
    ||| c == '\u{3000}'
}

/// `s` without its leading whitespace.
pub open spec fn trim_start_spec(s: Seq<char>) -> Seq<char>
    decreases s.len(),
{
    if s.len() > 0 && is_space(s[0]) {
        trim_start_spec(s.drop_first())
    } else {
        s
    }
}

/// `s` without its trailing whitespace.
pub open spec fn trim_end_spec(s: Seq<char>) -> Seq<char>
    decreases s.len(),
{
    if s.len() > 0 && is_space(s.last()) {
        trim_end_spec(s.drop_last())
    } else {
        s
    }
}

/// `s` without leading and trailing whitespace.
pub open spec fn trim_spec(s: Seq<char>) -> Seq<char> {
    trim_end_spec(trim_start_spec(s))
}

fn is_space_char(c: char) -> (r: bool)
    ensures
        r == is_space(c),
{
    let u = c as u32;
    c == ' ' || c == '\t' || c == '\n' || c == '\u{0B}' || c == '\u{0C}' || c == '\r' || c
        == '\u{85}' || c == '\u{A0}' || c == '\u{1680}' || (0x2000 <= u && u <= 0x200A) || c
        == '\u{2028}' || c == '\u{2029}' || c == '\u{202F}' || c == '\u{205F}' || c == '\u{3000}'
}

proof fn lemma_trim_start_skip(s: Seq<char>, a: int)
    requires
        0 <= a <= s.len(),
        forall|k: int| 0 <= k < a ==> is_space(s[k]),
        a < s.len() ==> !is_space(s[a]),
    ensures
        trim_start_spec(s) =~= s.skip(a),
    decreases a,
{
    if a == 0 {
        assert(s.skip(0) =~= s);
    } else {
        let t = s.drop_first();
        assert forall|k: int| 0 <= k < a - 1 implies is_space(t[k]) by {
            assert(t[k] == s[k + 1]);
        }
        lemma_trim_start_skip(t, a - 1);
        assert(t.skip(a - 1) =~= s.skip(a));
    }
}

proof fn lemma_trim_end_take(s: Seq<char>, b: int)
    requires
        0 <= b <= s.len(),
        forall|k: int| b <= k < s.len() ==> is_space(s[k]),
        b > 0 ==> !is_space(s[b - 1]),
    ensures
        trim_end_spec(s) =~= s.take(b),
    decreases s.len() - b,
{
    if b == s.len() {
        assert(s.take(b) =~= s);
    } else {
        let t = s.drop_last();
        lemma_trim_end_take(t, b);
        assert(t.take(b) =~= s.take(b));
    }
}

fn first_non_space(s: &str, len: usize) -> (a: usize)
    requires
        len == s@.len(),
    ensures
        a <= len,
        forall|k: int| 0 <= k < a ==> is_space(s@[k]),
        a < len ==> !is_space(s@[a as int]),
{
    let mut a: usize = 0;
    while a < len
        invariant
            len == s@.len(),
            a <= len,
            forall|k: int| 0 <= k < a ==> is_space(s@[k]),
        decreases len - a,
    {
        if !is_space_char(s.get_char(a)) {
            return a;
        }
        a += 1;
    }
    a
}

fn last_non_space_end(s: &str, len: usize) -> (b: usize)
    requires
        len == s@.len(),
    ensures
        b <= len,
        forall|k: int| b <= k < len ==> is_space(s@[k]),
        b > 0 ==> !is_space(s@[b - 1]),
{
    let mut b: usize = len;
    while b > 0
        invariant
            len == s@.len(),
            b <= len,
            forall|k: int| b <= k < len ==> is_space(s@[k]),
        decreases b,
    {
        if !is_space_char(s.get_char(b - 1)) {
            return b;
        }
        b -= 1;
    }
    b
}

/// `s` without leading and trailing whitespace.
pub fn trim_chars<'a>(s: &'a str) -> (r: &'a str)
    ensures
        r@ == trim_spec(s@),
{
    let len = s.unicode_len();
    let a = first_non_space(s, len);
    proof {
        lemma_trim_start_skip(s@, a as int);
    }
    if a == len {
        proof {
            assert(trim_start_spec(s@) =~= Seq::<char>::empty());
            reveal_strlit("");
            assert(""@ =~= trim_spec(s@));
        }
        return "";
    }
    let b = last_non_space_end(s, len);
    proof {
        let t = s@.skip(a as int);
        assert(b > a) by {
            if b <= a {
                assert(is_space(s@[a as int]));
            }
        }
        assert forall|k: int| b - a <= k < t.len() implies is_space(t[k]) by {
            assert(t[k] == s@[k + a]);
        }
        assert(t[b - a - 1] == s@[b - 1]);
        lemma_trim_end_take(t, b - a);
        assert(t.take(b - a) =~= s@.subrange(a as int, b as int));
    }
    s.substring_char(a, b)
}

/// `c` is a decimal digit.
pub open spec fn is_digit(c: char) -> bool {
    48 <= c as int && c as int <= 57
}

/// Numeric value of a decimal digit character.
pub open spec fn digit_val(c: char) -> int {
    c as int - 48
}

/// Every character of `s` is a decimal digit.
pub open spec fn all_digits(s: Seq<char>) -> bool {
    forall|i: int| 0 <= i < s.len() ==> is_digit(s[i])
}

/// Value of a sequence of decimal digits, most significant first.
pub open spec fn dec_val(s: Seq<char>) -> int
    decreases s.len(),
{
    if s.len() == 0 {
        0
    } else {
        dec_val(s.drop_last()) * 10 + digit_val(s.last())
    }
}

/// The decimal digit character for a value between 0 and 9.
pub open spec fn digit_char(d: int) -> char {
    ((48 + d) as u8) as char
}

/// Decimal rendering of a nonnegative integer, no sign and no leading zeros.
pub open spec fn dec_str(n: int) -> Seq<char>
    decreases n,
{
    if n < 10 {
        seq![digit_char(n)]
    } else {
        dec_str(n / 10).push(digit_char(n % 10))
    }
}

/// Decimal rendering of an integer, with a leading minus sign when negative.
pub open spec fn int_str(n: int) -> Seq<char> {
    if n < 0 {
        seq!['-'] + dec_str(-n)
    } else {
        dec_str(n)
    }
}

/// What parsing a decimal integer string yields: an optional sign, then at
/// least one digit, and a value that fits the result type.
pub open spec fn parse_i64_spec(s: Seq<char>) -> Option<i64> {
    let signed = s.len() > 0 && (s[0] == '+' || s[0] == '-');
    let digits = if signed {
        s.drop_first()
    } else {
        s
    };
    if digits.len() > 0 && all_digits(digits) {
        let v = if s.len() > 0 && s[0] == '-' {
            -dec_val(digits)
        } else {
            dec_val(digits)
        };
        if i64::MIN <= v <= i64::MAX {
            Some(v as i64)
        } else {
            None
        }
    } else {
        None
    }
}

proof fn lemma_dec_val_nonneg(s: Seq<char>)
    requires
        all_digits(s),
    ensures
        dec_val(s) >= 0,
    decreases s.len(),
{
    if s.len() > 0 {
        assert(all_digits(s.drop_last()));
        lemma_dec_val_nonneg(s.drop_last());
    }
}

proof fn lemma_dec_val_take_succ(s: Seq<char>, j: int)
    requires
        0 <= j < s.len(),
    ensures
        dec_val(s.take(j + 1)) == dec_val(s.take(j)) * 10 + digit_val(s[j]),
{
    assert(s.take(j + 1).drop_last() =~= s.take(j));
    assert(s.take(j + 1).last() == s[j]);
}

proof fn lemma_dec_val_prefix(s: Seq<char>, j: int)
    requires
        all_digits(s),
        0 <= j <= s.len(),
    ensures
        dec_val(s) >= dec_val(s.take(j)),
    decreases s.len() - j,
{
    if j < s.len() {
        assert(all_digits(s.take(j)));
        lemma_dec_val_nonneg(s.take(j));
        lemma_dec_val_take_succ(s, j);
        lemma_dec_val_prefix(s, j + 1);
    } else {
        assert(s.take(j) =~= s);
    }
}

/// Parse a decimal integer, accepting an optional leading sign, exactly when
/// the whole string is a well-formed number that fits in the result type.
pub fn parse_i64(s: &str) -> (r: Option<i64>)
    ensures
        r == parse_i64_spec(s@),
{
    let len = s.unicode_len();
    if len == 0 {
        return None;
    }
    let first = s.get_char(0);
    let neg = first == '-';
    let signed = neg || first == '+';
    let start: usize = if signed {
        1
    } else {
        0
    };
    if start == len {
        return None;
    }
    let bound: u64 = if neg {
        9223372036854775808
    } else {
        9223372036854775807
    };
    let ghost digits = if signed {
        s@.drop_first()
    } else {
        s@
    };
    let mut acc: u64 = 0;
    let mut i: usize = start;
    while i < len
        invariant
            len == s@.len(),
            start <= i <= len,
            start == 1 <==> signed,
            start == 0 <==> !signed,
            signed == (s@[0] == '+' || s@[0] == '-'),
            neg == (s@[0] == '-'),
            digits == (if signed {
                s@.drop_first()
            } else {
                s@
            }),
            digits.len() == len - start,
            forall|k: int| 0 <= k < i - start ==> is_digit(digits[k]),
            forall|k: int| 0 <= k < i - start ==> digits[k] == s@[k + start],
            acc == dec_val(digits.take(i - start)),
            acc <= bound,
            bound == (if neg {
                9223372036854775808u64
            } else {
                9223372036854775807u64
            }),
        decreases len - i,
    {
        let c = s.get_char(i);
        let u = c as u32;
        proof {
            assert(digits[i - start] == s@[i as int]);
        }
        if u < 48 || u > 57 {
            proof {
                assert(!is_digit(digits[i - start]));
            }
            return None;
        }
        let d = (u - 48) as u64;
        proof {
            assert(is_digit(digits[i - start]));
            assert(d == digit_val(digits[i - start]));
        }
        if acc > (bound - d) / 10 {
            proof {
                assert(acc * 10 + d > bound) by (nonlinear_arith)
                    requires
                        acc > (bound - d) / 10,
                        d <= bound,
                ;
                if all_digits(digits) {
                    lemma_dec_val_take_succ(digits, i - start);
                    lemma_dec_val_prefix(digits, i - start + 1);
                    assert(dec_val(digits) > bound);
                }
            }
            return None;
        }
        proof {
            assert(acc * 10 + d <= bound) by (nonlinear_arith)
                requires
                    acc <= (bound - d) / 10,
                    d <= bound,
            ;
            lemma_dec_val_take_succ(digits, i - start);
        }
        acc = acc * 10 + d;
        i += 1;
    }
    proof {
        assert(digits.take(len - start) =~= digits);
        assert(all_digits(digits));
    }
    if neg {
        if acc == 9223372036854775808 {
            return Some(i64::MIN);
        }
        return Some(-(acc as i64));
    }
    Some(acc as i64)
}

/// The single-character string for a decimal digit.
fn digit_str(d: u8) -> (r: &'static str)
    requires
        d < 10,
    ensures
        r@ == seq![digit_char(d as int)],
{
    proof {
        reveal_strlit("0");
        reveal_strlit("1");
        reveal_strlit("2");
        reveal_strlit("3");
        reveal_strlit("4");
        reveal_strlit("5");
        reveal_strlit("6");
        reveal_strlit("7");
        reveal_strlit("8");
        reveal_strlit("9");
    }
    let r = match d {
        0 => "0",
        1 => "1",
        2 => "2",
        3 => "3",
        4 => "4",
        5 => "5",
        6 => "6",
        7 => "7",
        8 => "8",
        _ => "9",
    };
    proof {
        assert(r@ =~= seq![digit_char(d as int)]);
    }
    r
}

/// Decimal rendering of an unsigned integer.
pub fn u64_to_string(n: u64) -> (r: String)
    ensures
        r@ == dec_str(n as int),
    decreases n,
{
    if n < 10 {
        String::from_str(digit_str(n as u8))
    } else {
        let mut s = u64_to_string(n / 10);
        s.append(digit_str((n % 10) as u8));
        proof {
            assert(s@ =~= dec_str(n as int));
        }
        s
    }
}

/// Decimal rendering of a signed integer.
pub fn i64_to_string(n: i64) -> (r: String)
    ensures
        r@ == int_str(n as int),
{
    if n >= 0 {
        u64_to_string(n as u64)
    } else {
        let mag: u64 = if n == i64::MIN {
            9223372036854775808
        } else {
            (-n) as u64
        };
        let mut s = String::from_str("-");
        s.append(u64_to_string(mag).as_str());
        proof {
            reveal_strlit("-");
            assert(s@ =~= int_str(n as int));
        }
        s
    }
}

} // verus!
