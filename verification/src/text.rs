//! Character-level helpers with the exact meaning of the std string methods
//! the wallet relies on (`trim`, `eq_ignore_ascii_case`, `parse::<u64>`, ...).

use vstd::prelude::*;
use vstd::string::*;

verus! {

/// `char::is_whitespace`: the Unicode `White_Space` property.
pub open spec fn is_unicode_whitespace(c: char) -> bool {
    ||| ('\u{9}' <= c && c <= '\u{d}')
    ||| c == ' '
    ||| c == '\u{85}'
    ||| c == '\u{a0}'
    ||| c == '\u{1680}'
    ||| ('\u{2000}' <= c && c <= '\u{200a}')
    ||| c == '\u{2028}'
    ||| c == '\u{2029}'
    ||| c == '\u{202f}'
    ||| c == '\u{205f}'
    ||| c == '\u{3000}'
}

/// `str::trim_start`.
pub open spec fn trim_start_spec(s: Seq<char>) -> Seq<char>
    decreases s.len(),
{
    if s.len() > 0 && is_unicode_whitespace(s[0]) {
        trim_start_spec(s.drop_first())
    } else {
        s
    }
}

/// `str::trim_end`.
pub open spec fn trim_end_spec(s: Seq<char>) -> Seq<char>
    decreases s.len(),
{
    if s.len() > 0 && is_unicode_whitespace(s.last()) {
        trim_end_spec(s.drop_last())
    } else {
        s
    }
}

/// `str::trim`: both ends stripped of Unicode white space.
pub open spec fn trim_spec(s: Seq<char>) -> Seq<char> {
    trim_end_spec(trim_start_spec(s))
}

/// Every character is white space (so `s.trim().is_empty()`).
pub open spec fn is_blank_spec(s: Seq<char>) -> bool {
    forall|i: int| 0 <= i < s.len() ==> is_unicode_whitespace(#[trigger] s[i])
}

pub fn is_whitespace_char(c: char) -> (r: bool)
    ensures
        r == is_unicode_whitespace(c),
{
    ('\u{9}' <= c && c <= '\u{d}') || c == ' ' || c == '\u{85}' || c == '\u{a0}' || c == '\u{1680}'
        || ('\u{2000}' <= c && c <= '\u{200a}') || c == '\u{2028}' || c == '\u{2029}' || c
        == '\u{202f}' || c == '\u{205f}' || c == '\u{3000}'
}

proof fn lemma_trim_start_step(s: Seq<char>, i: int)
    requires
        0 <= i < s.len(),
        is_unicode_whitespace(s[i]),
    ensures
        trim_start_spec(s.subrange(i, s.len() as int)) == trim_start_spec(
            s.subrange(i + 1, s.len() as int),
        ),
{
    assert(s.subrange(i, s.len() as int).drop_first() =~= s.subrange(i + 1, s.len() as int));
}

proof fn lemma_trim_end_step(s: Seq<char>, j: int)
    requires
        0 < j <= s.len(),
        is_unicode_whitespace(s[j - 1]),
    ensures
        trim_end_spec(s.subrange(0, j)) == trim_end_spec(s.subrange(0, j - 1)),
{
    assert(s.subrange(0, j).drop_last() =~= s.subrange(0, j - 1));
}

proof fn lemma_trim_start_blank(s: Seq<char>)
    requires
        is_blank_spec(s),
    ensures
        trim_start_spec(s).len() == 0,
    decreases s.len(),
{
    if s.len() > 0 {
        assert(is_unicode_whitespace(s[0]));
        assert forall|i: int| 0 <= i < s.drop_first().len() implies is_unicode_whitespace(
            #[trigger] s.drop_first()[i],
        ) by {
            assert(s.drop_first()[i] == s[i + 1]);
        }
        lemma_trim_start_blank(s.drop_first());
    }
}

/// `str::trim`: the slice of `s` without leading and trailing Unicode white space.
pub fn trim(s: &str) -> (r: &str)
    ensures
        r@ == trim_spec(s@),
{
    let n = s.unicode_len();
    let mut i: usize = 0;
    proof {
        assert(s@.subrange(0, s@.len() as int) =~= s@);
    }
    while i < n && is_whitespace_char(s.get_char(i))
        invariant
            n == s@.len(),
            i <= n,
            trim_start_spec(s@.subrange(i as int, n as int)) == trim_start_spec(s@),
        decreases n - i,
    {
        proof {
            lemma_trim_start_step(s@, i as int);
        }
        i = i + 1;
    }
    let ghost start = s@.subrange(i as int, n as int);
    proof {
        if i < n {
            assert(!is_unicode_whitespace(s@[i as int]));
            assert(trim_start_spec(start) == start);
        } else {
            assert(start.len() == 0);
        }
    }
    let mut j: usize = n;
    proof {
        assert(start.subrange(0, start.len() as int) =~= start);
    }
    while j > i && is_whitespace_char(s.get_char(j - 1))
        invariant
            n == s@.len(),
            i <= j <= n,
            start == s@.subrange(i as int, n as int),
            trim_start_spec(s@) == start,
            trim_end_spec(start.subrange(0, j - i)) == trim_end_spec(start),
        decreases j - i,
    {
        proof {
            assert(start[j - i - 1] == s@[j - 1]);
            lemma_trim_end_step(start, j - i);
        }
        j = j - 1;
    }
    proof {
        let t = start.subrange(0, j - i);
        if j > i {
            assert(t.last() == s@[j - 1]);
        }
        assert(trim_end_spec(t) == t);
        assert(t =~= s@.subrange(i as int, j as int));
    }
    s.substring_char(i, j)
}

/// `str::trim(s).is_empty()`: nothing but white space.
pub fn is_blank(s: &str) -> (r: bool)
    ensures
        r == is_blank_spec(s@),
        r == (trim_spec(s@).len() == 0),
{
    let n = s.unicode_len();
    let mut i: usize = 0;
    while i < n
        invariant
            n == s@.len(),
            i <= n,
            forall|k: int| 0 <= k < i ==> is_unicode_whitespace(#[trigger] s@[k]),
        decreases n - i,
    {
        if !is_whitespace_char(s.get_char(i)) {
            proof {
                lemma_trim_first_non_blank(s@, i as int);
            }
            return false;
        }
        i = i + 1;
    }
    proof {
        lemma_trim_start_blank(s@);
        assert(trim_end_spec(trim_start_spec(s@)) == trim_start_spec(s@));
    }
    true
}

proof fn lemma_trim_first_non_blank(s: Seq<char>, i: int)
    requires
        0 <= i < s.len(),
        !is_unicode_whitespace(s[i]),
        forall|k: int| 0 <= k < i ==> is_unicode_whitespace(#[trigger] s[k]),
    ensures
        trim_spec(s).len() > 0,
    decreases i,
{
    if i == 0 {
        assert(trim_start_spec(s) == s);
        lemma_trim_end_keeps(s, i);
    } else {
        assert(is_unicode_whitespace(s[0]));
        assert forall|k: int| 0 <= k < i - 1 implies is_unicode_whitespace(
            #[trigger] s.drop_first()[k],
        ) by {
            assert(s.drop_first()[k] == s[k + 1]);
        }
        lemma_trim_first_non_blank(s.drop_first(), i - 1);
    }
}

proof fn lemma_trim_end_keeps(s: Seq<char>, i: int)
    requires
        0 <= i < s.len(),
        !is_unicode_whitespace(s[i]),
    ensures
        trim_end_spec(s).len() > 0,
    decreases s.len(),
{
    if is_unicode_whitespace(s.last()) {
        assert(i < s.len() - 1);
        assert(s.drop_last()[i] == s[i]);
        lemma_trim_end_keeps(s.drop_last(), i);
    }
}


/// The code point of `char::to_ascii_lowercase(c)`.
pub open spec fn ascii_lower(c: char) -> u32 {
    if 'A' <= c && c <= 'Z' {
        ((c as u32) + 32) as u32
    } else {
        c as u32
    }
}

/// `str::eq_ignore_ascii_case`: equal once ASCII letters are folded to lower case.
pub open spec fn eq_ignore_ascii_case_spec(a: Seq<char>, b: Seq<char>) -> bool {
    &&& a.len() == b.len()
    &&& forall|i: int| 0 <= i < a.len() ==> ascii_lower(#[trigger] a[i]) == ascii_lower(b[i])
}

pub fn ascii_lower_char(c: char) -> (r: u32)
    ensures
        r == ascii_lower(c),
{
    if 'A' <= c && c <= 'Z' {
        (c as u32) + 32
    } else {
        c as u32
    }
}

/// `str::eq_ignore_ascii_case`.
pub fn eq_ignore_ascii_case(a: &str, b: &str) -> (r: bool)
    ensures
        r == eq_ignore_ascii_case_spec(a@, b@),
{
    let n = a.unicode_len();
    if n != b.unicode_len() {
        return false;
    }
    let mut i: usize = 0;
    while i < n
        invariant
            n == a@.len(),
            n == b@.len(),
            i <= n,
            forall|k: int| 0 <= k < i ==> ascii_lower(#[trigger] a@[k]) == ascii_lower(b@[k]),
        decreases n - i,
    {
        if ascii_lower_char(a.get_char(i)) != ascii_lower_char(b.get_char(i)) {
            return false;
        }
        i = i + 1;
    }
    true
}

/// `==` on string slices.
pub fn str_equal(a: &str, b: &str) -> (r: bool)
    ensures
        r == (a@ == b@),
{
    let n = a.unicode_len();
    if n != b.unicode_len() {
        return false;
    }
    let mut i: usize = 0;
    while i < n
        invariant
            n == a@.len(),
            n == b@.len(),
            i <= n,
            forall|k: int| 0 <= k < i ==> #[trigger] a@[k] == b@[k],
        decreases n - i,
    {
        if a.get_char(i) != b.get_char(i) {
            return false;
        }
        i = i + 1;
    }
    proof {
        assert(a@ =~= b@);
    }
    true
}

/// `s.contains(pat)`: `pat` occurs at some position of `s`.
pub open spec fn contains_spec(s: Seq<char>, pat: Seq<char>) -> bool {
    exists|i: int| 0 <= i && i + pat.len() <= s.len() && #[trigger] s.subrange(i, i + pat.len()) == pat
}

/// `str::contains` with a string pattern.
pub fn contains_str(s: &str, pat: &str) -> (r: bool)
    ensures
        r == contains_spec(s@, pat@),
{
    let n = s.unicode_len();
    let m = pat.unicode_len();
    if m > n {
        proof {
            assert forall|i: int| 0 <= i && i + m <= n implies #[trigger] s@.subrange(i, i + m) != pat@ by {
            }
        }
        return false;
    }
    let mut i: usize = 0;
    while i <= n - m
        invariant
            n == s@.len(),
            m == pat@.len(),
            m <= n,
            i <= n - m + 1,
            forall|k: int| 0 <= k < i ==> #[trigger] s@.subrange(k, k + m) != pat@,
        decreases n - m + 1 - i,
    {
        let mut j: usize = 0;
        let mut mismatch = false;
        while j < m && !mismatch
            invariant
                n == s@.len(),
                m == pat@.len(),
                i + m <= n,
                j <= m,
                !mismatch ==> (forall|k: int| 0 <= k < j ==> #[trigger] s@[i + k] == pat@[k]),
                mismatch ==> (j < m && s@[i + j] != pat@[j as int]),
            decreases (m - j) * 2 + if mismatch { 0int } else { 1int },
        {
            if s.get_char(i + j) != pat.get_char(j) {
                mismatch = true;
            } else {
                j = j + 1;
            }
        }
        let same = !mismatch;
        proof {
            if same {
                assert forall|k: int| 0 <= k < m implies #[trigger] s@.subrange(i as int, i + m)[k]
                    == pat@[k] by {
                    assert(s@[i + k] == pat@[k]);
                }
                assert(s@.subrange(i as int, i + m) =~= pat@);
            } else {
                assert(s@.subrange(i as int, i + m)[j as int] != pat@[j as int]);
            }
        }
        if same {
            return true;
        }
        i = i + 1;
    }
    false
}

/// `char::is_ascii_hexdigit`.
pub open spec fn is_hex_digit(c: char) -> bool {
    ('0' <= c && c <= '9') || ('a' <= c && c <= 'f') || ('A' <= c && c <= 'F')
}

pub open spec fn all_hex_digits(s: Seq<char>) -> bool {
    forall|i: int| 0 <= i < s.len() ==> is_hex_digit(#[trigger] s[i])
}

/// `s.chars().all(|c| c.is_ascii_hexdigit())`.
pub fn is_all_hex(s: &str) -> (r: bool)
    ensures
        r == all_hex_digits(s@),
{
    let n = s.unicode_len();
    let mut i: usize = 0;
    while i < n
        invariant
            n == s@.len(),
            i <= n,
            forall|k: int| 0 <= k < i ==> is_hex_digit(#[trigger] s@[k]),
        decreases n - i,
    {
        let c = s.get_char(i);
        if !(('0' <= c && c <= '9') || ('a' <= c && c <= 'f') || ('A' <= c && c <= 'F')) {
            return false;
        }
        i = i + 1;
    }
    true
}

/// `s.strip_prefix(p).unwrap_or(s)`.
pub open spec fn strip_prefix_or_self(s: Seq<char>, p: Seq<char>) -> Seq<char> {
    if p.len() <= s.len() && s.subrange(0, p.len() as int) == p {
        s.subrange(p.len() as int, s.len() as int)
    } else {
        s
    }
}

pub fn strip_prefix_or_self_exec<'a>(s: &'a str, p: &str) -> (r: &'a str)
    ensures
        r@ == strip_prefix_or_self(s@, p@),
{
    let n = s.unicode_len();
    let m = p.unicode_len();
    if m > n {
        return s;
    }
    let head = s.substring_char(0, m);
    if str_equal(head, p) {
        s.substring_char(m, n)
    } else {
        s
    }
}

/// `c.is_ascii_digit()`.
pub open spec fn is_decimal_digit(c: char) -> bool {
    '0' <= c && c <= '9'
}

pub open spec fn all_decimal_digits(s: Seq<char>) -> bool {
    forall|i: int| 0 <= i < s.len() ==> is_decimal_digit(#[trigger] s[i])
}

/// The number a string of decimal digits denotes.
pub open spec fn decimal_value(s: Seq<char>) -> int
    decreases s.len(),
{
    if s.len() == 0 {
        0
    } else {
        decimal_value(s.drop_last()) * 10 + ((s.last() as u32) - ('0' as u32))
    }
}

/// `str::parse::<u64>`: an optional `+` (not alone), then at least one
/// decimal digit, and a value that fits in 64 bits.
pub open spec fn parse_u64_spec(s: Seq<char>) -> Option<u64> {
    let d = if s.len() > 1 && s[0] == '+' {
        s.drop_first()
    } else {
        s
    };
    if d.len() > 0 && all_decimal_digits(d) && decimal_value(d) <= u64::MAX {
        Some(decimal_value(d) as u64)
    } else {
        None
    }
}

proof fn lemma_decimal_value_nonneg(s: Seq<char>)
    requires
        all_decimal_digits(s),
    ensures
        decimal_value(s) >= 0,
    decreases s.len(),
{
    if s.len() > 0 {
        assert(is_decimal_digit(s[s.len() - 1]));
        assert forall|i: int| 0 <= i < s.drop_last().len() implies is_decimal_digit(
            #[trigger] s.drop_last()[i],
        ) by {
            assert(s.drop_last()[i] == s[i]);
        }
        lemma_decimal_value_nonneg(s.drop_last());
    }
}

proof fn lemma_decimal_value_monotone(s: Seq<char>, k: int)
    requires
        all_decimal_digits(s),
        0 <= k <= s.len(),
    ensures
        decimal_value(s.subrange(0, k)) <= decimal_value(s),
    decreases s.len() - k,
{
    if k < s.len() {
        lemma_decimal_value_monotone(s, k + 1);
        let t = s.subrange(0, k + 1);
        assert(t.drop_last() =~= s.subrange(0, k));
        assert forall|i: int| 0 <= i < s.subrange(0, k).len() implies is_decimal_digit(
            #[trigger] s.subrange(0, k)[i],
        ) by {
            assert(s.subrange(0, k)[i] == s[i]);
        }
        lemma_decimal_value_nonneg(s.subrange(0, k));
        assert(is_decimal_digit(s[k]));
    } else {
        assert(s.subrange(0, k) =~= s);
    }
}

/// `str::parse::<u64>`, with `None` for every input std rejects.
pub fn parse_u64(s: &str) -> (r: Option<u64>)
    ensures
        r == parse_u64_spec(s@),
{
    let n = s.unicode_len();
    let mut i: usize = 0;
    if n > 1 && s.get_char(0) == '+' {
        i = 1;
    }
    let ghost d = if s@.len() > 1 && s@[0] == '+' {
        s@.drop_first()
    } else {
        s@
    };
    proof {
        assert(d =~= s@.subrange(i as int, n as int));
    }
    if i == n {
        return None;
    }
    let mut acc: u64 = 0;
    let start = i;
    while i < n
        invariant
            n == s@.len(),
            start <= i <= n,
            start < n,
            d =~= s@.subrange(start as int, n as int),
            d == (if s@.len() > 1 && s@[0] == '+' {
                s@.drop_first()
            } else {
                s@
            }),
            forall|k: int| start <= k < i ==> is_decimal_digit(#[trigger] s@[k]),
            acc as int == decimal_value(s@.subrange(start as int, i as int)),
        decreases n - i,
    {
        let c = s.get_char(i);
        if !('0' <= c && c <= '9') {
            proof {
                assert(d[i - start] == c);
                assert(!is_decimal_digit(d[i - start]));
            }
            return None;
        }
        let digit: u64 = ((c as u32) - ('0' as u32)) as u64;
        let ghost prefix = s@.subrange(start as int, i + 1);
        proof {
            assert(prefix.drop_last() =~= s@.subrange(start as int, i as int));
            assert(prefix.last() == c);
            assert(decimal_value(prefix) == acc * 10 + digit);
        }
        match acc.checked_mul(10) {
            Some(m) => {
                match m.checked_add(digit) {
                    Some(v) => {
                        acc = v;
                    },
                    None => {
                        proof {
                            lemma_too_big(s@, start as int, i as int, n as int);
                        }
                        return None;
                    },
                }
            },
            None => {
                proof {
                    lemma_too_big(s@, start as int, i as int, n as int);
                }
                return None;
            },
        }
        i = i + 1;
    }
    proof {
        assert(s@.subrange(start as int, n as int) =~= d);
    }
    Some(acc)
}

proof fn lemma_too_big(s: Seq<char>, start: int, i: int, n: int)
    requires
        0 <= start <= i < n == s.len(),
        forall|k: int| start <= k <= i ==> is_decimal_digit(#[trigger] s[k]),
        decimal_value(s.subrange(start, i + 1)) > u64::MAX,
    ensures
        !(all_decimal_digits(s.subrange(start, n)) && decimal_value(s.subrange(start, n))
            <= u64::MAX),
{
    let d = s.subrange(start, n);
    if all_decimal_digits(d) {
        lemma_decimal_value_monotone(d, i + 1 - start);
        assert(d.subrange(0, i + 1 - start) =~= s.subrange(start, i + 1));
    }
}


proof fn lemma_trim_start_blank_prefix(pre: Seq<char>, x: Seq<char>)
    requires
        is_blank_spec(pre),
    ensures
        trim_start_spec(pre + x) == trim_start_spec(x),
    decreases pre.len(),
{
    if pre.len() > 0 {
        assert((pre + x)[0] == pre[0]);
        assert((pre + x).drop_first() =~= pre.drop_first() + x);
        assert forall|i: int| 0 <= i < pre.drop_first().len() implies is_unicode_whitespace(
            #[trigger] pre.drop_first()[i],
        ) by {
            assert(pre.drop_first()[i] == pre[i + 1]);
        }
        lemma_trim_start_blank_prefix(pre.drop_first(), x);
    } else {
        assert(pre + x =~= x);
    }
}

proof fn lemma_trim_end_blank_suffix(y: Seq<char>, post: Seq<char>)
    requires
        is_blank_spec(post),
    ensures
        trim_end_spec(y + post) == trim_end_spec(y),
    decreases post.len(),
{
    if post.len() > 0 {
        assert((y + post).last() == post.last());
        assert(is_unicode_whitespace(post[post.len() - 1]));
        assert((y + post).drop_last() =~= y + post.drop_last());
        assert forall|i: int| 0 <= i < post.drop_last().len() implies is_unicode_whitespace(
            #[trigger] post.drop_last()[i],
        ) by {
            assert(post.drop_last()[i] == post[i]);
        }
        lemma_trim_end_blank_suffix(y, post.drop_last());
    } else {
        assert(y + post =~= y);
    }
}

proof fn lemma_trim_start_append(s: Seq<char>, t: Seq<char>)
    requires
        !is_blank_spec(s),
    ensures
        trim_start_spec(s + t) == trim_start_spec(s) + t,
    decreases s.len(),
{
    assert(s.len() > 0);
    assert((s + t)[0] == s[0]);
    if is_unicode_whitespace(s[0]) {
        assert((s + t).drop_first() =~= s.drop_first() + t);
        assert(!is_blank_spec(s.drop_first())) by {
            let i = choose|i: int| 0 <= i < s.len() && !is_unicode_whitespace(#[trigger] s[i]);
            assert(i != 0);
            assert(s.drop_first()[i - 1] == s[i]);
        }
        lemma_trim_start_append(s.drop_first(), t);
    }
}

/// White space around a text never changes what `trim` leaves of it.
pub proof fn lemma_trim_ignores_surrounding_blank(pre: Seq<char>, s: Seq<char>, post: Seq<char>)
    requires
        is_blank_spec(pre),
        is_blank_spec(post),
    ensures
        trim_spec(pre + s + post) == trim_spec(s),
{
    lemma_trim_start_blank_prefix(pre, s + post);
    assert(pre + s + post =~= pre + (s + post));
    if is_blank_spec(s) {
        assert(is_blank_spec(s + post)) by {
            assert forall|i: int| 0 <= i < (s + post).len() implies is_unicode_whitespace(
                #[trigger] (s + post)[i],
            ) by {
                if i < s.len() {
                    assert((s + post)[i] == s[i]);
                } else {
                    assert((s + post)[i] == post[i - s.len()]);
                }
            }
        }
        lemma_trim_start_blank(s + post);
        lemma_trim_start_blank(s);
        assert(trim_start_spec(s + post) =~= trim_start_spec(s));
    } else {
        lemma_trim_start_append(s, post);
        lemma_trim_end_blank_suffix(trim_start_spec(s), post);
    }
}


/// A text that neither starts nor ends with white space is its own `trim`.
pub proof fn lemma_trim_keeps_unpadded(s: Seq<char>)
    requires
        s.len() > 0,
        !is_unicode_whitespace(s[0]),
        !is_unicode_whitespace(s.last()),
    ensures
        trim_spec(s) == s,
{
    assert(trim_start_spec(s) == s);
    assert(trim_end_spec(s) == s);
}

} // verus!
