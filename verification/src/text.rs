//! Text primitives used by the mapping rules: Unicode whitespace trimming,
//! comparison with expected words, decimal `u8` parsing and byte-wise
//! lexicographic order.
use vstd::prelude::*;
use vstd::string::*;

verus! {

/// Characters with the Unicode `White_Space` property, the set that
/// `char::is_whitespace` and `str::trim` use.
pub open spec fn is_unicode_whitespace(c: char) -> bool {
    let u = c as u32;
    ||| 0x9 <= u <= 0xD
    ||| u == 0x20
    ||| u == 0x85
    ||| u == 0xA0
    ||| u == 0x1680
    ||| 0x2000 <= u <= 0x200A
    ||| u == 0x2028
    ||| u == 0x2029
    ||| u == 0x202F
    ||| u == 0x205F
    ||| u == 0x3000
}

/// `s` without its leading whitespace.
pub open spec fn trim_leading(s: Seq<char>) -> Seq<char>
    decreases s.len(),
{
    if s.len() > 0 && is_unicode_whitespace(s[0]) {
        trim_leading(s.drop_first())
    } else {
        s
    }
}

/// `s` without its trailing whitespace.
pub open spec fn trim_trailing(s: Seq<char>) -> Seq<char>
    decreases s.len(),
{
    if s.len() > 0 && is_unicode_whitespace(s.last()) {
        trim_trailing(s.drop_last())
    } else {
        s
    }
}

/// `s` without leading and trailing whitespace, as `str::trim` returns it.
pub open spec fn trim(s: Seq<char>) -> Seq<char> {
    trim_trailing(trim_leading(s))
}

proof fn lemma_trim_leading_starts_with_content(s: Seq<char>)
    ensures
        trim_leading(s).len() > 0 ==> !is_unicode_whitespace(trim_leading(s)[0]),
        trim_leading(s).len() <= s.len(),
    decreases s.len(),
{
    if s.len() > 0 && is_unicode_whitespace(s[0]) {
        lemma_trim_leading_starts_with_content(s.drop_first());
    }
}

proof fn lemma_trim_trailing_ends_with_content(s: Seq<char>)
    ensures
        trim_trailing(s).len() > 0 ==> !is_unicode_whitespace(trim_trailing(s).last()),
        trim_trailing(s) =~= s.subrange(0, trim_trailing(s).len() as int),
        trim_trailing(s).len() <= s.len(),
    decreases s.len(),
{
    if s.len() > 0 && is_unicode_whitespace(s.last()) {
        lemma_trim_trailing_ends_with_content(s.drop_last());
    }
}

/// Trimming twice is trimming once, so text that was already trimmed is
/// read the same as the raw text.
pub proof fn lemma_trim_idempotent(s: Seq<char>)
    ensures
        trim(trim(s)) == trim(s),
{
    let x = trim_leading(s);
    let y = trim_trailing(x);
    lemma_trim_leading_starts_with_content(s);
    lemma_trim_trailing_ends_with_content(x);
    lemma_trim_trailing_ends_with_content(y);
    // `y` starts where `x` does, so it has no leading whitespace.
    if y.len() > 0 {
        assert(y[0] == x[0]);
    }
    assert(trim_leading(y) == y);
    // `y` ends with content, so it has no trailing whitespace.
    assert(trim_trailing(y) == y);
}

/// Whether `c` has the Unicode `White_Space` property.
pub fn is_whitespace(c: char) -> (b: bool)
    ensures
        b == is_unicode_whitespace(c),
{
    let u = c as u32;
    (0x9 <= u && u <= 0xD) || u == 0x20 || u == 0x85 || u == 0xA0 || u == 0x1680 || (0x2000 <= u
        && u <= 0x200A) || u == 0x2028 || u == 0x2029 || u == 0x202F || u == 0x205F || u == 0x3000
}

/// The character bounds of the trimmed part of `s`.
pub fn trim_bounds(s: &str) -> (bounds: (usize, usize))
    ensures
        bounds.0 <= bounds.1 <= s@.len(),
        s@.subrange(bounds.0 as int, bounds.1 as int) == trim(s@),
{
    let n = s.unicode_len();
    let mut i: usize = 0;
    assert(s@.subrange(0, n as int) =~= s@);
    while i < n && is_whitespace(s.get_char(i))
        invariant
            i <= n,
            n == s@.len(),
            trim_leading(s@) == trim_leading(s@.subrange(i as int, n as int)),
        decreases n - i,
    {
        assert(s@.subrange(i as int, n as int).drop_first() =~= s@.subrange(i + 1, n as int));
        i = i + 1;
    }
    assert(trim_leading(s@) == s@.subrange(i as int, n as int)) by {
        if i == n {
            assert(s@.subrange(i as int, n as int).len() == 0);
        }
    }
    let mut j: usize = n;
    while j > i && is_whitespace(s.get_char(j - 1))
        invariant
            i <= j <= n,
            n == s@.len(),
            trim(s@) == trim_trailing(s@.subrange(i as int, j as int)),
        decreases j,
    {
        assert(s@.subrange(i as int, j as int).drop_last() =~= s@.subrange(i as int, j - 1));
        j = j - 1;
    }
    (i, j)
}

/// Whether the characters of `s` in `start..end` spell exactly `word`.
pub fn range_equals(s: &str, start: usize, end: usize, word: &str) -> (b: bool)
    requires
        start <= end <= s@.len(),
    ensures
        b == (s@.subrange(start as int, end as int) == word@),
{
    let len = word.unicode_len();
    if end - start != len {
        return false;
    }
    let mut k: usize = 0;
    while k < len
        invariant
            k <= len,
            len == word@.len(),
            start <= end <= s@.len(),
            end - start == len,
            forall|m: int| 0 <= m < k ==> s@[start + m] == word@[m],
        decreases len - k,
    {
        if s.get_char(start + k) != word.get_char(k) {
            assert(s@.subrange(start as int, end as int)[k as int] != word@[k as int]);
            return false;
        }
        k = k + 1;
    }
    assert(s@.subrange(start as int, end as int) =~= word@);
    true
}

/// Whether `s` is exactly `word`.
pub fn str_equals(s: &str, word: &str) -> (b: bool)
    ensures
        b == (s@ == word@),
{
    let n = s.unicode_len();
    assert(s@.subrange(0, n as int) =~= s@);
    range_equals(s, 0, n, word)
}

/// Whether the trimmed form of `s` is exactly `word`.
pub fn trimmed_equals(s: &str, word: &str) -> (b: bool)
    ensures
        b == (trim(s@) == word@),
{
    let (start, end) = trim_bounds(s);
    range_equals(s, start, end, word)
}

/// Whether `c` is an ASCII decimal digit.
pub open spec fn is_ascii_digit(c: char) -> bool {
    '0' as u32 <= c as u32 <= '9' as u32
}

/// The value of an ASCII decimal digit.
pub open spec fn digit_value(c: char) -> nat {
    (c as u32 - '0' as u32) as nat
}

/// The value of a sequence of decimal digits, most significant first.
pub open spec fn decimal_value(digits: Seq<char>) -> nat
    decreases digits.len(),
{
    if digits.len() == 0 {
        0
    } else {
        decimal_value(digits.drop_last()) * 10 + digit_value(digits.last())
    }
}

/// The digits of an unsigned decimal: the text without one leading `+`.
pub open spec fn unsigned_digits(t: Seq<char>) -> Seq<char> {
    if t.len() > 0 && t[0] == '+' {
        t.drop_first()
    } else {
        t
    }
}

/// What `str::parse::<u8>` yields: an optional `+` followed by at least one
/// ASCII digit, with a value that fits in a `u8`; anything else is refused.
pub open spec fn parse_u8_value(t: Seq<char>) -> Option<u8> {
    let digits = unsigned_digits(t);
    if digits.len() > 0 && (forall|i: int| 0 <= i < digits.len() ==> is_ascii_digit(digits[i]))
        && decimal_value(digits) <= 255 {
        Some(decimal_value(digits) as u8)
    } else {
        None
    }
}

/// Parses the characters of `s` in `start..end` as a `u8`.
pub fn parse_u8_range(s: &str, start: usize, end: usize) -> (value: Option<u8>)
    requires
        start <= end <= s@.len(),
    ensures
        value == parse_u8_value(s@.subrange(start as int, end as int)),
{
    let ghost t = s@.subrange(start as int, end as int);
    let mut k = start;
    if start < end && s.get_char(start) == '+' {
        k = start + 1;
    }
    let ghost digits = unsigned_digits(t);
    assert(digits =~= s@.subrange(k as int, end as int));
    if k == end {
        return None;
    }
    let mut acc: u32 = 0;
    let mut i = k;
    assert(s@.subrange(k as int, k as int) =~= Seq::<char>::empty());
    while i < end
        invariant
            k <= i <= end <= s@.len(),
            digits == s@.subrange(k as int, end as int),
            digits == unsigned_digits(t),
            t == s@.subrange(start as int, end as int),
            forall|m: int| k <= m < i ==> is_ascii_digit(#[trigger] s@[m]),
            acc == (if decimal_value(s@.subrange(k as int, i as int)) > 255 {
                256
            } else {
                decimal_value(s@.subrange(k as int, i as int))
            }),
        decreases end - i,
    {
        let c = s.get_char(i);
        let u = c as u32;
        if !(('0' as u32) <= u && u <= ('9' as u32)) {
            assert(digits[i - k] == c);
            assert(!is_ascii_digit(digits[i - k]));
            return None;
        }
        let d = u - ('0' as u32);
        assert(s@.subrange(k as int, i + 1).drop_last() =~= s@.subrange(k as int, i as int));
        if acc > 255 {
            acc = 256;
        } else {
            let v = acc * 10 + d;
            if v > 255 {
                acc = 256;
            } else {
                acc = v;
            }
        }
        i = i + 1;
    }
    assert(s@.subrange(k as int, end as int) == digits);
    if acc > 255 {
        None
    } else {
        Some(acc as u8)
    }
}

/// Byte-wise lexicographic order, the order of file names within one
/// directory.
pub open spec fn bytes_less(a: Seq<u8>, b: Seq<u8>) -> bool
    decreases a.len(),
{
    if a.len() == 0 {
        b.len() > 0
    } else if b.len() == 0 {
        false
    } else if a[0] != b[0] {
        a[0] < b[0]
    } else {
        bytes_less(a.drop_first(), b.drop_first())
    }
}

/// No byte sequence comes before itself, and of two sequences at most one
/// comes first.
pub proof fn lemma_bytes_less_asymmetric(a: Seq<u8>, b: Seq<u8>)
    ensures
        !bytes_less(a, a),
        bytes_less(a, b) ==> !bytes_less(b, a),
    decreases a.len(),
{
    if a.len() > 0 && b.len() > 0 && a[0] == b[0] {
        lemma_bytes_less_asymmetric(a.drop_first(), b.drop_first());
    }
    if a.len() > 0 {
        lemma_bytes_less_asymmetric(a.drop_first(), a.drop_first());
    }
}

/// Of two distinct byte sequences, one comes first.
pub proof fn lemma_bytes_less_total(a: Seq<u8>, b: Seq<u8>)
    ensures
        a != b ==> bytes_less(a, b) || bytes_less(b, a),
    decreases a.len(),
{
    if a.len() > 0 && b.len() > 0 && a[0] == b[0] {
        lemma_bytes_less_total(a.drop_first(), b.drop_first());
        if a.drop_first() == b.drop_first() {
            assert(a =~= seq![a[0]] + a.drop_first());
            assert(b =~= seq![b[0]] + b.drop_first());
        }
    } else if a.len() == 0 && b.len() == 0 {
        assert(a =~= b);
    }
}

/// Byte-wise lexicographic order is transitive.
pub proof fn lemma_bytes_less_transitive(a: Seq<u8>, b: Seq<u8>, c: Seq<u8>)
    requires
        bytes_less(a, b),
        bytes_less(b, c),
    ensures
        bytes_less(a, c),
    decreases a.len(),
{
    if a.len() > 0 && b.len() > 0 && c.len() > 0 && a[0] == b[0] && b[0] == c[0] {
        lemma_bytes_less_transitive(a.drop_first(), b.drop_first(), c.drop_first());
    }
}

/// Whether the byte sequence `a` comes strictly before `b`.
pub fn slice_bytes_less(a: &[u8], b: &[u8]) -> (less: bool)
    ensures
        less == bytes_less(a@, b@),
{
    let mut i: usize = 0;
    assert(a@.skip(0) =~= a@);
    assert(b@.skip(0) =~= b@);
    while i < a.len() && i < b.len() && a[i] == b[i]
        invariant
            i <= a@.len(),
            i <= b@.len(),
            bytes_less(a@, b@) == bytes_less(a@.skip(i as int), b@.skip(i as int)),
        decreases a@.len() - i,
    {
        assert(a@.skip(i as int).drop_first() =~= a@.skip(i + 1));
        assert(b@.skip(i as int).drop_first() =~= b@.skip(i + 1));
        i = i + 1;
    }
    if i == a.len() {
        i < b.len()
    } else if i == b.len() {
        false
    } else {
        a[i] < b[i]
    }
}

/// A proper prefix comes before the sequence it begins.
pub proof fn lemma_bytes_less_prefix(a: Seq<u8>, b: Seq<u8>)
    requires
        a.len() < b.len(),
        b.take(a.len() as int) == a,
    ensures
        bytes_less(a, b),
    decreases a.len(),
{
    if a.len() > 0 {
        assert(a[0] == b[0]) by {
            assert(b.take(a.len() as int)[0] == b[0]);
        }
        assert(b.drop_first().take(a.drop_first().len() as int) =~= a.drop_first()) by {
            assert forall|i: int| 0 <= i < a.len() - 1 implies b.drop_first()[i] == a.drop_first()[i] by {
                assert(b.take(a.len() as int)[i + 1] == b[i + 1]);
            }
        }
        lemma_bytes_less_prefix(a.drop_first(), b.drop_first());
    }
}

/// After a common prefix, the first differing byte decides the order.
pub proof fn lemma_bytes_less_first_difference(a: Seq<u8>, b: Seq<u8>, k: int)
    requires
        0 <= k < a.len(),
        k < b.len(),
        a.take(k) == b.take(k),
        a[k] != b[k],
    ensures
        bytes_less(a, b) <==> a[k] < b[k],
    decreases k,
{
    if k > 0 {
        assert(a[0] == b[0]) by {
            assert(a.take(k)[0] == a[0]);
            assert(b.take(k)[0] == b[0]);
        }
        assert(a.drop_first().take(k - 1) =~= b.drop_first().take(k - 1)) by {
            assert forall|i: int| 0 <= i < k - 1 implies a.drop_first()[i] == b.drop_first()[i] by {
                assert(a.take(k)[i + 1] == a[i + 1]);
                assert(b.take(k)[i + 1] == b[i + 1]);
            }
        }
        lemma_bytes_less_first_difference(a.drop_first(), b.drop_first(), k - 1);
    }
}

/// Trimming removes only whitespace, from the two ends, and leaves text
/// that neither starts nor ends with whitespace: the trimmed text stands in
/// `s` at the returned position, with only whitespace before and after it.
pub proof fn lemma_trim_removes_only_outer_whitespace(s: Seq<char>) -> (i: int)
    ensures
        trim(s).len() > 0 ==> !is_unicode_whitespace(trim(s)[0]) && !is_unicode_whitespace(
            trim(s).last(),
        ),
        0 <= i,
        i + trim(s).len() <= s.len(),
        s.subrange(i, i + trim(s).len()) == trim(s),
        forall|k: int| 0 <= k < i ==> is_unicode_whitespace(#[trigger] s[k]),
        forall|k: int| i + trim(s).len() <= k < s.len() ==> is_unicode_whitespace(#[trigger] s[k]),
{
    let i = lemma_trim_leading_is_suffix(s);
    let x = trim_leading(s);
    lemma_trim_leading_starts_with_content(s);
    lemma_trim_trailing_ends_with_content(x);
    lemma_trim_trailing_drops_whitespace(x);
    let t = trim(s);
    if t.len() > 0 {
        assert(t[0] == x[0]);
    }
    assert(s.subrange(i, i + t.len()) =~= t) by {
        assert forall|k: int| 0 <= k < t.len() implies s.subrange(i, i + t.len())[k] == t[k] by {
            assert(t[k] == x[k]);
            assert(x[k] == s[i + k]);
        }
    }
    assert forall|k: int| i + t.len() <= k < s.len() implies is_unicode_whitespace(#[trigger] s[k]) by {
        assert(x[k - i] == s[k]);
    }
    i
}

proof fn lemma_trim_leading_is_suffix(s: Seq<char>) -> (i: int)
    ensures
        0 <= i <= s.len(),
        trim_leading(s) == s.subrange(i, s.len() as int),
        forall|k: int| 0 <= k < i ==> is_unicode_whitespace(#[trigger] s[k]),
    decreases s.len(),
{
    if s.len() > 0 && is_unicode_whitespace(s[0]) {
        let j = lemma_trim_leading_is_suffix(s.drop_first());
        assert(s.drop_first().subrange(j, s.drop_first().len() as int) =~= s.subrange(
            j + 1,
            s.len() as int,
        ));
        assert forall|k: int| 0 <= k < j + 1 implies is_unicode_whitespace(#[trigger] s[k]) by {
            if k > 0 {
                assert(s[k] == s.drop_first()[k - 1]);
            }
        }
        j + 1
    } else {
        assert(s.subrange(0, s.len() as int) =~= s);
        0
    }
}

proof fn lemma_trim_trailing_drops_whitespace(s: Seq<char>)
    ensures
        forall|k: int|
            trim_trailing(s).len() <= k < s.len() ==> is_unicode_whitespace(#[trigger] s[k]),
    decreases s.len(),
{
    if s.len() > 0 && is_unicode_whitespace(s.last()) {
        lemma_trim_trailing_drops_whitespace(s.drop_last());
        assert forall|k: int| trim_trailing(s).len() <= k < s.len() implies is_unicode_whitespace(
            #[trigger] s[k],
        ) by {
            if k < s.len() - 1 {
                assert(s[k] == s.drop_last()[k]);
            }
        }
    }
}

/// The parsing rules of `u8`: one leading `+` is ignored, a single digit is
/// its value, appending a digit multiplies by ten and adds it while the
/// value fits, and any other character refuses the text.
pub proof fn lemma_parse_u8_rules(t: Seq<char>, c: char, v: u8)
    ensures
        (t.len() == 0 || t[0] != '+') ==> parse_u8_value(seq!['+'] + t) == parse_u8_value(t),
        is_ascii_digit(c) ==> parse_u8_value(seq![c]) == Some((c as u32 - '0' as u32) as u8),
        parse_u8_value(Seq::<char>::empty()) is None,
        (t.len() > 0 && t[0] != '+' && parse_u8_value(t) == Some(v) && is_ascii_digit(c)
            && v * 10 + (c as u32 - '0' as u32) <= 255) ==> parse_u8_value(t.push(c)) == Some(
            (v * 10 + (c as u32 - '0' as u32)) as u8,
        ),
        (t.len() > 0 && t[0] != '+' && parse_u8_value(t) == Some(v) && is_ascii_digit(c)
            && v * 10 + (c as u32 - '0' as u32) > 255) ==> parse_u8_value(t.push(c)) is None,
        (t.len() > 0 && t[0] != '+' && !is_ascii_digit(c)) ==> parse_u8_value(t.push(c)) is None,
{
    assert((seq!['+'] + t).drop_first() =~= t);
    assert(seq![c].drop_last() =~= Seq::<char>::empty());
    if is_ascii_digit(c) {
        assert(('+' as u32) == 43);
        assert(c != '+');
        assert(unsigned_digits(seq![c]) == seq![c]);
        assert(seq![c].last() == c);
        assert(decimal_value(Seq::<char>::empty()) == 0);
        assert(decimal_value(seq![c]) == decimal_value(seq![c].drop_last()) * 10 + digit_value(c));
        assert(decimal_value(seq![c]) == digit_value(c));
    }
    if t.len() > 0 && t[0] != '+' {
        assert(t.push(c).drop_last() =~= t);
        assert(t.push(c)[t.len() as int] == c);
        if !is_ascii_digit(c) {
            assert(unsigned_digits(t.push(c)) == t.push(c));
        }
    }
}

} // verus!
