//! Character-level helpers shared by the parsers of this crate.

use vstd::prelude::*;
use vstd::utf8::{char_is_scalar, encode_scalar, encode_utf8};

verus! {

/// `String::push` appends exactly one character to the end of the string.
pub assume_specification[ String::push ](s: &mut String, c: char)
    ensures
        final(s)@ == old(s)@.push(c),
;

/// `String::push_str` appends the characters of `t` to the end of the string.
pub assume_specification[ String::push_str ](s: &mut String, t: &str)
    ensures
        final(s)@ == old(s)@ + t@,
;

/// The characters of `s`, in order.
pub fn chars_of(s: &str) -> (v: Vec<char>)
    ensures
        v@ == s@,
{
    let mut v: Vec<char> = Vec::new();
    for c in it: s.chars()
        invariant
            v@ == it.seq().take(it.index()),
            it.seq() == s@,
    {
        v.push(c);
    }
    v
}

/// The string made of `v[from..to]`.
pub fn string_of(v: &Vec<char>, from: usize, to: usize) -> (s: String)
    requires
        from <= to <= v.len(),
    ensures
        s@ == v@.subrange(from as int, to as int),
{
    let mut s = String::new();
    let mut i: usize = from;
    while i < to
        invariant
            from <= i <= to <= v.len(),
            s@ == v@.subrange(from as int, i as int),
        decreases to - i,
    {
        s.push(v[i]);
        i += 1;
    }
    s
}

/// Whether `c` is white space: the code points that carry the Unicode property
/// `White_Space`.
pub open spec fn is_space(c: char) -> bool {
    let n = c as u32;
    (0x09 <= n <= 0x0D) || n == 0x20 || n == 0x85 || n == 0xA0 || n == 0x1680 || (0x2000 <= n
        <= 0x200A) || n == 0x2028 || n == 0x2029 || n == 0x202F || n == 0x205F || n == 0x3000
}

pub fn is_space_char(c: char) -> (r: bool)
    ensures
        r == is_space(c),
{
    let n: u32 = c as u32;
    (0x09 <= n && n <= 0x0D) || n == 0x20 || n == 0x85 || n == 0xA0 || n == 0x1680 || (0x2000 <= n
        && n <= 0x200A) || n == 0x2028 || n == 0x2029 || n == 0x202F || n == 0x205F || n == 0x3000
}

/// How many white-space characters `s` begins with.
pub open spec fn leading_spaces(s: Seq<char>) -> int
    decreases s.len(),
{
    if s.len() > 0 && is_space(s[0]) {
        1 + leading_spaces(s.drop_first())
    } else {
        0
    }
}

/// How many white-space characters `s` ends with.
pub open spec fn trailing_spaces(s: Seq<char>) -> int
    decreases s.len(),
{
    if s.len() > 0 && is_space(s.last()) {
        1 + trailing_spaces(s.drop_last())
    } else {
        0
    }
}

/// `s` without the white space at its two ends.
pub open spec fn trim(s: Seq<char>) -> Seq<char> {
    let rest = s.skip(leading_spaces(s));
    rest.take(rest.len() - trailing_spaces(rest))
}

/// `k` is the number of leading white-space characters of `s` as soon as the
/// first `k` characters are white space and the one after them is not.
pub proof fn lemma_leading_spaces(s: Seq<char>, k: int)
    requires
        0 <= k <= s.len(),
        forall|i: int| 0 <= i < k ==> is_space(#[trigger] s[i]),
        k == s.len() || !is_space(s[k]),
    ensures
        leading_spaces(s) == k,
    decreases k,
{
    if k > 0 {
        let t = s.drop_first();
        assert forall|i: int| 0 <= i < k - 1 implies is_space(#[trigger] t[i]) by {
            assert(t[i] == s[i + 1]);
        }
        lemma_leading_spaces(t, k - 1);
    }
}

/// The mirror image of `lemma_leading_spaces`, counted from the end.
pub proof fn lemma_trailing_spaces(s: Seq<char>, k: int)
    requires
        0 <= k <= s.len(),
        forall|i: int| s.len() - k <= i < s.len() ==> is_space(#[trigger] s[i]),
        k == s.len() || !is_space(s[s.len() - k - 1]),
    ensures
        trailing_spaces(s) == k,
    decreases k,
{
    if k > 0 {
        let t = s.drop_last();
        assert forall|i: int| t.len() - (k - 1) <= i < t.len() implies is_space(
            #[trigger] t[i],
        ) by {
            assert(t[i] == s[i]);
        }
        lemma_trailing_spaces(t, k - 1);
    }
}

/// The bounds of `trim(v[from..to])` inside `v`.
pub fn trim_bounds(v: &Vec<char>, from: usize, to: usize) -> (r: (usize, usize))
    requires
        from <= to <= v.len(),
    ensures
        from <= r.0 <= r.1 <= to,
        v@.subrange(r.0 as int, r.1 as int) == trim(v@.subrange(from as int, to as int)),
{
    let ghost s = v@.subrange(from as int, to as int);
    let mut a: usize = from;
    while a < to && is_space_char(v[a])
        invariant
            from <= a <= to <= v.len(),
            forall|i: int| from <= i < a ==> is_space(#[trigger] v@[i]),
        decreases to - a,
    {
        a += 1;
    }
    let mut b: usize = to;
    while b > a && is_space_char(v[b - 1])
        invariant
            a <= b <= to <= v.len(),
            forall|i: int| b <= i < to ==> is_space(#[trigger] v@[i]),
        decreases b - a,
    {
        b -= 1;
    }
    proof {
        assert forall|i: int| 0 <= i < a - from implies is_space(#[trigger] s[i]) by {
            assert(s[i] == v@[from + i]);
        }
        lemma_leading_spaces(s, a - from);
        let rest = s.skip(a - from);
        assert(rest == v@.subrange(a as int, to as int));
        assert forall|i: int| rest.len() - (to - b) <= i < rest.len() implies is_space(
            #[trigger] rest[i],
        ) by {
            assert(rest[i] == v@[a + i]);
        }
        lemma_trailing_spaces(rest, to - b);
        assert(rest.take(rest.len() - (to - b)) == v@.subrange(a as int, b as int));
    }
    (a, b)
}

/// The position of the first `c` in `s`, or the length of `s` where there is none.
pub open spec fn find(s: Seq<char>, c: char) -> int
    decreases s.len(),
{
    if s.len() == 0 || s[0] == c {
        0
    } else {
        1 + find(s.drop_first(), c)
    }
}

/// `k` is `find(s, c)` as soon as no `c` stands before `k` and `k` is the end of
/// `s` or holds a `c`.
pub proof fn lemma_find_is(s: Seq<char>, c: char, k: int)
    requires
        0 <= k <= s.len(),
        forall|i: int| 0 <= i < k ==> #[trigger] s[i] != c,
        k == s.len() || s[k] == c,
    ensures
        find(s, c) == k,
    decreases k,
{
    if k > 0 {
        let t = s.drop_first();
        assert(s[0] != c);
        assert forall|i: int| 0 <= i < k - 1 implies #[trigger] t[i] != c by {
            assert(t[i] == s[i + 1]);
        }
        lemma_find_is(t, c, k - 1);
    }
}

/// Whether `c` occurs in `s`.
pub open spec fn has_char(s: Seq<char>, c: char) -> bool {
    find(s, c) < s.len()
}

/// The position in `v` of the first `c` at or after `from` and before `to`, or
/// `to` where there is none.
pub fn find_char(v: &Vec<char>, from: usize, to: usize, c: char) -> (k: usize)
    requires
        from <= to <= v.len(),
    ensures
        from <= k <= to,
        k - from == find(v@.subrange(from as int, to as int), c),
{
    let mut k: usize = from;
    while k < to && v[k] != c
        invariant
            from <= k <= to <= v.len(),
            forall|i: int| from <= i < k ==> #[trigger] v@[i] != c,
        decreases to - k,
    {
        k += 1;
    }
    proof {
        let s = v@.subrange(from as int, to as int);
        assert forall|i: int| 0 <= i < k - from implies #[trigger] s[i] != c by {
            assert(s[i] == v@[from + i]);
        }
        lemma_find_is(s, c, k - from);
    }
    k
}

/// The number of bytes that `s` takes in UTF-8.
pub open spec fn utf8_len(s: Seq<char>) -> nat {
    encode_utf8(s).len()
}

/// One more character adds the bytes of its own encoding.
pub proof fn lemma_utf8_len_push(s: Seq<char>, c: char)
    ensures
        utf8_len(s.push(c)) == utf8_len(s) + encode_scalar(c as u32).len(),
    decreases s.len(),
{
    if s.len() == 0 {
        assert(s.push(c).drop_first() == s);
    } else {
        assert(s.push(c).drop_first() == s.drop_first().push(c));
        lemma_utf8_len_push(s.drop_first(), c);
    }
}

/// Whether `v[from..to]` takes more than `limit` bytes in UTF-8.
pub fn utf8_longer_than(v: &Vec<char>, from: usize, to: usize, limit: usize) -> (r: bool)
    requires
        from <= to <= v.len(),
    ensures
        r == (utf8_len(v@.subrange(from as int, to as int)) > limit),
{
    let mut total: u128 = 0;
    let mut i: usize = from;
    assert(v@.subrange(from as int, from as int) == Seq::<char>::empty());
    while i < to
        invariant
            from <= i <= to <= v.len(),
            total == utf8_len(v@.subrange(from as int, i as int)),
            total <= 4 * (i - from),
        decreases to - i,
    {
        let n: u32 = v[i] as u32;
        let w: u128 = if n < 0x80 {
            1
        } else if n < 0x800 {
            2
        } else if n < 0x10000 {
            3
        } else {
            4
        };
        proof {
            char_is_scalar(v@[i as int]);
            assert(w == encode_scalar(v@[i as int] as u32).len());
            assert(v@.subrange(from as int, i + 1) == v@.subrange(from as int, i as int).push(
                v@[i as int],
            ));
            lemma_utf8_len_push(v@.subrange(from as int, i as int), v@[i as int]);
        }
        total = total + w;
        i += 1;
    }
    total > limit as u128
}

/// Whether `c` is one of the ten ASCII digits.
pub open spec fn is_digit(c: char) -> bool {
    0x30 <= c as u32 <= 0x39
}

/// The number that the digit `c` stands for.
pub open spec fn digit_value(c: char) -> int {
    c as u32 - 0x30
}

/// Whether every character of `s` is an ASCII digit.
pub open spec fn all_digits(s: Seq<char>) -> bool {
    forall|i: int| 0 <= i < s.len() ==> is_digit(#[trigger] s[i])
}

/// The number that the digits of `s` spell in base ten.
pub open spec fn decimal_value(s: Seq<char>) -> int
    decreases s.len(),
{
    if s.len() == 0 {
        0
    } else {
        10 * decimal_value(s.drop_last()) + digit_value(s.last())
    }
}

/// The digits of a count: `s` without one leading plus sign.
pub open spec fn count_digits(s: Seq<char>) -> Seq<char> {
    if s.len() > 0 && s[0] == '+' {
        s.drop_first()
    } else {
        s
    }
}

/// Whether `s` spells a line count: at least one digit, nothing but digits after
/// an optional plus sign, and a value that fits in `i32`.
pub open spec fn is_count(s: Seq<char>) -> bool {
    let d = count_digits(s);
    d.len() > 0 && all_digits(d) && decimal_value(d) <= i32::MAX
}

/// The line count that `s` spells, and zero where it spells none.
pub open spec fn count_value(s: Seq<char>) -> int {
    if is_count(s) {
        decimal_value(count_digits(s))
    } else {
        0
    }
}

/// A prefix of a run of digits spells no larger a number than the whole run.
pub proof fn lemma_decimal_prefix(s: Seq<char>, k: int)
    requires
        all_digits(s),
        0 <= k <= s.len(),
    ensures
        0 <= decimal_value(s.take(k)) <= decimal_value(s),
    decreases s.len() - k,
{
    if k == s.len() {
        assert(s.take(k) == s);
        lemma_decimal_nonnegative(s);
    } else {
        let t = s.drop_last();
        assert(is_digit(s.last()));
        assert forall|i: int| 0 <= i < t.len() implies is_digit(#[trigger] t[i]) by {
            assert(t[i] == s[i]);
        }
        lemma_decimal_prefix(t, k);
        assert(t.take(k) == s.take(k));
    }
}

/// A run of digits spells a number that is not negative.
pub proof fn lemma_decimal_nonnegative(s: Seq<char>)
    requires
        all_digits(s),
    ensures
        0 <= decimal_value(s),
    decreases s.len(),
{
    if s.len() > 0 {
        let t = s.drop_last();
        assert(is_digit(s.last()));
        assert forall|i: int| 0 <= i < t.len() implies is_digit(#[trigger] t[i]) by {
            assert(t[i] == s[i]);
        }
        lemma_decimal_nonnegative(t);
    }
}

/// No text spells a negative line count.
pub proof fn lemma_count_nonnegative(s: Seq<char>)
    ensures
        count_value(s) >= 0,
{
    if is_count(s) {
        lemma_decimal_nonnegative(count_digits(s));
    }
}

/// The line count that `v[from..to]` spells, and zero where it spells none.
#[verifier::loop_isolation(false)]
pub fn parse_count(v: &Vec<char>, from: usize, to: usize) -> (r: i32)
    requires
        from <= to <= v.len(),
    ensures
        r == count_value(v@.subrange(from as int, to as int)),
        r >= 0,
{
    let ghost s = v@.subrange(from as int, to as int);
    let a: usize = if from < to && v[from] == '+' {
        from + 1
    } else {
        from
    };
    let ghost d = count_digits(s);
    assert(d == v@.subrange(a as int, to as int));
    if a == to {
        return 0;
    }
    let mut acc: i64 = 0;
    let mut i: usize = a;
    while i < to
        invariant
            a <= i <= to <= v.len(),
            d == v@.subrange(a as int, to as int),
            all_digits(d.take(i - a)),
            acc == decimal_value(d.take(i - a)),
            0 <= acc <= i32::MAX,
        decreases to - i,
    {
        let n: u32 = v[i] as u32;
        if n < 0x30 || n > 0x39 {
            assert(!is_digit(d[i - a]));
            return 0;
        }
        let next: i64 = 10 * acc + (n - 0x30) as i64;
        proof {
            let p = d.take(i - a + 1);
            assert(p.drop_last() == d.take(i - a));
            assert(p.last() == v@[i as int]);
            assert(next == decimal_value(p));
            assert forall|j: int| 0 <= j < p.len() implies is_digit(#[trigger] p[j]) by {
                if j < i - a {
                    assert(p[j] == d.take(i - a)[j]);
                }
            }
        }
        if next > 2147483647 {
            proof {
                if all_digits(d) {
                    lemma_decimal_prefix(d, i - a + 1);
                }
            }
            return 0;
        }
        acc = next;
        i += 1;
    }
    assert(d.take(to - a) == d);
    acc as i32
}

/// The texts of a list of strings, in order.
pub open spec fn strings_view(v: Seq<String>) -> Seq<Seq<char>> {
    Seq::new(v.len(), |i: int| v[i]@)
}

/// The contents of a list of character buffers, in order.
pub open spec fn rows_view(v: Seq<Vec<char>>) -> Seq<Seq<char>> {
    Seq::new(v.len(), |i: int| v[i]@)
}

/// A copy of `v[from..to]`.
pub fn copy_range(v: &Vec<char>, from: usize, to: usize) -> (r: Vec<char>)
    requires
        from <= to <= v.len(),
    ensures
        r@ == v@.subrange(from as int, to as int),
{
    let mut r: Vec<char> = Vec::new();
    let mut i: usize = from;
    while i < to
        invariant
            from <= i <= to <= v.len(),
            r@ == v@.subrange(from as int, i as int),
        decreases to - i,
    {
        r.push(v[i]);
        i += 1;
    }
    r
}

/// The lines of `s`: the pieces between its line feeds.
pub open spec fn split_lines(s: Seq<char>) -> Seq<Seq<char>>
    decreases s.len(),
{
    let k = find(s, '\n');
    if 0 <= k < s.len() {
        seq![s.take(k)] + split_lines(s.skip(k + 1))
    } else {
        seq![s]
    }
}

/// The lines of `s`, each without the white space at its two ends.
pub open spec fn trimmed_lines(s: Seq<char>) -> Seq<Seq<char>> {
    split_lines(s).map_values(|line: Seq<char>| trim(line))
}

/// Splits `chars` at its line feeds and trims every line.
pub fn split_trimmed_lines(chars: &Vec<char>) -> (out: Vec<Vec<char>>)
    ensures
        rows_view(out@) == trimmed_lines(chars@),
{
    let n = chars.len();
    let mut out: Vec<Vec<char>> = Vec::new();
    let mut start: usize = 0;
    let mut finished = false;
    let ghost mut raw: Seq<Seq<char>> = Seq::empty();
    assert(chars@.skip(0) == chars@);
    while !finished
        invariant
            n == chars.len(),
            start <= n,
            !finished ==> split_lines(chars@) == raw + split_lines(chars@.skip(start as int)),
            finished ==> split_lines(chars@) == raw,
            rows_view(out@) == raw.map_values(|line: Seq<char>| trim(line)),
        decreases (if finished { 0int } else { 1int }) + n - start,
    {
        let k = find_char(chars, start, n, '\n');
        let (a, b) = trim_bounds(chars, start, k);
        let line = copy_range(chars, a, b);
        let ghost rest = chars@.skip(start as int);
        let ghost piece = chars@.subrange(start as int, k as int);
        proof {
            assert(chars@.subrange(start as int, n as int) == rest);
            assert(rest.take(k - start) == piece);
            if k < n {
                assert(rest.skip(k - start + 1) == chars@.skip(k + 1));
            } else {
                assert(piece == rest);
            }
            assert(raw.push(piece).map_values(|line: Seq<char>| trim(line)) == raw.map_values(
                |line: Seq<char>| trim(line),
            ).push(trim(piece)));
            assert(rows_view(out@.push(line)) == rows_view(out@).push(line@));
            assert(raw + (seq![piece] + split_lines(chars@.skip(k + 1))) == raw.push(piece)
                + split_lines(chars@.skip(k + 1)));
            assert(raw + seq![piece] == raw.push(piece));
        }
        out.push(line);
        proof {
            raw = raw.push(piece);
        }
        if k < n {
            start = k + 1;
        } else {
            finished = true;
        }
    }
    out
}

/// Whether two buffers hold the same characters.
pub fn same_chars(a: &Vec<char>, b: &Vec<char>) -> (r: bool)
    ensures
        r == (a@ == b@),
{
    if a.len() != b.len() {
        return false;
    }
    let mut i: usize = 0;
    while i < a.len()
        invariant
            i <= a.len(),
            a.len() == b.len(),
            forall|j: int| 0 <= j < i ==> a@[j] == b@[j],
        decreases a.len() - i,
    {
        if a[i] != b[i] {
            return false;
        }
        i += 1;
    }
    assert(a@ =~= b@);
    true
}

/// Whether two strings hold the same text.
pub fn same_text(a: &str, b: &str) -> (r: bool)
    ensures
        r == (a@ == b@),
{
    let x = chars_of(a);
    let y = chars_of(b);
    same_chars(&x, &y)
}

/// The two parts of `s` around its first `c`; `None` where `s` holds no `c`.
pub open spec fn cut(s: Seq<char>, c: char) -> Option<(Seq<char>, Seq<char>)> {
    if has_char(s, c) {
        Some((s.take(find(s, c)), s.skip(find(s, c) + 1)))
    } else {
        None
    }
}

/// The position of the first `c` of `line` at or after `from`, or the length of
/// `line`: the place at which `cut` parts what follows `from`.
pub fn cut_at(line: &Vec<char>, from: usize, c: char) -> (k: usize)
    requires
        from <= line.len(),
    ensures
        from <= k <= line.len(),
        k == line.len() ==> cut(line@.skip(from as int), c) is None,
        k < line.len() ==> cut(line@.skip(from as int), c) == Some(
            (line@.subrange(from as int, k as int), line@.skip(k + 1)),
        ),
        k - from == find(line@.skip(from as int), c),
{
    let k = find_char(line, from, line.len(), c);
    proof {
        let rest = line@.skip(from as int);
        assert(line@.subrange(from as int, line.len() as int) == rest);
        assert(rest.take(k - from) == line@.subrange(from as int, k as int));
        if k < line.len() {
            assert(rest.skip(k - from + 1) == line@.skip(k + 1));
        }
    }
    k
}

/// Whether `s` begins with `p`.
pub open spec fn starts_with(s: Seq<char>, p: Seq<char>) -> bool {
    p.len() <= s.len() && s.take(p.len() as int) == p
}

/// Whether `s` ends with `p`.
pub open spec fn ends_with(s: Seq<char>, p: Seq<char>) -> bool {
    p.len() <= s.len() && s.skip(s.len() - p.len()) == p
}

/// Whether `p` stands in `s` at position `i`.
pub open spec fn occurs_at(s: Seq<char>, p: Seq<char>, i: int) -> bool {
    0 <= i && i + p.len() <= s.len() && s.subrange(i, i + p.len()) == p
}

/// Whether `p` stands somewhere in `s`.
pub open spec fn has_text(s: Seq<char>, p: Seq<char>) -> bool {
    exists|i: int| occurs_at(s, p, i)
}

/// Whether `p` stands in `v` at position `i`.
pub fn matches_at(v: &Vec<char>, p: &Vec<char>, i: usize) -> (r: bool)
    ensures
        r == occurs_at(v@, p@, i as int),
{
    if p.len() > v.len() || i > v.len() - p.len() {
        return false;
    }
    let mut j: usize = 0;
    while j < p.len()
        invariant
            j <= p.len(),
            i + p.len() <= v.len(),
            forall|k: int| 0 <= k < j ==> v@[i + k] == p@[k],
        decreases p.len() - j,
    {
        if v[i + j] != p[j] {
            assert(v@.subrange(i as int, i + p.len())[j as int] != p@[j as int]);
            return false;
        }
        j += 1;
    }
    assert(v@.subrange(i as int, i + p.len()) =~= p@);
    true
}

/// Whether `v` begins with `p`.
pub fn begins_with(v: &Vec<char>, p: &Vec<char>) -> (r: bool)
    ensures
        r == starts_with(v@, p@),
{
    let r = matches_at(v, p, 0);
    proof {
        if p.len() <= v.len() {
            assert(v@.take(p.len() as int) == v@.subrange(0, 0 + p.len()));
        }
    }
    r
}

/// Whether `p` stands somewhere in `v`.
pub fn contains_text(v: &Vec<char>, p: &Vec<char>) -> (r: bool)
    ensures
        r == has_text(v@, p@),
{
    if p.len() > v.len() {
        return false;
    }
    let last: usize = v.len() - p.len();
    let mut i: usize = 0;
    while i < last
        invariant
            i <= last,
            last == v.len() - p.len(),
            forall|k: int| 0 <= k < i ==> !occurs_at(v@, p@, k),
        decreases last - i,
    {
        if matches_at(v, p, i) {
            return true;
        }
        i += 1;
    }
    matches_at(v, p, last)
}

/// `s` without any of the copies of `p` that it ends with.
pub open spec fn strip_suffix_all(s: Seq<char>, p: Seq<char>) -> Seq<char>
    decreases s.len(),
{
    if p.len() > 0 && ends_with(s, p) {
        strip_suffix_all(s.take(s.len() - p.len()), p)
    } else {
        s
    }
}

/// The end of `v[from..to]` once the copies of `p` that it ends with are gone.
pub fn strip_end(v: &Vec<char>, from: usize, to: usize, p: &Vec<char>) -> (e: usize)
    requires
        from <= to <= v.len(),
    ensures
        from <= e <= to,
        v@.subrange(from as int, e as int) == strip_suffix_all(
            v@.subrange(from as int, to as int),
            p@,
        ),
{
    let m = p.len();
    let mut e: usize = to;
    if m == 0 {
        return e;
    }
    loop
        invariant
            from <= e <= to <= v.len(),
            m == p.len(),
            m > 0,
            strip_suffix_all(v@.subrange(from as int, e as int), p@) == strip_suffix_all(
                v@.subrange(from as int, to as int),
                p@,
            ),
        ensures
            from <= e <= to,
            v@.subrange(from as int, e as int) == strip_suffix_all(
                v@.subrange(from as int, to as int),
                p@,
            ),
        decreases e,
    {
        let ghost s = v@.subrange(from as int, e as int);
        if e - from < m {
            break;
        }
        let hit = matches_at(v, p, e - m);
        proof {
            assert(s.skip(s.len() - m) == v@.subrange(e - m, e as int));
            assert(s.take(s.len() - m) == v@.subrange(from as int, e - m));
        }
        if !hit {
            break;
        }
        e -= m;
    }
    e
}

/// A copy of a list of strings.
pub fn clone_strings(v: &Vec<String>) -> (r: Vec<String>)
    ensures
        r@ == v@,
{
    let mut r: Vec<String> = Vec::new();
    let mut i: usize = 0;
    while i < v.len()
        invariant
            i <= v.len(),
            r@ == v@.take(i as int),
        decreases v.len() - i,
    {
        r.push(v[i].clone());
        assert(v@.take(i + 1) == v@.take(i as int).push(v@[i as int]));
        i += 1;
    }
    assert(v@.take(v.len() as int) == v@);
    r
}

/// A copy of a string that may be absent.
pub fn clone_optional(o: &Option<String>) -> (r: Option<String>)
    ensures
        r == *o,
{
    match o {
        Some(s) => Some(s.clone()),
        None => None,
    }
}

/// The text of a string that may be absent.
pub open spec fn optional_view(o: Option<String>) -> Option<Seq<char>> {
    match o {
        Some(s) => Some(s@),
        None => None,
    }
}

/// The character of the digit `d`.
pub open spec fn digit_char(d: int) -> char {
    if d == 0 {
        '0'
    } else if d == 1 {
        '1'
    } else if d == 2 {
        '2'
    } else if d == 3 {
        '3'
    } else if d == 4 {
        '4'
    } else if d == 5 {
        '5'
    } else if d == 6 {
        '6'
    } else if d == 7 {
        '7'
    } else if d == 8 {
        '8'
    } else {
        '9'
    }
}

/// The digits of `n` in base ten, without leading zeros.
pub open spec fn decimal_digits(n: nat) -> Seq<char>
    decreases n,
{
    if n < 10 {
        seq![digit_char(n as int)]
    } else {
        decimal_digits(n / 10).push(digit_char((n % 10) as int))
    }
}

/// Appends the digits of `n` in base ten to `s`.
pub fn push_decimal(s: &mut String, n: u64)
    ensures
        final(s)@ == old(s)@ + decimal_digits(n as nat),
    decreases n,
{
    if n >= 10 {
        push_decimal(s, n / 10);
    }
    let d: u64 = n % 10;
    let c: char = if d == 0 {
        '0'
    } else if d == 1 {
        '1'
    } else if d == 2 {
        '2'
    } else if d == 3 {
        '3'
    } else if d == 4 {
        '4'
    } else if d == 5 {
        '5'
    } else if d == 6 {
        '6'
    } else if d == 7 {
        '7'
    } else if d == 8 {
        '8'
    } else {
        '9'
    };
    s.push(c);
    proof {
        if n >= 10 {
            assert(old(s)@ + decimal_digits((n / 10) as nat).push(c) == (old(s)@ + decimal_digits(
                (n / 10) as nat,
            )).push(c));
        } else {
            assert(old(s)@ + seq![c] == old(s)@.push(c));
        }
    }
}

/// The text that `str::to_lowercase` makes of `s`: every character replaced by
/// its lower-case form as Unicode gives it.
pub uninterp spec fn lowercase(s: Seq<char>) -> Seq<char>;

/// `str::to_lowercase`. The contract names the result.
#[verifier::external_body]
pub(crate) fn to_lowercase(s: &str) -> (r: String)
    ensures
        r@ == lowercase(s@),
{
    s.to_lowercase()
}

} // verus!
