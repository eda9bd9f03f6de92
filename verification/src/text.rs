//! Character classes, trimming, splitting, and decimal rendering over
//! `Seq<char>` views, together with the executable routines that compute them.

use vstd::prelude::*;
use vstd::std_specs::iter::IteratorSpec;

verus! {

pub open spec fn is_ascii_digit(c: char) -> bool {
    '0' <= c && c <= '9'
}

pub open spec fn is_ascii_lowercase(c: char) -> bool {
    'a' <= c && c <= 'z'
}

pub open spec fn is_ascii_uppercase(c: char) -> bool {
    'A' <= c && c <= 'Z'
}

pub open spec fn is_ascii_alphabetic(c: char) -> bool {
    is_ascii_lowercase(c) || is_ascii_uppercase(c)
}

pub open spec fn is_ascii_alphanumeric(c: char) -> bool {
    is_ascii_alphabetic(c) || is_ascii_digit(c)
}

/// Hexadecimal digits of either case.
pub open spec fn is_ascii_hexdigit(c: char) -> bool {
    is_ascii_digit(c) || ('a' <= c && c <= 'f') || ('A' <= c && c <= 'F')
}

/// The lowercase hexadecimal alphabet `0-9a-f`.
pub open spec fn is_lower_hex(c: char) -> bool {
    is_ascii_digit(c) || ('a' <= c && c <= 'f')
}

pub open spec fn is_ascii(c: char) -> bool {
    (c as u32) < 128
}

/// The Unicode `White_Space` property, which is what `char::is_whitespace` tests.
pub open spec fn is_whitespace(c: char) -> bool {
    ('\u{9}' <= c && c <= '\u{d}') || c == ' ' || c == '\u{85}' || c == '\u{a0}' || c
        == '\u{1680}' || ('\u{2000}' <= c && c <= '\u{200a}') || c == '\u{2028}' || c
        == '\u{2029}' || c == '\u{202f}' || c == '\u{205f}' || c == '\u{3000}'
}

pub fn char_is_ascii_digit(c: char) -> (r: bool)
    ensures
        r == is_ascii_digit(c),
{
    '0' <= c && c <= '9'
}

pub fn char_is_ascii_lowercase(c: char) -> (r: bool)
    ensures
        r == is_ascii_lowercase(c),
{
    'a' <= c && c <= 'z'
}

pub fn char_is_ascii_alphabetic(c: char) -> (r: bool)
    ensures
        r == is_ascii_alphabetic(c),
{
    ('a' <= c && c <= 'z') || ('A' <= c && c <= 'Z')
}

pub fn char_is_ascii_alphanumeric(c: char) -> (r: bool)
    ensures
        r == is_ascii_alphanumeric(c),
{
    ('a' <= c && c <= 'z') || ('A' <= c && c <= 'Z') || ('0' <= c && c <= '9')
}

pub fn char_is_ascii_hexdigit(c: char) -> (r: bool)
    ensures
        r == is_ascii_hexdigit(c),
{
    ('0' <= c && c <= '9') || ('a' <= c && c <= 'f') || ('A' <= c && c <= 'F')
}

pub fn char_is_lower_hex(c: char) -> (r: bool)
    ensures
        r == is_lower_hex(c),
{
    ('0' <= c && c <= '9') || ('a' <= c && c <= 'f')
}

pub fn char_is_ascii(c: char) -> (r: bool)
    ensures
        r == is_ascii(c),
{
    c <= '\u{7f}'
}

pub fn char_is_whitespace(c: char) -> (r: bool)
    ensures
        r == is_whitespace(c),
{
    ('\u{9}' <= c && c <= '\u{d}') || c == ' ' || c == '\u{85}' || c == '\u{a0}' || c
        == '\u{1680}' || ('\u{2000}' <= c && c <= '\u{200a}') || c == '\u{2028}' || c
        == '\u{2029}' || c == '\u{202f}' || c == '\u{205f}' || c == '\u{3000}'
}

/// Every character of `s` is ASCII.
pub open spec fn all_ascii(s: Seq<char>) -> bool {
    forall|i: int| 0 <= i < s.len() ==> is_ascii(#[trigger] s[i])
}

/// Every character of `s` is a decimal digit.
pub open spec fn all_digits(s: Seq<char>) -> bool {
    forall|i: int| 0 <= i < s.len() ==> is_ascii_digit(#[trigger] s[i])
}

/// `c` occurs in `s`.
pub open spec fn has_char(s: Seq<char>, c: char) -> bool {
    exists|i: int| 0 <= i < s.len() && s[i] == c
}

/// `s` has no whitespace at either end, which is exactly when `str::trim` leaves it unchanged.
pub open spec fn is_trimmed(s: Seq<char>) -> bool {
    s.len() == 0 || (!is_whitespace(s[0]) && !is_whitespace(s[s.len() - 1]))
}

pub open spec fn trim_start(s: Seq<char>) -> Seq<char>
    decreases s.len(),
{
    if s.len() > 0 && is_whitespace(s[0]) {
        trim_start(s.drop_first())
    } else {
        s
    }
}

pub open spec fn trim_end(s: Seq<char>) -> Seq<char>
    decreases s.len(),
{
    if s.len() > 0 && is_whitespace(s.last()) {
        trim_end(s.drop_last())
    } else {
        s
    }
}

/// `str::trim`: leading and trailing whitespace removed.
pub open spec fn trim(s: Seq<char>) -> Seq<char> {
    trim_end(trim_start(s))
}

/// `s` begins with `prefix`.
pub open spec fn starts_with(s: Seq<char>, prefix: Seq<char>) -> bool {
    prefix.len() <= s.len() && s.subrange(0, prefix.len() as int) == prefix
}

/// `pattern` occurs in `s` at position `i`.
pub open spec fn occurs_at(s: Seq<char>, pattern: Seq<char>, i: int) -> bool {
    0 <= i && i + pattern.len() <= s.len() && s.subrange(i, i + pattern.len()) == pattern
}

/// `pattern` occurs somewhere in `s`.
pub open spec fn contains(s: Seq<char>, pattern: Seq<char>) -> bool {
    exists|i: int| occurs_at(s, pattern, i)
}

/// The pieces of `s` between occurrences of `sep`, as `str::split` yields them.
pub open spec fn split(s: Seq<char>, sep: char) -> Seq<Seq<char>>
    decreases s.len(),
{
    if s.len() == 0 {
        seq![Seq::<char>::empty()]
    } else {
        let pieces = split(s.drop_last(), sep);
        if s.last() == sep {
            pieces.push(Seq::<char>::empty())
        } else {
            pieces.update(pieces.len() - 1, pieces.last().push(s.last()))
        }
    }
}

/// Index of the first occurrence of `c` in `s`, if any.
pub open spec fn first_index_of(s: Seq<char>, c: char) -> Option<int> {
    if has_char(s, c) {
        Some(choose|i: int| 0 <= i < s.len() && s[i] == c && forall|j: int| 0 <= j < i ==> s[j] != c)
    } else {
        None
    }
}

pub proof fn lemma_split_nonempty(s: Seq<char>, sep: char)
    ensures
        split(s, sep).len() >= 1,
    decreases s.len(),
{
    if s.len() > 0 {
        lemma_split_nonempty(s.drop_last(), sep);
    }
}

/// The characters of a string slice, in order.
pub fn chars_of(s: &str) -> (v: Vec<char>)
    ensures
        v@ == s@,
{
    broadcast use vstd::string::group_string_axioms;

    let mut v: Vec<char> = Vec::new();
    for c in it: s.chars()
        invariant
            it.seq() == s@,
            v@ == s@.take(it.index() as int),
    {
        v.push(c);
    }
    assert(s@.take(s@.len() as int) == s@);
    v
}

/// Appends one character to a string (`String::push`).
#[verifier::external_body]
pub(crate) fn push_char(s: &mut String, c: char)
    ensures
        final(s)@ == old(s)@.push(c),
{
    s.push(c);
}

/// Removes and returns the last character of a string (`String::pop`).
#[verifier::external_body]
pub(crate) fn pop_char(s: &mut String) -> (r: Option<char>)
    ensures
        old(s)@.len() == 0 ==> r is None && final(s)@ == old(s)@,
        old(s)@.len() > 0 ==> r == Some(old(s)@.last()) && final(s)@ == old(s)@.drop_last(),
{
    s.pop()
}

/// A string holding the characters `v[start..end]`.
pub fn string_from_range(v: &Vec<char>, start: usize, end: usize) -> (r: String)
    requires
        start <= end <= v@.len(),
    ensures
        r@ == v@.subrange(start as int, end as int),
{
    let mut r = String::new();
    let mut i = start;
    while i < end
        invariant
            start <= i <= end <= v@.len(),
            r@ == v@.subrange(start as int, i as int),
        decreases end - i,
    {
        push_char(&mut r, v[i]);
        assert(v@.subrange(start as int, i + 1) == v@.subrange(start as int, i as int).push(
            v@[i as int],
        ));
        i = i + 1;
    }
    r
}

/// Two character ranges hold the same characters.
pub fn range_eq(a: &Vec<char>, a_start: usize, a_end: usize, b: &Vec<char>, b_start: usize, b_end: usize) -> (r: bool)
    requires
        a_start <= a_end <= a@.len(),
        b_start <= b_end <= b@.len(),
    ensures
        r == (a@.subrange(a_start as int, a_end as int) == b@.subrange(
            b_start as int,
            b_end as int,
        )),
{
    if a_end - a_start != b_end - b_start {
        assert(a@.subrange(a_start as int, a_end as int).len() != b@.subrange(
            b_start as int,
            b_end as int,
        ).len());
        return false;
    }
    let n = a_end - a_start;
    let ghost sa = a@.subrange(a_start as int, a_end as int);
    let ghost sb = b@.subrange(b_start as int, b_end as int);
    let mut i: usize = 0;
    while i < n
        invariant
            n == a_end - a_start == b_end - b_start,
            a_start <= a_end <= a@.len(),
            b_start <= b_end <= b@.len(),
            sa == a@.subrange(a_start as int, a_end as int),
            sb == b@.subrange(b_start as int, b_end as int),
            0 <= i <= n,
            forall|k: int| 0 <= k < i ==> #[trigger] sa[k] == sb[k],
        decreases n - i,
    {
        if a[a_start + i] != b[b_start + i] {
            assert(sa[i as int] != sb[i as int]);
            return false;
        }
        assert(sa[i as int] == sb[i as int]);
        i = i + 1;
    }
    assert(sa =~= sb);
    true
}

/// Two string slices hold the same characters.
pub fn str_eq(a: &str, b: &str) -> (r: bool)
    ensures
        r == (a@ == b@),
{
    let av = chars_of(a);
    let bv = chars_of(b);
    let r = range_eq(&av, 0, av.len(), &bv, 0, bv.len());
    assert(av@.subrange(0, av@.len() as int) == av@);
    assert(bv@.subrange(0, bv@.len() as int) == bv@);
    r
}

/// Every character of `v[start..end]` is a decimal digit.
pub fn range_all_digits(v: &Vec<char>, start: usize, end: usize) -> (r: bool)
    requires
        start <= end <= v@.len(),
    ensures
        r == all_digits(v@.subrange(start as int, end as int)),
{
    let mut i = start;
    while i < end
        invariant
            start <= i <= end <= v@.len(),
            forall|k: int| start <= k < i ==> is_ascii_digit(v@[k]),
        decreases end - i,
    {
        if !char_is_ascii_digit(v[i]) {
            assert(!is_ascii_digit(v@.subrange(start as int, end as int)[i - start]));
            return false;
        }
        i = i + 1;
    }
    assert forall|k: int| 0 <= k < end - start implies is_ascii_digit(
        #[trigger] v@.subrange(start as int, end as int)[k],
    ) by {
        assert(v@.subrange(start as int, end as int)[k] == v@[start + k]);
    }
    true
}

/// `trim` of `v[start..end]`, returned as the bounds of the trimmed range.
pub fn trim_range(v: &Vec<char>, start: usize, end: usize) -> (r: (usize, usize))
    requires
        start <= end <= v@.len(),
    ensures
        start <= r.0 <= r.1 <= end,
        v@.subrange(r.0 as int, r.1 as int) == trim(v@.subrange(start as int, end as int)),
{
    let mut a = start;
    while a < end && char_is_whitespace(v[a])
        invariant
            start <= a <= end <= v@.len(),
            trim_start(v@.subrange(start as int, end as int)) == trim_start(
                v@.subrange(a as int, end as int),
            ),
        decreases end - a,
    {
        assert(v@.subrange(a as int, end as int).drop_first() == v@.subrange(a + 1, end as int));
        a = a + 1;
    }
    assert(trim_start(v@.subrange(a as int, end as int)) == v@.subrange(a as int, end as int));
    let mut b = end;
    while b > a && char_is_whitespace(v[b - 1])
        invariant
            start <= a <= b <= end <= v@.len(),
            trim(v@.subrange(start as int, end as int)) == trim_end(
                v@.subrange(a as int, b as int),
            ),
        decreases b - a,
    {
        assert(v@.subrange(a as int, b as int).drop_last() == v@.subrange(a as int, b - 1));
        b = b - 1;
    }
    (a, b)
}

/// Index of the first `c` in `v[start..end]`, or `end` when there is none.
pub fn find_char(v: &Vec<char>, start: usize, end: usize, c: char) -> (r: usize)
    requires
        start <= end <= v@.len(),
    ensures
        start <= r <= end,
        forall|k: int| start <= k < r ==> v@[k] != c,
        r < end ==> v@[r as int] == c,
{
    let mut i = start;
    while i < end
        invariant
            start <= i <= end <= v@.len(),
            forall|k: int| start <= k < i ==> v@[k] != c,
        decreases end - i,
    {
        if v[i] == c {
            return i;
        }
        i = i + 1;
    }
    end
}

/// `ranges` delimit, inside `v`, exactly the pieces `pieces`, each within `[start, end]`.
pub open spec fn ranges_hold(v: Seq<char>, start: int, end: int, ranges: Seq<(usize, usize)>, pieces: Seq<Seq<char>>) -> bool {
    &&& ranges.len() == pieces.len()
    &&& forall|k: int|
        0 <= k < ranges.len() ==> start <= (#[trigger] ranges[k]).0 <= ranges[k].1 <= end
            && v.subrange(ranges[k].0 as int, ranges[k].1 as int) == pieces[k]
}

/// The bounds of every piece of `split(v[start..end], sep)`.
pub fn split_ranges(v: &Vec<char>, start: usize, end: usize, sep: char) -> (r: Vec<(usize, usize)>)
    requires
        start <= end <= v@.len(),
    ensures
        ranges_hold(v@, start as int, end as int, r@, split(v@.subrange(start as int, end as int), sep)),
{
    let mut done: Vec<(usize, usize)> = Vec::new();
    let mut piece_start = start;
    let mut i = start;
    assert(v@.subrange(start as int, start as int) =~= Seq::<char>::empty());
    while i < end
        invariant
            start <= piece_start <= i <= end <= v@.len(),
            ranges_hold(v@, start as int, end as int, done@.push((piece_start, i)), split(v@.subrange(start as int, i as int), sep)),
        decreases end - i,
    {
        let ghost prev = split(v@.subrange(start as int, i as int), sep);
        let ghost next_sub = v@.subrange(start as int, i + 1);
        assert(next_sub.drop_last() =~= v@.subrange(start as int, i as int));
        assert(next_sub.last() == v@[i as int]);
        if v[i] == sep {
            done.push((piece_start, i));
            piece_start = i + 1;
            proof {
                assert(split(next_sub, sep) == prev.push(Seq::<char>::empty()));
                assert(v@.subrange(i + 1, i + 1) =~= Seq::<char>::empty());
                let rs = done@.push((piece_start, (i + 1) as usize));
                assert forall|k: int| 0 <= k < rs.len() implies start <= (#[trigger] rs[k]).0 <= rs[k].1 <= end
                    && v@.subrange(rs[k].0 as int, rs[k].1 as int) == split(next_sub, sep)[k] by {
                    if k < rs.len() - 1 {
                        assert(rs[k] == done@[k]);
                    }
                }
            }
        } else {
            proof {
                lemma_split_nonempty(v@.subrange(start as int, i as int), sep);
                assert(split(next_sub, sep) == prev.update(prev.len() - 1, prev.last().push(v@[i as int])));
                assert(v@.subrange(piece_start as int, i + 1) =~= v@.subrange(piece_start as int, i as int).push(v@[i as int]));
                let rs = done@.push((piece_start, (i + 1) as usize));
                let old_rs = done@.push((piece_start, i));
                assert(prev.last() == v@.subrange(old_rs[old_rs.len() - 1].0 as int, old_rs[old_rs.len() - 1].1 as int));
                assert forall|k: int| 0 <= k < rs.len() implies start <= (#[trigger] rs[k]).0 <= rs[k].1 <= end
                    && v@.subrange(rs[k].0 as int, rs[k].1 as int) == split(next_sub, sep)[k] by {
                    if k < rs.len() - 1 {
                        assert(rs[k] == old_rs[k]);
                    }
                }
            }
        }
        i = i + 1;
    }
    done.push((piece_start, end));
    done
}

/// `pattern` occurs in `v` at position `i`.
pub fn occurs_at_exec(v: &Vec<char>, i: usize, pattern: &Vec<char>) -> (r: bool)
    ensures
        r == occurs_at(v@, pattern@, i as int),
{
    if i > v.len() || pattern.len() > v.len() - i {
        return false;
    }
    let r = range_eq(v, i, i + pattern.len(), pattern, 0, pattern.len());
    assert(pattern@.subrange(0, pattern@.len() as int) == pattern@);
    r
}

/// `pattern` occurs somewhere in `v`.
pub fn contains_exec(v: &Vec<char>, pattern: &Vec<char>) -> (r: bool)
    ensures
        r == contains(v@, pattern@),
{
    let mut i: usize = 0;
    while i < v.len()
        invariant
            0 <= i <= v@.len(),
            forall|k: int| 0 <= k < i ==> !occurs_at(v@, pattern@, k),
        decreases v@.len() - i,
    {
        if occurs_at_exec(v, i, pattern) {
            return true;
        }
        i = i + 1;
    }
    if occurs_at_exec(v, i, pattern) {
        return true;
    }
    assert forall|k: int| !occurs_at(v@, pattern@, k) by {
        if 0 <= k < i {
        }
    }
    false
}

/// `v` begins with `prefix`.
pub fn starts_with_exec(v: &Vec<char>, prefix: &Vec<char>) -> (r: bool)
    ensures
        r == starts_with(v@, prefix@),
{
    occurs_at_exec(v, 0, prefix)
}

/// The decimal digit character for `d`.
pub open spec fn digit_char(d: nat) -> char {
    if d == 0 {
        '0'
    } else if d == 1 {
        '1'
    } else if d == 2 {
        '2'
    } else if d == 3 {
        '3'
    } else if d == 4 {
        '4'
    } else if d == 5 {
        '5'
    } else if d == 6 {
        '6'
    } else if d == 7 {
        '7'
    } else if d == 8 {
        '8'
    } else {
        '9'
    }
}

/// The decimal rendering of `n`, without leading zeros.
pub open spec fn decimal(n: nat) -> Seq<char>
    decreases n,
{
    if n < 10 {
        seq![digit_char(n)]
    } else {
        decimal(n / 10).push(digit_char(n % 10))
    }
}

fn digit_to_char(d: u64) -> (c: char)
    requires
        d < 10,
    ensures
        c == digit_char(d as nat),
{
    if d == 0 {
        '0'
    } else if d == 1 {
        '1'
    } else if d == 2 {
        '2'
    } else if d == 3 {
        '3'
    } else if d == 4 {
        '4'
    } else if d == 5 {
        '5'
    } else if d == 6 {
        '6'
    } else if d == 7 {
        '7'
    } else if d == 8 {
        '8'
    } else {
        '9'
    }
}

/// Appends the decimal rendering of `n` to `out`.
pub fn push_decimal(out: &mut String, n: u64)
    ensures
        final(out)@ == old(out)@ + decimal(n as nat),
    decreases n,
{
    let ghost start = out@;
    if n >= 10 {
        push_decimal(out, n / 10);
    }
    let ghost before = out@;
    push_char(out, digit_to_char(n % 10));
    proof {
        if n < 10 {
            assert(out@ =~= start + decimal(n as nat));
        } else {
            assert(before == start + decimal((n / 10) as nat));
            assert(out@ =~= start + decimal((n / 10) as nat).push(digit_char((n % 10) as nat)));
        }
    }
}

/// Appends a string slice to `out`.
pub fn push_str(out: &mut String, s: &str)
    ensures
        final(out)@ == old(out)@ + s@,
{
    out.append(s);
}

/// `s` without its leading run of `c` characters.
pub open spec fn trim_leading(s: Seq<char>, c: char) -> Seq<char>
    decreases s.len(),
{
    if s.len() > 0 && s[0] == c {
        trim_leading(s.drop_first(), c)
    } else {
        s
    }
}

/// Start of `v` after its leading run of `c` characters.
pub fn skip_leading(v: &Vec<char>, c: char) -> (r: usize)
    ensures
        r <= v@.len(),
        v@.subrange(r as int, v@.len() as int) == trim_leading(v@, c),
{
    let n = v.len();
    let mut i: usize = 0;
    assert(v@.subrange(0, n as int) == v@);
    while i < n && v[i] == c
        invariant
            i <= n == v@.len(),
            trim_leading(v@, c) == trim_leading(v@.subrange(i as int, n as int), c),
        decreases n - i,
    {
        assert(v@.subrange(i as int, n as int).drop_first() == v@.subrange(i + 1, n as int));
        i = i + 1;
    }
    i
}

/// Rust's `Debug` rendering of a string: quoted, with its escapes.
pub uninterp spec fn debug_string(s: Seq<char>) -> Seq<char>;

/// The `Debug` rendering of a string slice (`<str as Debug>::fmt`).
#[verifier::external_body]
pub(crate) fn debug_text(s: &str) -> (r: String)
    ensures
        r@ == debug_string(s@),
{
    format!("{s:?}")
}

/// The lines joined with `\n` between them.
pub open spec fn join_lines(lines: Seq<Seq<char>>) -> Seq<char>
    decreases lines.len(),
{
    if lines.len() == 0 {
        Seq::empty()
    } else if lines.len() == 1 {
        lines[0]
    } else {
        join_lines(lines.drop_last()) + "\n"@ + lines.last()
    }
}

/// The characters of each string.
pub open spec fn strings_view(v: Seq<String>) -> Seq<Seq<char>> {
    Seq::new(v.len(), |i: int| v[i]@)
}

/// Joins lines with `\n` between them.
pub fn join_with_newlines(lines: &Vec<String>) -> (r: String)
    ensures
        r@ == join_lines(strings_view(lines@)),
{
    let ghost all = strings_view(lines@);
    let mut out = String::new();
    let mut i: usize = 0;
    while i < lines.len()
        invariant
            i <= lines@.len(),
            all == strings_view(lines@),
            out@ == join_lines(all.take(i as int)),
        decreases lines@.len() - i,
    {
        let ghost before = out@;
        if i > 0 {
            push_str(&mut out, "\n");
        }
        push_str(&mut out, lines[i].as_str());
        proof {
            reveal_strlit("\n");
            assert(all.take(i + 1).drop_last() == all.take(i as int));
            assert(all.take(i + 1).last() == lines@[i as int]@);
            if i == 0 {
                assert(out@ == all.take(1)[0]);
            }
        }
        i = i + 1;
    }
    assert(all.take(lines@.len() as int) == all);
    out
}

} // verus!
