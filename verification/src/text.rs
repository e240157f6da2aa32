//! Helpers on strings, stated over their views as sequences of characters.

use crate::seqs::{
    first_where, lemma_first_where, lemma_first_where_unique, lemma_leading_run_unique,
    lemma_trailing_run_unique, without_ends,
};
use vstd::prelude::*;

verus! {

/// Being the character `c`.
pub open spec fn is_char(c: char) -> spec_fn(char) -> bool {
    |x: char| x == c
}

/// The position of the first occurrence of `c` in `s`, or the length of `s`
/// where `c` does not occur.
pub open spec fn first_index_of(s: Seq<char>, c: char) -> int {
    first_where(s, is_char(c))
}

/// Whether the two strings hold the same characters.
pub fn str_eq(a: &str, b: &str) -> (r: bool)
    ensures
        r == (a@ == b@),
{
    let n: usize = a.unicode_len();
    if n != b.unicode_len() {
        return false;
    }
    let mut i: usize = 0;
    while i < n
        invariant
            n == a@.len(),
            n == b@.len(),
            i <= n,
            forall|j: int| 0 <= j < i ==> a@[j] == b@[j],
        decreases n - i,
    {
        if a.get_char(i) != b.get_char(i) {
            return false;
        }
        i += 1;
    }
    assert(a@ =~= b@);
    true
}

/// Whether `s` begins with the characters of `prefix`.
pub fn starts_with(s: &str, prefix: &str) -> (r: bool)
    ensures
        r == prefix@.is_prefix_of(s@),
{
    let n: usize = prefix.unicode_len();
    if s.unicode_len() < n {
        return false;
    }
    let mut i: usize = 0;
    while i < n
        invariant
            n == prefix@.len(),
            n <= s@.len(),
            i <= n,
            forall|j: int| 0 <= j < i ==> s@[j] == prefix@[j],
        decreases n - i,
    {
        if s.get_char(i) != prefix.get_char(i) {
            return false;
        }
        i += 1;
    }
    assert(prefix@ =~= s@.subrange(0, n as int));
    true
}

/// The position of the first `c` in `s`, counted in characters; the length
/// of `s` where there is none.
pub fn find_char(s: &str, c: char) -> (r: usize)
    ensures
        r == first_index_of(s@, c),
{
    let n: usize = s.unicode_len();
    let mut i: usize = 0;
    while i < n
        invariant
            n == s@.len(),
            i <= n,
            forall|j: int| 0 <= j < i ==> s@[j] != c,
        decreases n - i,
    {
        if s.get_char(i) == c {
            proof {
                lemma_first_where_unique(s@, is_char(c), i as int);
            }
            return i;
        }
        i += 1;
    }
    proof {
        lemma_first_where_unique(s@, is_char(c), n as int);
    }
    n
}

/// The number of leading positions at which `a` and `b` hold the same
/// character.
pub open spec fn common_prefix_len(a: Seq<char>, b: Seq<char>) -> int
    decreases a.len(),
{
    if a.len() == 0 || b.len() == 0 || a[0] != b[0] {
        0
    } else {
        1 + common_prefix_len(a.drop_first(), b.drop_first())
    }
}

/// The order of strings: `a` comes before `b` when, at the first position
/// where they differ, `a` has ended or holds the character with the smaller
/// code point.
pub open spec fn lex_less(a: Seq<char>, b: Seq<char>) -> bool {
    let k = common_prefix_len(a, b);
    k < b.len() && (k == a.len() || (a[k] as u32) < (b[k] as u32))
}

/// What `common_prefix_len` is: the two sequences agree below it, and at it
/// one of them has ended or they differ.
pub proof fn lemma_common_prefix_len(a: Seq<char>, b: Seq<char>)
    ensures
        0 <= common_prefix_len(a, b) <= a.len(),
        common_prefix_len(a, b) <= b.len(),
        forall|j: int| 0 <= j < common_prefix_len(a, b) ==> a[j] == b[j],
        common_prefix_len(a, b) < a.len() && common_prefix_len(a, b) < b.len() ==> a[common_prefix_len(
            a,
            b,
        )] != b[common_prefix_len(a, b)],
    decreases a.len(),
{
    if !(a.len() == 0 || b.len() == 0 || a[0] != b[0]) {
        let a1 = a.drop_first();
        let b1 = b.drop_first();
        lemma_common_prefix_len(a1, b1);
        let k = common_prefix_len(a1, b1);
        assert forall|j: int| 0 <= j < k + 1 implies a[j] == b[j] by {
            if j > 0 {
                assert(a[j] == a1[j - 1]);
                assert(b[j] == b1[j - 1]);
            }
        }
        if k < a1.len() && k < b1.len() {
            assert(a[k + 1] == a1[k]);
            assert(b[k + 1] == b1[k]);
        }
    }
}

/// A position below which the two sequences agree, and at which one has
/// ended or they differ, is `common_prefix_len`.
pub proof fn lemma_common_prefix_len_unique(a: Seq<char>, b: Seq<char>, k: int)
    requires
        0 <= k <= a.len(),
        k <= b.len(),
        forall|j: int| 0 <= j < k ==> a[j] == b[j],
        k < a.len() && k < b.len() ==> a[k] != b[k],
    ensures
        common_prefix_len(a, b) == k,
{
    lemma_common_prefix_len(a, b);
}

/// Different characters have different code points.
pub proof fn lemma_code_points_differ(x: char, y: char)
    requires
        x != y,
    ensures
        (x as u32) != (y as u32),
{
    assert((x as u32) as char == x);
    assert((y as u32) as char == y);
}

/// No string comes before itself.
pub proof fn lemma_lex_less_irreflexive(a: Seq<char>)
    ensures
        !lex_less(a, a),
{
    lemma_common_prefix_len_unique(a, a, a.len() as int);
}

/// Of two different strings exactly one comes before the other.
pub proof fn lemma_lex_less_total(a: Seq<char>, b: Seq<char>)
    ensures
        a == b || lex_less(a, b) || lex_less(b, a),
        !(lex_less(a, b) && lex_less(b, a)),
        a == b ==> !lex_less(a, b),
{
    lemma_common_prefix_len(a, b);
    lemma_common_prefix_len_unique(b, a, common_prefix_len(a, b));
    lemma_lex_less_irreflexive(a);
    let k = common_prefix_len(a, b);
    if k == a.len() && k == b.len() {
        assert(a =~= b);
    } else if k < a.len() && k < b.len() {
        lemma_code_points_differ(a[k], b[k]);
    }
}

/// The order of strings is transitive.
pub proof fn lemma_lex_less_transitive(a: Seq<char>, b: Seq<char>, c: Seq<char>)
    requires
        lex_less(a, b),
        lex_less(b, c),
    ensures
        lex_less(a, c),
{
    lemma_common_prefix_len(a, b);
    lemma_common_prefix_len(b, c);
    let k1 = common_prefix_len(a, b);
    let k2 = common_prefix_len(b, c);
    let k = if k1 <= k2 {
        k1
    } else {
        k2
    };
    lemma_common_prefix_len_unique(a, c, k);
}

/// Whether `a` comes before `b` in the order of strings.
pub fn str_less(a: &str, b: &str) -> (r: bool)
    ensures
        r == lex_less(a@, b@),
{
    let la: usize = a.unicode_len();
    let lb: usize = b.unicode_len();
    let mut i: usize = 0;
    while i < la && i < lb
        invariant
            la == a@.len(),
            lb == b@.len(),
            i <= la,
            i <= lb,
            forall|j: int| 0 <= j < i ==> a@[j] == b@[j],
        decreases la - i,
    {
        let ca: char = a.get_char(i);
        let cb: char = b.get_char(i);
        if ca != cb {
            proof {
                lemma_common_prefix_len_unique(a@, b@, i as int);
            }
            return (ca as u32) < (cb as u32);
        }
        i += 1;
    }
    proof {
        lemma_common_prefix_len_unique(a@, b@, i as int);
    }
    i < lb
}

/// Whether `needle` stands in `s` at position `i`.
pub open spec fn occurs_at(s: Seq<char>, needle: Seq<char>, i: int) -> bool {
    0 <= i && i + needle.len() <= s.len() && s.subrange(i, i + needle.len()) == needle
}

/// The first position at which `needle` stands in `s`, or the length of `s`
/// where it stands nowhere.
pub open spec fn first_occurrence(s: Seq<char>, needle: Seq<char>) -> int
    decreases s.len(),
{
    if s.len() == 0 || occurs_at(s, needle, 0) {
        0
    } else {
        1 + first_occurrence(s.drop_first(), needle)
    }
}

/// What `first_occurrence` is: within the string `needle` stands there, and
/// it stands at no position before.
pub proof fn lemma_first_occurrence(s: Seq<char>, needle: Seq<char>)
    ensures
        0 <= first_occurrence(s, needle) <= s.len(),
        first_occurrence(s, needle) < s.len() ==> occurs_at(s, needle, first_occurrence(s, needle)),
        forall|j: int| 0 <= j < first_occurrence(s, needle) ==> !occurs_at(s, needle, j),
    decreases s.len(),
{
    if !(s.len() == 0 || occurs_at(s, needle, 0)) {
        let t = s.drop_first();
        lemma_first_occurrence(t, needle);
        let k = first_occurrence(t, needle);
        assert forall|j: int| 0 <= j < k + 1 implies !occurs_at(s, needle, j) by {
            if j > 0 && occurs_at(s, needle, j) {
                assert(t.subrange(j - 1, j - 1 + needle.len()) =~= s.subrange(j, j + needle.len()));
                assert(occurs_at(t, needle, j - 1));
            }
        }
        if k < t.len() {
            assert(t.subrange(k, k + needle.len()) =~= s.subrange(k + 1, k + 1 + needle.len()));
        }
    }
}

/// A position at which `needle` stands (or the length of the string), with
/// no occurrence before it, is `first_occurrence`.
pub proof fn lemma_first_occurrence_unique(s: Seq<char>, needle: Seq<char>, i: int)
    requires
        0 <= i <= s.len(),
        i < s.len() ==> occurs_at(s, needle, i),
        forall|j: int| 0 <= j < i ==> !occurs_at(s, needle, j),
    ensures
        first_occurrence(s, needle) == i,
{
    lemma_first_occurrence(s, needle);
}

/// Whether `needle` stands in `s` at the position `at`, counted in
/// characters.
pub fn matches_at(s: &str, needle: &str, at: usize) -> (r: bool)
    ensures
        r == occurs_at(s@, needle@, at as int),
{
    let n: usize = needle.unicode_len();
    let len: usize = s.unicode_len();
    if at > len || n > len - at {
        return false;
    }
    let mut j: usize = 0;
    while j < n
        invariant
            n == needle@.len(),
            len == s@.len(),
            at + n <= len,
            j <= n,
            forall|k: int| 0 <= k < j ==> s@[at + k] == needle@[k],
        decreases n - j,
    {
        if s.get_char(at + j) != needle.get_char(j) {
            assert(s@.subrange(at as int, at + n)[j as int] == s@[at + j]);
            return false;
        }
        j += 1;
    }
    assert(s@.subrange(at as int, at + n) =~= needle@);
    true
}

/// The first position at which `needle` stands in `s`, counted in
/// characters; the length of `s` where it stands nowhere.
pub fn find_str(s: &str, needle: &str) -> (r: usize)
    ensures
        r == first_occurrence(s@, needle@),
{
    let len: usize = s.unicode_len();
    let mut i: usize = 0;
    while i < len
        invariant
            len == s@.len(),
            i <= len,
            forall|j: int| 0 <= j < i ==> !occurs_at(s@, needle@, j),
        decreases len - i,
    {
        if matches_at(s, needle, i) {
            proof {
                lemma_first_occurrence_unique(s@, needle@, i as int);
            }
            return i;
        }
        i += 1;
    }
    proof {
        lemma_first_occurrence_unique(s@, needle@, len as int);
    }
    len
}

/// What stands between the first occurrence of `separator` in `s` and the
/// next one behind it (or the end of `s`); nothing where `separator` does
/// not occur.
pub open spec fn field_after(s: Seq<char>, separator: Seq<char>) -> Option<Seq<char>> {
    let i = first_occurrence(s, separator);
    if occurs_at(s, separator, i) {
        let rest = s.subrange(i + separator.len(), s.len() as int);
        Some(rest.subrange(0, first_occurrence(rest, separator)))
    } else {
        None
    }
}

/// Whether an optional string slice holds exactly the optional characters.
pub open spec fn opt_slice_is(r: Option<&str>, expected: Option<Seq<char>>) -> bool {
    match expected {
        Some(chars) => r matches Some(s) && s@ == chars,
        None => r is None,
    }
}

/// The part of `s` between the first occurrence of `separator` and the
/// next, if `separator` occurs.
pub fn second_field<'a>(s: &'a str, separator: &str) -> (r: Option<&'a str>)
    ensures
        opt_slice_is(r, field_after(s@, separator@)),
{
    let len: usize = s.unicode_len();
    let n: usize = separator.unicode_len();
    let i: usize = find_str(s, separator);
    proof {
        lemma_first_occurrence(s@, separator@);
    }
    if !matches_at(s, separator, i) {
        return None;
    }
    let rest = s.substring_char(i + n, len);
    let end: usize = find_str(rest, separator);
    proof {
        lemma_first_occurrence(rest@, separator@);
    }
    Some(rest.substring_char(0, end))
}

/// The string without the run of `c` at its start and the run of `c` at its
/// end.
pub open spec fn without_surrounding(s: Seq<char>, c: char) -> Seq<char> {
    without_ends(s, is_char(c))
}

/// The string without the characters `c` at its start and at its end.
pub fn strip_char(s: &str, c: char) -> (r: &str)
    ensures
        r@ == without_surrounding(s@, c),
{
    let len: usize = s.unicode_len();
    let mut start: usize = 0;
    while start < len && s.get_char(start) == c
        invariant
            len == s@.len(),
            start <= len,
            forall|j: int| 0 <= j < start ==> s@[j] == c,
        decreases len - start,
    {
        start += 1;
    }
    proof {
        lemma_leading_run_unique(s@, is_char(c), start as int);
    }
    if start == len {
        return s.substring_char(0, 0);
    }
    let mut end: usize = len;
    while end > start && s.get_char(end - 1) == c
        invariant
            len == s@.len(),
            start < len,
            start <= end <= len,
            s@[start as int] != c,
            forall|j: int| end <= j < len ==> s@[j] == c,
        decreases end,
    {
        end -= 1;
    }
    proof {
        lemma_trailing_run_unique(s@, is_char(c), len - end);
    }
    s.substring_char(start, end)
}

/// Whether a character is white space, as the standard library's
/// `char::is_whitespace` tells.
pub uninterp spec fn white_space(c: char) -> bool;

/// Calls `char::is_whitespace`. Believed, not proved: the answer depends on
/// the character alone. Nothing is claimed of which characters are white
/// space.
#[verifier::external_body]
pub(crate) fn is_whitespace(c: char) -> (r: bool)
    ensures
        r == white_space(c),
{
    c.is_whitespace()
}

/// Being white space.
pub open spec fn is_white_space() -> spec_fn(char) -> bool {
    |c: char| white_space(c)
}

/// The string without the white space at its start and at its end.
pub open spec fn trimmed(s: Seq<char>) -> Seq<char> {
    without_ends(s, is_white_space())
}

/// The string without the white space at its start and at its end.
pub fn trim(s: &str) -> (r: &str)
    ensures
        r@ == trimmed(s@),
{
    let len: usize = s.unicode_len();
    let mut start: usize = 0;
    while start < len && is_whitespace(s.get_char(start))
        invariant
            len == s@.len(),
            start <= len,
            forall|j: int| 0 <= j < start ==> white_space(s@[j]),
        decreases len - start,
    {
        start += 1;
    }
    proof {
        lemma_leading_run_unique(s@, is_white_space(), start as int);
    }
    if start == len {
        return s.substring_char(0, 0);
    }
    let mut end: usize = len;
    while end > start && is_whitespace(s.get_char(end - 1))
        invariant
            len == s@.len(),
            start < len,
            start <= end <= len,
            !white_space(s@[start as int]),
            forall|j: int| end <= j < len ==> white_space(s@[j]),
        decreases end,
    {
        end -= 1;
    }
    proof {
        lemma_trailing_run_unique(s@, is_white_space(), len - end);
    }
    s.substring_char(start, end)
}

/// A line without the carriage return at its end, if it has one.
pub open spec fn without_carriage_return(line: Seq<char>) -> Seq<char> {
    if line.len() > 0 && line.last() == '\r' {
        line.drop_last()
    } else {
        line
    }
}

/// The lines of a text. A line ends with a line feed, or with a carriage
/// return and a line feed; neither belongs to the line. What follows the
/// last line feed is a line of its own unless it is empty.
pub open spec fn lines_of(s: Seq<char>) -> Seq<Seq<char>>
    decreases s.len(),
{
    if s.len() == 0 {
        Seq::empty()
    } else {
        let end = first_index_of(s, '\n');
        if 0 <= end < s.len() {
            seq![without_carriage_return(s.subrange(0, end))] + lines_of(
                s.subrange(end + 1, s.len() as int),
            )
        } else {
            seq![s]
        }
    }
}

/// The characters of each string of a vector.
pub open spec fn lines_view(v: Seq<String>) -> Seq<Seq<char>> {
    Seq::new(v.len(), |i: int| v[i]@)
}

/// The lines of a text.
pub fn lines(s: &str) -> (r: Vec<String>)
    ensures
        lines_view(r@) == lines_of(s@),
{
    let len: usize = s.unicode_len();
    let mut out: Vec<String> = Vec::new();
    let mut start: usize = 0;
    assert(s@.subrange(0, len as int) =~= s@);
    assert(lines_view(out@) =~= Seq::empty());
    assert(Seq::<Seq<char>>::empty() + lines_of(s@) =~= lines_of(s@));
    while start < len
        invariant
            len == s@.len(),
            start <= len,
            lines_of(s@) == lines_view(out@) + lines_of(s@.subrange(start as int, len as int)),
        decreases len - start,
    {
        let rest = s.substring_char(start, len);
        let end: usize = find_char(rest, '\n');
        let ghost before = lines_view(out@);
        proof {
            lemma_first_where(rest@, is_char('\n'));
        }
        if end < len - start {
            let line = rest.substring_char(0, end);
            let shown = if end > 0 && line.get_char(end - 1) == '\r' {
                line.substring_char(0, end - 1)
            } else {
                line
            };
            out.push(shown.to_owned());
            proof {
                let tail = s@.subrange(start + end + 1, len as int);
                assert(rest@.subrange(end + 1, rest@.len() as int) =~= tail);
                assert(shown@ =~= without_carriage_return(rest@.subrange(0, end as int)));
                assert(lines_view(out@) =~= before.push(shown@));
                assert(before + (seq![shown@] + lines_of(tail)) =~= before.push(shown@)
                    + lines_of(tail));
            }
            start = start + end + 1;
        } else {
            out.push(rest.to_owned());
            proof {
                assert(lines_view(out@) =~= before.push(rest@));
                assert(s@.subrange(len as int, len as int) =~= Seq::empty());
                assert(before + seq![rest@] =~= before.push(rest@) + lines_of(
                    s@.subrange(len as int, len as int),
                ));
            }
            start = len;
        }
    }
    assert(s@.subrange(len as int, len as int) =~= Seq::empty());
    assert(lines_view(out@) + Seq::<Seq<char>>::empty() =~= lines_view(out@));
    out
}

/// The characters of a string in upper case, as the standard library's
/// `str::to_uppercase` gives them.
pub uninterp spec fn uppercase_of(s: Seq<char>) -> Seq<char>;

/// Calls `str::to_uppercase`. Believed, not proved: the result depends on
/// the characters of `s` alone. Nothing is claimed of what upper case is.
#[verifier::external_body]
pub(crate) fn to_uppercase(s: &str) -> (r: String)
    ensures
        r@ == uppercase_of(s@),
{
    s.to_uppercase()
}

} // verus!
