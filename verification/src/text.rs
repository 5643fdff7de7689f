//! String primitives over sequences of characters.
//!
//! Every function here has a specification on `Seq<char>` and an executable
//! counterpart on `Vec<char>` or `&str` that is proved to compute it.

use vstd::prelude::*;
use vstd::std_specs::iter::IteratorSpec;

verus! {

/// Whether `c` is white space: the code points U+0009 to U+000D, U+0020,
/// U+0085, U+00A0, U+1680, U+2000 to U+200A, U+2028, U+2029, U+202F, U+205F
/// and U+3000.
pub open spec fn is_space(c: char) -> bool {
    let u = c as u32;
    ||| 0x09 <= u <= 0x0d
    ||| u == 0x20
    ||| u == 0x85
    ||| u == 0xa0
    ||| u == 0x1680
    ||| 0x2000 <= u <= 0x200a
    ||| u == 0x2028
    ||| u == 0x2029
    ||| u == 0x202f
    ||| u == 0x205f
    ||| u == 0x3000
}

/// Decides `is_space`.
pub fn is_whitespace(c: char) -> (b: bool)
    ensures
        b == is_space(c),
{
    let u: u32 = c as u32;
    (0x09 <= u && u <= 0x0d) || u == 0x20 || u == 0x85 || u == 0xa0 || u == 0x1680 || (0x2000 <= u
        && u <= 0x200a) || u == 0x2028 || u == 0x2029 || u == 0x202f || u == 0x205f || u == 0x3000
}

/// The text of an optional string.
pub open spec fn text_of(s: Option<String>) -> Option<Seq<char>> {
    match s {
        Some(t) => Some(t@),
        None => None,
    }
}

/// The characters of `s`, in order.
pub fn chars_of(s: &str) -> (v: Vec<char>)
    ensures
        v@ == s@,
{
    broadcast use vstd::string::group_string_axioms;

    let mut rest = s.chars();
    let mut v: Vec<char> = Vec::new();
    loop
        invariant
            v@ + rest.remaining() == s@,
            rest.decrease() is Some,
        ensures
            v@ == s@,
        decreases rest.decrease()->0,
    {
        let ghost before = rest.remaining();
        match rest.next() {
            Some(c) => {
                v.push(c);
                assert(v@ + rest.remaining() == s@) by {
                    assert(before == seq![c] + before.drop_first());
                    assert(v@ + rest.remaining() =~= (v@.drop_last() + before));
                }
            },
            None => {
                assert(v@ + rest.remaining() =~= v@);
                break ;
            },
        }
    }
    v
}

/// `s` without the white space at its start.
pub open spec fn trimmed_start(s: Seq<char>) -> Seq<char>
    decreases s.len(),
{
    if s.len() > 0 && is_space(s[0]) {
        trimmed_start(s.drop_first())
    } else {
        s
    }
}

/// `s` without the white space at its end.
pub open spec fn trimmed_end(s: Seq<char>) -> Seq<char>
    decreases s.len(),
{
    if s.len() > 0 && is_space(s.last()) {
        trimmed_end(s.drop_last())
    } else {
        s
    }
}

/// `s` without the white space at either end.
pub open spec fn trimmed(s: Seq<char>) -> Seq<char> {
    trimmed_end(trimmed_start(s))
}

/// Whether `s` begins with `prefix`.
pub open spec fn has_prefix(s: Seq<char>, prefix: Seq<char>) -> bool {
    prefix.len() <= s.len() && s.take(prefix.len() as int) == prefix
}

/// Whether `needle` occurs somewhere in `s`.
pub open spec fn has_infix(s: Seq<char>, needle: Seq<char>) -> bool {
    exists|i: int| 0 <= i <= s.len() && #[trigger] has_prefix(s.skip(i), needle)
}

/// The copy of `v[from..to]`.
pub fn copy_range(v: &Vec<char>, from: usize, to: usize) -> (r: Vec<char>)
    requires
        from <= to <= v.len(),
    ensures
        r@ == v@.subrange(from as int, to as int),
{
    let mut r: Vec<char> = Vec::new();
    let mut i: usize = from;
    while i < to
        invariant
            from <= i <= to <= v.len(),
            r@ == v@.subrange(from as int, i as int),
        decreases to - i,
    {
        r.push(v[i]);
        i = i + 1;
    }
    r
}

/// Whether the two vectors hold the same characters.
pub fn same_chars(a: &Vec<char>, b: &Vec<char>) -> (r: bool)
    ensures
        r == (a@ == b@),
{
    if a.len() != b.len() {
        return false;
    }
    let mut i: usize = 0;
    while i < a.len()
        invariant
            a.len() == b.len(),
            i <= a.len(),
            a@.take(i as int) == b@.take(i as int),
        decreases a.len() - i,
    {
        if a[i] != b[i] {
            return false;
        }
        assert(a@.take(i + 1) == a@.take(i as int).push(a@[i as int]));
        assert(b@.take(i + 1) == b@.take(i as int).push(b@[i as int]));
        i = i + 1;
    }
    assert(a@.take(a.len() as int) == a@);
    assert(b@.take(b.len() as int) == b@);
    true
}

/// Whether the two strings hold the same text.
pub fn same_text(a: &str, b: &str) -> (r: bool)
    ensures
        r == (a@ == b@),
{
    let x = chars_of(a);
    let y = chars_of(b);
    same_chars(&x, &y)
}

/// The bounds of `v` without the white space at either end: `v[from..to]`
/// is `trimmed(v)`.
pub fn trim_bounds(v: &Vec<char>) -> (r: (usize, usize))
    ensures
        r.0 <= r.1 <= v.len(),
        v@.subrange(r.0 as int, r.1 as int) == trimmed(v@),
{
    let n: usize = v.len();
    let mut from: usize = 0;
    assert(v@.skip(0) == v@);
    while from < n && is_whitespace(v[from])
        invariant
            n == v.len(),
            from <= n,
            trimmed_start(v@) == trimmed_start(v@.skip(from as int)),
        decreases n - from,
    {
        assert(v@.skip(from as int).drop_first() == v@.skip(from + 1));
        from = from + 1;
    }
    assert(trimmed_start(v@) == v@.skip(from as int));
    assert(v@.skip(from as int) == v@.subrange(from as int, n as int));
    let mut to: usize = n;
    while to > from && is_whitespace(v[to - 1])
        invariant
            n == v.len(),
            from <= to <= n,
            trimmed(v@) == trimmed_end(v@.subrange(from as int, to as int)),
        decreases to - from,
    {
        assert(v@.subrange(from as int, to as int).drop_last() == v@.subrange(
            from as int,
            to - 1,
        ));
        to = to - 1;
    }
    (from, to)
}

/// `s` without the white space at either end.
pub fn trim<'a>(s: &'a str) -> (r: &'a str)
    ensures
        r@ == trimmed(s@),
{
    let v = chars_of(s);
    let (from, to) = trim_bounds(&v);
    s.substring_char(from, to)
}

/// Whether `v` begins with `prefix`.
pub fn starts_with(v: &Vec<char>, prefix: &Vec<char>) -> (r: bool)
    ensures
        r == has_prefix(v@, prefix@),
{
    if prefix.len() > v.len() {
        return false;
    }
    let head = copy_range(v, 0, prefix.len());
    same_chars(&head, prefix)
}

/// Whether `needle` occurs somewhere in `v`.
pub fn contains(v: &Vec<char>, needle: &Vec<char>) -> (r: bool)
    ensures
        r == has_infix(v@, needle@),
{
    let mut i: usize = 0;
    while i <= v.len()
        invariant
            i <= v.len() + 1,
            forall|j: int| 0 <= j < i ==> !#[trigger] has_prefix(v@.skip(j), needle@),
        decreases v.len() + 1 - i,
    {
        if needle.len() <= v.len() - i {
            let part = copy_range(v, i, i + needle.len());
            assert(part@ == v@.skip(i as int).take(needle@.len() as int));
            if same_chars(&part, needle) {
                assert(has_prefix(v@.skip(i as int), needle@));
                return true;
            }
        }
        if i == v.len() {
            return false;
        }
        i = i + 1;
    }
    false
}

/// The length of the longest prefix of `s` that holds no white space.
pub open spec fn word_len(s: Seq<char>) -> nat
    decreases s.len(),
{
    if s.len() == 0 || is_space(s[0]) {
        0
    } else {
        1 + word_len(s.drop_first())
    }
}

/// `word_len(s)` is at most the length of `s`; the characters before it are
/// no white space, and the one at it, if there is one, is.
pub proof fn lemma_word_len(s: Seq<char>)
    ensures
        word_len(s) <= s.len(),
        forall|i: int| 0 <= i < word_len(s) ==> !is_space(#[trigger] s[i]),
        word_len(s) < s.len() ==> is_space(s[word_len(s) as int]),
    decreases s.len(),
{
    if s.len() == 0 || is_space(s[0]) {
    } else {
        let rest = s.drop_first();
        lemma_word_len(rest);
        assert forall|i: int| 0 <= i < word_len(s) implies !is_space(#[trigger] s[i]) by {
            if i > 0 {
                assert(s[i] == rest[i - 1]);
            }
        }
        if word_len(s) < s.len() {
            assert(s[word_len(s) as int] == rest[word_len(rest) as int]);
        }
    }
}

/// The maximal runs of characters of `s` that are no white space, in order.
pub open spec fn words(s: Seq<char>) -> Seq<Seq<char>>
    decreases s.len(),
    via words_decreases
{
    if s.len() == 0 {
        Seq::empty()
    } else if is_space(s[0]) {
        words(s.drop_first())
    } else {
        seq![s.take(word_len(s) as int)] + words(s.skip(word_len(s) as int))
    }
}

#[via_fn]
proof fn words_decreases(s: Seq<char>) {
    lemma_word_len(s);
}

/// The words of `v`, in order.
pub fn split_whitespace(v: &Vec<char>) -> (r: Vec<Vec<char>>)
    ensures
        r.deep_view() == words(v@),
{
    let n: usize = v.len();
    let mut r: Vec<Vec<char>> = Vec::new();
    let mut i: usize = 0;
    assert(v@.skip(0) == v@);
    assert(r.deep_view() + words(v@) == words(v@));
    while i < n
        invariant
            n == v.len(),
            i <= n,
            r.deep_view() + words(v@.skip(i as int)) == words(v@),
        decreases n - i,
    {
        let ghost rest = v@.skip(i as int);
        if is_whitespace(v[i]) {
            assert(rest.drop_first() == v@.skip(i + 1));
            i = i + 1;
        } else {
            let mut j: usize = i + 1;
            assert(rest.drop_first() == v@.skip(i + 1));
            while j < n && !is_whitespace(v[j])
                invariant
                    n == v.len(),
                    i < j <= n,
                    rest == v@.skip(i as int),
                    word_len(rest) == (j - i) + word_len(v@.skip(j as int)),
                decreases n - j,
            {
                assert(v@.skip(j as int).drop_first() == v@.skip(j + 1));
                j = j + 1;
            }
            assert(word_len(rest) == j - i);
            let word = copy_range(v, i, j);
            proof {
                assert(word@ == rest.take(word_len(rest) as int));
                assert(rest.skip(word_len(rest) as int) == v@.skip(j as int));
                let ghost before = r.deep_view();
                assert(before.push(word@) + words(v@.skip(j as int)) == before + words(rest));
            }
            let ghost before = r.deep_view();
            r.push(word);
            assert(r.deep_view() =~= before.push(word@)) by {
                assert(word.deep_view() =~= word@);
            }
            i = j;
        }
    }
    assert(words(v@.skip(n as int)) == Seq::<Seq<char>>::empty());
    assert(r.deep_view() + Seq::<Seq<char>>::empty() == r.deep_view());
    r
}

/// The number of characters of `s` before its first line feed.
pub open spec fn line_len(s: Seq<char>) -> nat
    decreases s.len(),
{
    if s.len() == 0 || s[0] == '\n' {
        0
    } else {
        1 + line_len(s.drop_first())
    }
}

/// `line_len(s)` is at most the length of `s`.
pub proof fn lemma_line_len(s: Seq<char>)
    ensures
        line_len(s) <= s.len(),
    decreases s.len(),
{
    if s.len() == 0 || s[0] == '\n' {
    } else {
        lemma_line_len(s.drop_first());
    }
}

/// `line` without the carriage return at its end, if it has one.
pub open spec fn without_cr(line: Seq<char>) -> Seq<char> {
    if line.len() > 0 && line.last() == '\r' {
        line.drop_last()
    } else {
        line
    }
}

/// The lines of `s`. A line ends at a line feed, which is no part of it, nor
/// is a carriage return just before that line feed. What follows the last
/// line feed is a line as it stands, unless it is empty.
pub open spec fn lines_of(s: Seq<char>) -> Seq<Seq<char>>
    decreases s.len(),
    via lines_of_decreases
{
    if s.len() == 0 {
        Seq::empty()
    } else if line_len(s) == s.len() {
        seq![s]
    } else {
        seq![without_cr(s.take(line_len(s) as int))] + lines_of(s.skip(line_len(s) as int + 1))
    }
}

#[via_fn]
proof fn lines_of_decreases(s: Seq<char>) {
    lemma_line_len(s);
}

/// The pieces of `s` that `spans` marks, each as `(from, to)`.
pub open spec fn pieces(s: Seq<char>, spans: Seq<(usize, usize)>) -> Seq<Seq<char>> {
    Seq::new(spans.len(), |k: int| s.subrange(spans[k].0 as int, spans[k].1 as int))
}

/// Whether each of `spans` lies within a text of `len` characters.
pub open spec fn spans_within(spans: Seq<(usize, usize)>, len: nat) -> bool {
    forall|k: int| 0 <= k < spans.len() ==> (#[trigger] spans[k]).0 <= spans[k].1 <= len
}

/// Where the lines of `v` stand in it.
pub fn line_spans(v: &Vec<char>) -> (r: Vec<(usize, usize)>)
    ensures
        spans_within(r@, v@.len()),
        pieces(v@, r@) == lines_of(v@),
{
    let n: usize = v.len();
    let mut r: Vec<(usize, usize)> = Vec::new();
    let mut i: usize = 0;
    assert(v@.skip(0) == v@);
    assert(pieces(v@, r@) + lines_of(v@) == lines_of(v@));
    while i < n
        invariant
            n == v.len(),
            i <= n,
            spans_within(r@, v@.len()),
            pieces(v@, r@) + lines_of(v@.skip(i as int)) == lines_of(v@),
        decreases n - i,
    {
        let ghost rest = v@.skip(i as int);
        let mut j: usize = i;
        while j < n && v[j] != '\n'
            invariant
                n == v.len(),
                i <= j <= n,
                rest == v@.skip(i as int),
                line_len(rest) == (j - i) + line_len(v@.skip(j as int)),
            decreases n - j,
        {
            assert(v@.skip(j as int).drop_first() == v@.skip(j + 1));
            j = j + 1;
        }
        assert(line_len(rest) == j - i);
        let ghost before = pieces(v@, r@);
        if j == n {
            assert(v@.subrange(i as int, n as int) == rest);
            r.push((i, n));
            assert(pieces(v@, r@) == before.push(rest));
            assert(lines_of(v@.skip(n as int)) == Seq::<Seq<char>>::empty());
            assert(before.push(rest) + Seq::<Seq<char>>::empty() == before + lines_of(rest));
            i = n;
        } else {
            let end: usize = if j > i && v[j - 1] == '\r' {
                j - 1
            } else {
                j
            };
            proof {
                let line = rest.take(line_len(rest) as int);
                assert(line == v@.subrange(i as int, j as int));
                if j > i {
                    assert(line.last() == v@[j - 1]);
                }
                assert(without_cr(line) == v@.subrange(i as int, end as int));
                assert(rest.skip(line_len(rest) as int + 1) == v@.skip(j + 1));
            }
            r.push((i, end));
            assert(pieces(v@, r@) == before.push(v@.subrange(i as int, end as int)));
            assert(before.push(v@.subrange(i as int, end as int)) + lines_of(v@.skip(j + 1))
                == before + lines_of(rest));
            i = j + 1;
        }
    }
    assert(lines_of(v@.skip(n as int)) == Seq::<Seq<char>>::empty());
    assert(pieces(v@, r@) + Seq::<Seq<char>>::empty() == pieces(v@, r@));
    r
}

} // verus!
