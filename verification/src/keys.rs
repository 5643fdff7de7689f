//! Comparison of public keys.
//!
//! A key is text of the shape `type body comment`. Two keys denote the same
//! credential when their types and bodies agree; the comment is a label and
//! never decides. Text with fewer than two words is compared as a whole.

use crate::text::{
    chars_of, is_space, lemma_word_len, same_chars, split_whitespace, trim_bounds, trimmed,
    trimmed_end, trimmed_start, word_len, words,
};
use vstd::prelude::*;

verus! {

/// `s` with each line feed turned into a space.
pub open spec fn spaced(s: Seq<char>) -> Seq<char> {
    s.map_values(|c: char| if c == '\n' { ' ' } else { c })
}

/// `s` as it is compared: trimmed, and its line feeds turned into spaces.
pub open spec fn normalized(s: Seq<char>) -> Seq<char> {
    spaced(trimmed(s))
}

/// Whether a stored key and a presented key denote the same credential.
pub open spec fn same_key(stored: Seq<char>, presented: Seq<char>) -> bool {
    let a = normalized(stored);
    let b = normalized(presented);
    if words(a).len() >= 2 && words(b).len() >= 2 {
        words(a)[0] == words(b)[0] && words(a)[1] == words(b)[1]
    } else {
        a == b
    }
}

/// The type and the body of a key: its first two words, or all its words
/// where it has fewer.
pub open spec fn key_head(s: Seq<char>) -> Seq<Seq<char>> {
    if words(s).len() >= 2 {
        words(s).take(2)
    } else {
        words(s)
    }
}

/// The text of a key with the given type, body and comment.
pub open spec fn key_text(kind: Seq<char>, body: Seq<char>, comment: Seq<char>) -> Seq<char> {
    kind + seq![' '] + body + seq![' '] + comment
}

/// Whether `s` is one word: not empty and without white space.
pub open spec fn is_word(s: Seq<char>) -> bool {
    s.len() > 0 && forall|i: int| 0 <= i < s.len() ==> !is_space(#[trigger] s[i])
}

/// The normal form of `s`.
pub fn normalize(s: &str) -> (r: Vec<char>)
    ensures
        r@ == normalized(s@),
{
    let v = chars_of(s);
    let (from, to) = trim_bounds(&v);
    let mut r: Vec<char> = Vec::new();
    let mut i: usize = from;
    while i < to
        invariant
            from <= i <= to <= v.len(),
            r@ == spaced(v@.subrange(from as int, i as int)),
        decreases to - i,
    {
        let c: char = v[i];
        let ghost before = r@;
        if c == '\n' {
            r.push(' ');
        } else {
            r.push(c);
        }
        assert(r@ == spaced(v@.subrange(from as int, i + 1))) by {
            assert(v@.subrange(from as int, i + 1) == v@.subrange(from as int, i as int).push(c));
        }
        i = i + 1;
    }
    r
}

/// Decides `same_key`: whether the stored and the presented key agree in
/// type and body, or, where either has fewer than two words, as a whole.
pub fn keys_match(stored: &str, presented: &str) -> (r: bool)
    ensures
        r == same_key(stored@, presented@),
{
    let a = normalize(stored);
    let b = normalize(presented);
    let wa = split_whitespace(&a);
    let wb = split_whitespace(&b);
    assert(wa.deep_view().len() == wa.len());
    assert(wb.deep_view().len() == wb.len());
    if wa.len() >= 2 && wb.len() >= 2 {
        assert(wa.deep_view()[0] == wa[0]@ && wa.deep_view()[1] == wa[1]@);
        assert(wb.deep_view()[0] == wb[0]@ && wb.deep_view()[1] == wb[1]@);
        same_chars(&wa[0], &wb[0]) && same_chars(&wa[1], &wb[1])
    } else {
        same_chars(&a, &b)
    }
}

/// White space at the start of a text adds no word.
pub proof fn lemma_words_trimmed_start(s: Seq<char>)
    ensures
        words(trimmed_start(s)) == words(s),
    decreases s.len(),
{
    if s.len() > 0 && is_space(s[0]) {
        lemma_words_trimmed_start(s.drop_first());
    }
}

/// A space at the end of a text does not change the length of its first word.
proof fn lemma_word_len_drop_last(s: Seq<char>)
    requires
        s.len() > 0,
        is_space(s.last()),
    ensures
        word_len(s.drop_last()) == word_len(s),
    decreases s.len(),
{
    if is_space(s[0]) {
    } else {
        assert(s.drop_last().drop_first() == s.drop_first().drop_last());
        lemma_word_len_drop_last(s.drop_first());
    }
}

/// A space at the end of a text adds no word.
proof fn lemma_words_drop_last(s: Seq<char>)
    requires
        s.len() > 0,
        is_space(s.last()),
    ensures
        words(s.drop_last()) == words(s),
    decreases s.len(),
{
    if s.len() == 1 {
        assert(words(s.drop_first()) == Seq::<Seq<char>>::empty());
    } else if is_space(s[0]) {
        assert(s.drop_last().drop_first() == s.drop_first().drop_last());
        lemma_words_drop_last(s.drop_first());
    } else {
        let n = word_len(s) as int;
        lemma_word_len(s);
        lemma_word_len_drop_last(s);
        if n == s.len() {
            assert(!is_space(s[s.len() - 1]));
        }
        assert(s.drop_last().take(n) == s.take(n));
        assert(s.drop_last().skip(n) == s.skip(n).drop_last());
        lemma_words_drop_last(s.skip(n));
    }
}

/// White space at the end of a text adds no word.
pub proof fn lemma_words_trimmed_end(s: Seq<char>)
    ensures
        words(trimmed_end(s)) == words(s),
    decreases s.len(),
{
    if s.len() > 0 && is_space(s.last()) {
        lemma_words_drop_last(s);
        lemma_words_trimmed_end(s.drop_last());
    }
}

/// Turning line feeds into spaces keeps the length of the first word.
proof fn lemma_word_len_spaced(s: Seq<char>)
    ensures
        word_len(spaced(s)) == word_len(s),
    decreases s.len(),
{
    if s.len() == 0 || is_space(s[0]) {
    } else {
        assert(spaced(s).drop_first() == spaced(s.drop_first()));
        lemma_word_len_spaced(s.drop_first());
    }
}

/// Turning line feeds into spaces keeps the words.
pub proof fn lemma_words_spaced(s: Seq<char>)
    ensures
        words(spaced(s)) == words(s),
    decreases s.len(),
{
    if s.len() == 0 {
    } else if is_space(s[0]) {
        assert(spaced(s).drop_first() == spaced(s.drop_first()));
        lemma_words_spaced(s.drop_first());
    } else {
        let n = word_len(s) as int;
        lemma_word_len(s);
        lemma_word_len_spaced(s);
        assert(spaced(s).take(n) == s.take(n));
        assert(spaced(s).skip(n) == spaced(s.skip(n)));
        lemma_words_spaced(s.skip(n));
    }
}

/// Normalizing a text keeps its words.
pub proof fn lemma_words_normalized(s: Seq<char>)
    ensures
        words(normalized(s)) == words(s),
{
    lemma_words_trimmed_start(s);
    lemma_words_trimmed_end(trimmed_start(s));
    lemma_words_spaced(trimmed(s));
}

/// A word followed by a space is the first word of the text.
proof fn lemma_word_len_prefix(word: Seq<char>, rest: Seq<char>)
    requires
        forall|i: int| 0 <= i < word.len() ==> !is_space(#[trigger] word[i]),
        rest.len() > 0,
        is_space(rest[0]),
    ensures
        word_len(word + rest) == word.len(),
    decreases word.len(),
{
    if word.len() == 0 {
        assert(word + rest == rest);
    } else {
        assert((word + rest)[0] == word[0]);
        assert((word + rest).drop_first() == word.drop_first() + rest);
        assert forall|i: int| 0 <= i < word.drop_first().len() implies !is_space(
            #[trigger] word.drop_first()[i],
        ) by {
            assert(word.drop_first()[i] == word[i + 1]);
        }
        lemma_word_len_prefix(word.drop_first(), rest);
    }
}

/// The words of a word, a space and a text are that word and the words of
/// the text.
pub proof fn lemma_words_prefix(word: Seq<char>, rest: Seq<char>)
    requires
        is_word(word),
    ensures
        words(word + seq![' '] + rest) == seq![word] + words(rest),
{
    let tail = seq![' '] + rest;
    let s = word + tail;
    assert(word + seq![' '] + rest == s);
    lemma_word_len_prefix(word, tail);
    assert(s[0] == word[0]);
    assert(s.take(word.len() as int) == word);
    assert(s.skip(word.len() as int) == tail);
    assert(tail.drop_first() == rest);
    assert(is_space(tail[0]));
    assert(words(tail) == words(rest));
    assert(words(s) == seq![s.take(word_len(s) as int)] + words(s.skip(word_len(s) as int)));
}

/// Keys with the same type and body are the same key, whatever their
/// comments.
pub proof fn law_same_head_matches(stored: Seq<char>, presented: Seq<char>)
    requires
        words(stored).len() >= 2,
        words(presented).len() >= 2,
        key_head(stored) == key_head(presented),
    ensures
        same_key(stored, presented),
{
    lemma_words_normalized(stored);
    lemma_words_normalized(presented);
    assert(words(stored)[0] == key_head(stored)[0]);
    assert(words(stored)[1] == key_head(stored)[1]);
    assert(words(presented)[0] == key_head(presented)[0]);
    assert(words(presented)[1] == key_head(presented)[1]);
}

/// Two keys written with one type and one body are the same key, whatever
/// comment follows in either.
pub proof fn law_comment_is_ignored(
    kind: Seq<char>,
    body: Seq<char>,
    comment: Seq<char>,
    other_comment: Seq<char>,
)
    requires
        is_word(kind),
        is_word(body),
    ensures
        same_key(key_text(kind, body, comment), key_text(kind, body, other_comment)),
{
    lemma_key_text_head(kind, body, comment);
    lemma_key_text_head(kind, body, other_comment);
    law_same_head_matches(key_text(kind, body, comment), key_text(kind, body, other_comment));
}

/// The type and body of a key text are the type and body it was written
/// with.
pub proof fn lemma_key_text_head(kind: Seq<char>, body: Seq<char>, comment: Seq<char>)
    requires
        is_word(kind),
        is_word(body),
    ensures
        words(key_text(kind, body, comment)).len() >= 2,
        key_head(key_text(kind, body, comment)) == seq![kind, body],
{
    let rest = body + seq![' '] + comment;
    assert(key_text(kind, body, comment) == kind + seq![' '] + rest);
    lemma_words_prefix(kind, rest);
    lemma_words_prefix(body, comment);
    let w = words(key_text(kind, body, comment));
    assert(w == seq![kind] + (seq![body] + words(comment)));
    assert(w.take(2) == seq![kind, body]);
}

/// Keys that differ in type or body are never the same key, whatever their
/// comments.
pub proof fn law_different_head_differs(stored: Seq<char>, presented: Seq<char>)
    requires
        key_head(stored) != key_head(presented),
    ensures
        !same_key(stored, presented),
{
    lemma_words_normalized(stored);
    lemma_words_normalized(presented);
    let a = words(stored);
    let b = words(presented);
    if a.len() >= 2 && b.len() >= 2 {
        if a[0] == b[0] && a[1] == b[1] {
            assert(a.take(2) == b.take(2));
        }
    }
}

} // verus!
