//! The full-text query that a search string becomes.
//!
//! Each whitespace-separated word of the search string becomes an FTS5
//! string literal (the word between double quotes, each quote inside it
//! doubled) followed by `*`, so that it matches as a prefix; the terms are
//! joined by single spaces, which FTS5 reads as AND.

use vstd::prelude::*;
use vstd::string::*;

use crate::text::{push_char, split_whitespace, split_words, string_views};

verus! {

broadcast use vstd::string::group_string_axioms;

/// A word with every double quote doubled.
pub open spec fn fts_escape(w: Seq<char>) -> Seq<char>
    decreases w.len(),
{
    if w.len() == 0 {
        seq![]
    } else if w.last() == '"' {
        fts_escape(w.drop_last()) + seq!['"', '"']
    } else {
        fts_escape(w.drop_last()).push(w.last())
    }
}

/// The FTS5 prefix term for a word: `"word"*`.
pub open spec fn fts_term(w: Seq<char>) -> Seq<char> {
    seq!['"'] + fts_escape(w) + seq!['"', '*']
}

/// The elements of `parts` joined by single spaces.
pub open spec fn join_with_spaces(parts: Seq<Seq<char>>) -> Seq<char>
    decreases parts.len(),
{
    if parts.len() == 0 {
        seq![]
    } else if parts.len() == 1 {
        parts[0]
    } else {
        join_with_spaces(parts.drop_last()) + seq![' '] + parts.last()
    }
}

/// The terms of the words of a search string.
pub open spec fn fts_terms(text: Seq<char>) -> Seq<Seq<char>> {
    split_words(text).map_values(|w: Seq<char>| fts_term(w))
}

/// The FTS5 query for a search string.
pub open spec fn fts_query(text: Seq<char>) -> Seq<char> {
    join_with_spaces(fts_terms(text))
}

/// Appends the FTS5 prefix term of `word` to `out`.
fn push_fts_term(out: &mut String, word: &str)
    ensures
        final(out)@ == old(out)@ + fts_term(word@),
{
    let ghost start = out@;
    push_char(out, '"');
    for c in it: word.chars()
        invariant
            it.seq() == word@,
            0 <= it.index() <= word@.len(),
            out@ == start + seq!['"'] + fts_escape(word@.take(it.index() as int)),
    {
        let ghost i = it.index() as int;
        proof {
            assert(c == word@[i]);
            assert(word@.take(i + 1).drop_last() =~= word@.take(i));
        }
        if c == '"' {
            push_char(out, '"');
            push_char(out, '"');
            proof {
                assert(out@ =~= start + seq!['"'] + fts_escape(word@.take(i + 1)));
            }
        } else {
            push_char(out, c);
            proof {
                assert(out@ =~= start + seq!['"'] + fts_escape(word@.take(i + 1)));
            }
        }
    }
    proof {
        assert(word@.take(word@.len() as int) =~= word@);
    }
    push_char(out, '"');
    push_char(out, '*');
    proof {
        assert(out@ =~= start + fts_term(word@));
    }
}

/// Builds the FTS5 query for a search string: each word as a quoted prefix
/// term, the terms joined by single spaces.
pub fn build_fts_query(text: &str) -> (q: String)
    ensures
        q@ == fts_query(text@),
{
    let words = split_whitespace(text);
    let ghost terms = fts_terms(text@);
    let mut q = String::new();
    let mut k: usize = 0;
    while k < words.len()
        invariant
            string_views(words@) == split_words(text@),
            terms == fts_terms(text@),
            terms.len() == words@.len(),
            k <= words@.len(),
            q@ == join_with_spaces(terms.take(k as int)),
        decreases words@.len() - k,
    {
        proof {
            assert(terms.take(k + 1).drop_last() =~= terms.take(k as int));
            assert(terms[k as int] == fts_term(words@[k as int]@));
        }
        if k > 0 {
            push_char(&mut q, ' ');
        }
        push_fts_term(&mut q, words[k].as_str());
        proof {
            if k == 0 {
                assert(q@ =~= join_with_spaces(terms.take(k + 1)));
            } else {
                assert(q@ =~= join_with_spaces(terms.take(k + 1)));
            }
        }
        k = k + 1;
    }
    proof {
        assert(terms.take(words@.len() as int) =~= terms);
    }
    q
}

/// How FTS5 reads the inside of a string literal: a pair of double quotes
/// stands for one double quote, every other character for itself.
pub open spec fn fts_unescape(e: Seq<char>) -> Seq<char>
    decreases e.len(),
{
    if e.len() == 0 {
        seq![]
    } else if e.last() == '"' && e.len() >= 2 {
        fts_unescape(e.drop_last().drop_last()).push('"')
    } else {
        fts_unescape(e.drop_last()).push(e.last())
    }
}

/// Each term is a well-formed FTS5 string literal that reads back as
/// exactly the word it was built from, whatever quotes the word holds.
pub proof fn law_fts_escape_round_trip(w: Seq<char>)
    ensures
        fts_unescape(fts_escape(w)) == w,
    decreases w.len(),
{
    if w.len() > 0 {
        let prev = fts_escape(w.drop_last());
        law_fts_escape_round_trip(w.drop_last());
        if w.last() == '"' {
            let e = prev + seq!['"', '"'];
            assert(e.drop_last().drop_last() =~= prev);
        } else {
            assert(prev.push(w.last()).drop_last() =~= prev);
        }
        assert(w.drop_last().push(w.last()) =~= w);
    }
}

/// The query holds one term per word of the search string, and it is empty
/// exactly when the search string holds no word.
pub proof fn law_fts_query_has_one_term_per_word(text: Seq<char>)
    ensures
        fts_terms(text).len() == split_words(text).len(),
        forall|k: int|
            0 <= k < split_words(text).len() ==> #[trigger] fts_terms(text)[k] == fts_term(
                split_words(text)[k],
            ),
        (fts_query(text).len() == 0) == (split_words(text).len() == 0),
{
    let terms = fts_terms(text);
    lemma_join_nonempty(terms);
}

proof fn lemma_join_nonempty(parts: Seq<Seq<char>>)
    requires
        forall|k: int| 0 <= k < parts.len() ==> (#[trigger] parts[k]).len() > 0,
    ensures
        (join_with_spaces(parts).len() == 0) == (parts.len() == 0),
    decreases parts.len(),
{
    if parts.len() > 1 {
        lemma_join_nonempty(parts.drop_last());
    }
}

} // verus!
