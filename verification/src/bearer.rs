//! The `Authorization` header: whitespace-separated words, of which a bearer
//! header has exactly two, the scheme word and the session token.

use vstd::prelude::*;
use crate::text::{chars_of, string_of};

verus! {

/// Whether `c` separates words: the characters with the Unicode property
/// White_Space.
pub open spec fn is_space(c: char) -> bool {
    let n = c as u32;
    ||| 0x09 <= n <= 0x0D
    ||| n == 0x20
    ||| n == 0x85
    ||| n == 0xA0
    ||| n == 0x1680
    ||| 0x2000 <= n <= 0x200A
    ||| n == 0x2028
    ||| n == 0x2029
    ||| n == 0x202F
    ||| n == 0x205F
    ||| n == 0x3000
}

/// The words of `s`: its maximal runs of characters that are not white space,
/// from left to right. It is defined by what one more character at the end
/// does: a space changes nothing, a character after a non-space extends the
/// last word, and any other character starts a new word.
pub open spec fn words(s: Seq<char>) -> Seq<Seq<char>>
    decreases s.len(),
{
    if s.len() == 0 {
        Seq::empty()
    } else {
        let before = words(s.drop_last());
        let c = s.last();
        if is_space(c) {
            before
        } else if s.len() >= 2 && !is_space(s[s.len() - 2]) && before.len() > 0 {
            before.drop_last().push(before.last().push(c))
        } else {
            before.push(seq![c])
        }
    }
}

/// The scheme word of a bearer header.
pub open spec fn bearer_text() -> Seq<char> {
    seq!['B', 'e', 'a', 'r', 'e', 'r']
}

/// The session token that a header value carries: the second of exactly two
/// words, where the first is the scheme word, matched exactly. Any other
/// header carries none.
pub open spec fn bearer_token(header: Seq<char>) -> Option<Seq<char>> {
    let w = words(header);
    if w.len() == 2 && w[0] == bearer_text() {
        Some(w[1])
    } else {
        None
    }
}

/// Whether no character of `s` is white space.
pub open spec fn has_no_space(s: Seq<char>) -> bool {
    forall|i: int| 0 <= i < s.len() ==> !is_space(#[trigger] s[i])
}

/// Every word has at least one character, and none of them is white space.
pub proof fn lemma_words_are_solid(s: Seq<char>)
    ensures
        forall|i: int|
            0 <= i < words(s).len() ==> (#[trigger] words(s)[i]).len() > 0 && has_no_space(
                words(s)[i],
            ),
        s.len() > 0 && !is_space(s.last()) ==> words(s).len() > 0,
    decreases s.len(),
{
    if s.len() > 0 {
        lemma_words_are_solid(s.drop_last());
        let before = words(s.drop_last());
        let c = s.last();
        if is_space(c) {
        } else if s.len() >= 2 && !is_space(s[s.len() - 2]) && before.len() > 0 {
            let grown = before.last().push(c);
            assert(has_no_space(grown)) by {
                assert forall|j: int| 0 <= j < grown.len() implies !is_space(#[trigger] grown[j]) by {
                    if j < before.last().len() {
                        assert(grown[j] == before.last()[j]);
                    }
                }
            }
            assert forall|i: int| 0 <= i < words(s).len() implies (#[trigger] words(s)[i]).len() > 0
                && has_no_space(words(s)[i]) by {
                if i < before.len() - 1 {
                    assert(words(s)[i] == before[i]);
                }
            }
        } else {
            assert(has_no_space(seq![c]));
            assert forall|i: int| 0 <= i < words(s).len() implies (#[trigger] words(s)[i]).len() > 0
                && has_no_space(words(s)[i]) by {
                if i < before.len() {
                    assert(words(s)[i] == before[i]);
                }
            }
        }
    }
}

/// A text without white space is one word, and the empty text has none.
pub proof fn lemma_one_word(w: Seq<char>)
    requires
        has_no_space(w),
    ensures
        w.len() > 0 ==> words(w) == seq![w],
        w.len() == 0 ==> words(w) == Seq::<Seq<char>>::empty(),
    decreases w.len(),
{
    if w.len() >= 1 {
        let shorter = w.drop_last();
        assert(has_no_space(shorter)) by {
            assert forall|i: int| 0 <= i < shorter.len() implies !is_space(#[trigger] shorter[i]) by {
                assert(shorter[i] == w[i]);
            }
        }
        lemma_one_word(shorter);
        assert(!is_space(w.last()));
        assert(shorter.push(w.last()) =~= w);
        if w.len() == 1 {
            assert(seq![w.last()] =~= w);
            assert(words(w) =~= seq![w]);
        } else {
            assert(!is_space(w[w.len() - 2]));
            assert(words(w) =~= seq![w]);
        }
    }
}

/// After white space, or at the start, the words of what follows are found
/// as if it stood alone.
pub proof fn lemma_words_after_space(a: Seq<char>, b: Seq<char>)
    requires
        a.len() == 0 || is_space(a.last()),
    ensures
        words(a + b) == words(a) + words(b),
    decreases b.len(),
{
    if b.len() == 0 {
        assert(a + b =~= a);
        assert(words(a) + words(b) =~= words(a));
    } else {
        let shorter = b.drop_last();
        let c = b.last();
        let whole = a + b;
        assert(whole.drop_last() =~= a + shorter);
        assert(whole.last() == c);
        lemma_words_after_space(a, shorter);
        let before_whole = words(a + shorter);
        let before_b = words(shorter);
        if is_space(c) {
        } else if shorter.len() == 0 {
            assert(a + shorter =~= a);
            assert(words(b) =~= seq![seq![c]]);
            if a.len() > 0 {
                assert(whole[whole.len() - 2] == a.last());
            }
            assert(words(whole) =~= words(a).push(seq![c]));
            assert(words(a).push(seq![c]) =~= words(a) + words(b));
        } else {
            assert(whole[whole.len() - 2] == b[b.len() - 2]);
            assert(shorter.last() == b[b.len() - 2]);
            if !is_space(b[b.len() - 2]) {
                lemma_words_are_solid(shorter);
                assert(before_b.len() > 0);
                assert(before_whole.drop_last() =~= words(a) + before_b.drop_last());
                assert(before_whole.last() == before_b.last());
                assert(words(whole) =~= words(a) + words(b));
            } else {
                assert(words(whole) =~= words(a) + words(b));
            }
        }
    }
}

/// The wire format is accepted: the scheme word, one space and a token
/// without white space carry that token. The scheme word alone, and every
/// header that is one word, carry none.
pub proof fn lemma_bearer_format(token: Seq<char>)
    requires
        has_no_space(token),
    ensures
        token.len() > 0 ==> bearer_token(bearer_text() + seq![' '] + token) == Some(token),
        bearer_token(token) is None,
        bearer_token(bearer_text()) is None,
        bearer_token(bearer_text() + seq![' ']) is None,
{
    let scheme = bearer_text();
    let spaced = scheme + seq![' '];
    assert(has_no_space(scheme));
    lemma_one_word(scheme);
    lemma_one_word(token);
    assert(is_space(' '));
    assert(spaced.drop_last() =~= scheme);
    assert(words(spaced) == words(scheme));
    if token.len() > 0 {
        lemma_words_after_space(spaced, token);
        assert(words(spaced + token) =~= seq![scheme, token]);
    }
}

/// The views of a sequence of character vectors.
pub open spec fn word_views(v: Seq<Vec<char>>) -> Seq<Seq<char>> {
    v.map_values(|w: Vec<char>| w@)
}

/// Whether `c` separates words.
pub fn is_whitespace(c: char) -> (r: bool)
    ensures
        r == is_space(c),
{
    let n: u32 = c as u32;
    (0x09 <= n && n <= 0x0D) || n == 0x20 || n == 0x85 || n == 0xA0 || n == 0x1680 || (0x2000
        <= n && n <= 0x200A) || n == 0x2028 || n == 0x2029 || n == 0x202F || n == 0x205F || n
        == 0x3000
}

/// Splits `s` into its words.
pub fn split_whitespace(s: &str) -> (r: Vec<Vec<char>>)
    ensures
        word_views(r@) == words(s@),
{
    let chars = chars_of(s);
    let mut done: Vec<Vec<char>> = Vec::new();
    let mut current: Vec<char> = Vec::new();
    let mut in_word = false;
    let mut i: usize = 0;
    while i < chars.len()
        invariant
            i <= chars.len(),
            chars@ == s@,
            in_word ==> i > 0 && !is_space(chars@[i - 1]) && current@.len() > 0,
            !in_word ==> current@.len() == 0 && (i == 0 || is_space(chars@[i - 1])),
            words(chars@.subrange(0, i as int)) == if in_word {
                word_views(done@).push(current@)
            } else {
                word_views(done@)
            },
        decreases chars.len() - i,
    {
        let c = chars[i];
        let ghost prefix = chars@.subrange(0, i as int);
        let ghost next = chars@.subrange(0, i + 1);
        proof {
            assert(next.drop_last() =~= prefix);
            assert(next.last() == c);
            if i > 0 {
                assert(next[next.len() - 2] == chars@[i - 1]);
            }
        }
        if is_whitespace(c) {
            proof {
                assert(words(next) == words(prefix));
            }
            if in_word {
                proof {
                    assert(word_views(done@.push(current)) =~= word_views(done@).push(current@));
                }
                done.push(current);
                current = Vec::new();
                in_word = false;
            }
        } else {
            proof {
                if in_word {
                    let before = word_views(done@).push(current@);
                    assert(before.drop_last() =~= word_views(done@));
                    assert(before.last() == current@);
                    assert(words(next) == word_views(done@).push(current@.push(c)));
                } else {
                    assert(current@.push(c) =~= seq![c]);
                    assert(words(next) == word_views(done@).push(seq![c]));
                }
            }
            current.push(c);
            in_word = true;
        }
        i = i + 1;
    }
    proof {
        assert(chars@.subrange(0, i as int) =~= chars@);
    }
    if in_word {
        proof {
            assert(word_views(done@.push(current)) =~= word_views(done@).push(current@));
        }
        done.push(current);
    }
    done
}

/// Whether `w` is the scheme word.
fn is_bearer_word(w: &Vec<char>) -> (r: bool)
    ensures
        r == (w@ == bearer_text()),
{
    let r = w.len() == 6 && w[0] == 'B' && w[1] == 'e' && w[2] == 'a' && w[3] == 'r' && w[4]
        == 'e' && w[5] == 'r';
    proof {
        if r {
            assert(w@ =~= bearer_text());
        }
        assert(bearer_text().len() == 6);
    }
    r
}

/// Reads the session token out of the value of an `Authorization` header.
pub fn parse_bearer(header: &str) -> (r: Option<String>)
    ensures
        r is Some == bearer_token(header@) is Some,
        r matches Some(t) ==> Some(t@) == bearer_token(header@),
{
    let w = split_whitespace(header);
    proof {
        assert(word_views(w@).len() == w@.len());
    }
    if w.len() == 2 && is_bearer_word(&w[0]) {
        proof {
            assert(word_views(w@)[0] == w@[0]@);
            assert(word_views(w@)[1] == w@[1]@);
        }
        Some(string_of(&w[1]))
    } else {
        proof {
            if w.len() == 2 {
                assert(word_views(w@)[0] == w@[0]@);
            }
        }
        None
    }
}

} // verus!
