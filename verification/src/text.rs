//! Reading a text character by character: what counts as white space, how a
//! text falls into words, and what punctuation a word carries.

use vstd::prelude::*;
use crate::pacing::{has_comma, has_stop_mark, is_stop_mark};

verus! {

/// What a single pass over a word finds: how many characters it has and
/// which kinds of punctuation occur in it.
#[derive(Clone, Copy, Debug)]
pub struct WordShape {
    /// The number of characters.
    pub len: usize,
    /// Whether a stop mark occurs.
    pub stop: bool,
    /// Whether a comma occurs.
    pub comma: bool,
}

/// Looks at every character of `text` once.
pub fn word_shape(text: &str) -> (shape: WordShape)
    ensures
        shape.len == text@.len(),
        shape.stop == has_stop_mark(text@),
        shape.comma == has_comma(text@),
{
    let total: usize = text.unicode_len();
    let mut len: usize = 0;
    let mut stop = false;
    let mut comma = false;
    for c in it: text.chars()
        invariant
            it.seq() == text@,
            total == text@.len(),
            len == it.index(),
            stop == has_stop_mark(text@.take(it.index() as int)),
            comma == has_comma(text@.take(it.index() as int)),
    {
        proof {
            let before = text@.take(len as int);
            let after = text@.take(len + 1);
            assert(after[len as int] == c);
            assert forall|i: int| 0 <= i < before.len() implies before[i] == after[i] by {}
            if has_stop_mark(after) && !is_stop_mark(c) {
                let i = choose|i: int| 0 <= i < after.len() && is_stop_mark(#[trigger] after[i]);
                assert(is_stop_mark(before[i]));
            }
            if has_comma(after) && c != ',' {
                let i = choose|i: int| 0 <= i < after.len() && #[trigger] after[i] == ',';
                assert(before[i] == ',');
            }
        }
        len = len + 1;
        if c == '.' || c == '!' || c == '?' || c == ';' {
            stop = true;
        }
        if c == ',' {
            comma = true;
        }
    }
    assert(text@.take(len as int) =~= text@);
    WordShape { len, stop, comma }
}

/// `String::push` of the standard library: the character is added at the end
/// of the string and nothing else changes.
pub assume_specification[ String::push ](s: &mut String, ch: char)
    ensures
        final(s)@ == old(s)@.push(ch),
;

/// Whether `c` separates words: the characters that Unicode lists as white
/// space.
pub open spec fn is_whitespace(c: char) -> bool {
    let code = c as u32;
    ||| 0x09 <= code <= 0x0D
    ||| code == 0x20
    ||| code == 0x85
    ||| code == 0xA0
    ||| code == 0x1680
    ||| 0x2000 <= code <= 0x200A
    ||| code == 0x2028
    ||| code == 0x2029
    ||| code == 0x202F
    ||| code == 0x205F
    ||| code == 0x3000
}

/// Tells whether `c` separates words.
pub fn separates_words(c: char) -> (b: bool)
    ensures
        b == is_whitespace(c),
{
    let code: u32 = c as u32;
    (0x09 <= code && code <= 0x0D) || code == 0x20 || code == 0x85 || code == 0xA0 || code
        == 0x1680 || (0x2000 <= code && code <= 0x200A) || code == 0x2028 || code == 0x2029
        || code == 0x202F || code == 0x205F || code == 0x3000
}

/// The words of `text`, in order: its longest runs of characters that are
/// not white space. The definition reads the text from the left: a white
/// space character adds nothing, another character either lengthens the
/// word that the character before it belongs to or begins a new word.
pub open spec fn words_of(text: Seq<char>) -> Seq<Seq<char>>
    decreases text.len(),
{
    if text.len() == 0 {
        Seq::empty()
    } else {
        let front = text.drop_last();
        let found = words_of(front);
        let c = text.last();
        if is_whitespace(c) {
            found
        } else if front.len() > 0 && !is_whitespace(front.last()) {
            found.drop_last().push(found.last().push(c))
        } else {
            found.push(seq![c])
        }
    }
}

/// The texts of `words`, in order.
pub open spec fn texts_of(words: Seq<String>) -> Seq<Seq<char>> {
    Seq::new(words.len(), |i: int| words[i]@)
}

/// Splits `text` into its words.
pub fn split_words(text: &str) -> (words: Vec<String>)
    ensures
        texts_of(words@) == words_of(text@),
{
    let mut words: Vec<String> = Vec::new();
    let mut current = String::new();
    let mut open = false;
    for c in it: text.chars()
        invariant
            it.seq() == text@,
            open == (current@.len() > 0),
            open == (it.index() > 0 && !is_whitespace(text@[it.index() - 1])),
            words_of(text@.take(it.index() as int)) == if open {
                texts_of(words@).push(current@)
            } else {
                texts_of(words@)
            },
    {
        proof {
            let before = text@.take(it.index() as int);
            let after = text@.take(it.index() + 1);
            assert(after.drop_last() =~= before);
            assert(after.last() == c);
            if open {
                assert(before.last() == text@[it.index() - 1]);
                assert(texts_of(words@).push(current@).drop_last() =~= texts_of(words@));
            }
        }
        let ghost done = texts_of(words@);
        if separates_words(c) {
            if open {
                words.push(current);
                current = String::new();
                open = false;
                assert(texts_of(words@) =~= done.push(words@.last()@));
            }
        } else {
            let ghost run = current@;
            current.push(c);
            proof {
                let after = text@.take(it.index() + 1);
                if open {
                    assert(done.push(run).last() == run);
                    assert(words_of(after) =~= done.push(run.push(c)));
                } else {
                    assert(run.push(c) =~= seq![c]);
                    assert(words_of(after) =~= done.push(seq![c]));
                }
            }
            open = true;
        }
    }
    assert(text@.take(text@.len() as int) =~= text@);
    if open {
        let ghost done = texts_of(words@);
        words.push(current);
        assert(texts_of(words@) =~= done.push(words@.last()@));
    }
    words
}

/// Whether `word` can be a word of a text: it has a character, and none of
/// its characters is white space.
pub open spec fn is_word(word: Seq<char>) -> bool {
    &&& word.len() > 0
    &&& forall|j: int| 0 <= j < word.len() ==> !is_whitespace(#[trigger] word[j])
}

/// The characters of `text` that are not white space, in order.
pub open spec fn without_whitespace(text: Seq<char>) -> Seq<char> {
    text.filter(|c: char| !is_whitespace(c))
}

/// `words` written one after the other.
pub open spec fn joined(words: Seq<Seq<char>>) -> Seq<char>
    decreases words.len(),
{
    if words.len() == 0 {
        Seq::empty()
    } else {
        joined(words.drop_last()) + words.last()
    }
}

/// Every word of a text has a character and holds no white space. A text
/// that ends in a character that is not white space has a word.
pub proof fn lemma_words_are_words(text: Seq<char>)
    ensures
        forall|i: int| 0 <= i < words_of(text).len() ==> is_word(#[trigger] words_of(text)[i]),
        text.len() > 0 && !is_whitespace(text.last()) ==> words_of(text).len() > 0,
    decreases text.len(),
{
    if text.len() > 0 {
        let front = text.drop_last();
        lemma_words_are_words(front);
        let found = words_of(front);
        let c = text.last();
        if is_whitespace(c) {
        } else if front.len() > 0 && !is_whitespace(front.last()) {
            let longer = found.last().push(c);
            assert(is_word(found.last()));
            assert(is_word(longer)) by {
                assert forall|j: int| 0 <= j < longer.len() implies !is_whitespace(
                    #[trigger] longer[j],
                ) by {
                    if j < found.last().len() {
                        assert(longer[j] == found.last()[j]);
                    }
                }
            }
            assert forall|i: int| 0 <= i < words_of(text).len() implies is_word(
                #[trigger] words_of(text)[i],
            ) by {
                if i < found.len() - 1 {
                    assert(words_of(text)[i] == found[i]);
                }
            }
        } else {
            assert(is_word(seq![c]));
            assert forall|i: int| 0 <= i < words_of(text).len() implies is_word(
                #[trigger] words_of(text)[i],
            ) by {
                if i < found.len() {
                    assert(words_of(text)[i] == found[i]);
                }
            }
        }
    }
}

/// Splitting loses nothing but white space: the words of a text, written
/// one after the other, are its characters that are not white space.
pub proof fn lemma_words_keep_text(text: Seq<char>)
    ensures
        joined(words_of(text)) == without_whitespace(text),
    decreases text.len(),
{
    let keep = |c: char| !is_whitespace(c);
    if text.len() == 0 {
        assert(text.filter(keep) =~= Seq::<char>::empty()) by {
            reveal(Seq::filter);
        }
    } else {
        let front = text.drop_last();
        lemma_words_keep_text(front);
        lemma_words_are_words(front);
        let found = words_of(front);
        let c = text.last();
        assert(text.filter(keep) == if keep(c) {
            front.filter(keep).push(c)
        } else {
            front.filter(keep)
        }) by {
            reveal(Seq::filter);
        }
        if is_whitespace(c) {
        } else if front.len() > 0 && !is_whitespace(front.last()) {
            let now = words_of(text);
            assert(now.drop_last() =~= found.drop_last());
            assert(now.last() == found.last().push(c));
            assert(joined(now) =~= joined(found).push(c));
        } else {
            let now = words_of(text);
            assert(now.drop_last() =~= found);
            assert(joined(now) =~= joined(found).push(c));
        }
    }
}

/// A text without white space is one word: itself.
pub proof fn lemma_word_is_its_own_word(text: Seq<char>)
    requires
        is_word(text),
    ensures
        words_of(text) == seq![text],
    decreases text.len(),
{
    let front = text.drop_last();
    let c = text.last();
    assert(!is_whitespace(c));
    assert(text =~= front.push(c));
    if front.len() == 0 {
        assert(words_of(front) =~= Seq::<Seq<char>>::empty());
        assert(words_of(text) =~= seq![seq![c]]);
        assert(text =~= seq![c]);
    } else {
        assert(is_word(front)) by {
            assert forall|j: int| 0 <= j < front.len() implies !is_whitespace(
                #[trigger] front[j],
            ) by {
                assert(front[j] == text[j]);
            }
        }
        lemma_word_is_its_own_word(front);
        assert(!is_whitespace(front.last()));
        assert(words_of(text) =~= seq![front.push(c)]);
    }
}

/// White space parts words: the words of a text in which a white space
/// character stands between `left` and `right` are the words of `left`
/// followed by the words of `right`.
pub proof fn lemma_whitespace_parts_words(left: Seq<char>, space: char, right: Seq<char>)
    requires
        is_whitespace(space),
    ensures
        words_of(left.push(space) + right) == words_of(left) + words_of(right),
    decreases right.len(),
{
    let text = left.push(space) + right;
    if right.len() == 0 {
        assert(text =~= left.push(space));
        assert(text.drop_last() =~= left);
        assert(words_of(right) =~= Seq::<Seq<char>>::empty());
        assert(words_of(text) =~= words_of(left) + words_of(right));
    } else {
        let shorter = right.drop_last();
        let c = right.last();
        let front = left.push(space) + shorter;
        assert(text.drop_last() =~= front);
        assert(text.last() == c);
        lemma_whitespace_parts_words(left, space, shorter);
        lemma_words_are_words(shorter);
        let found = words_of(front);
        let inner = words_of(shorter);
        if is_whitespace(c) {
        } else if shorter.len() > 0 && !is_whitespace(shorter.last()) {
            assert(front.last() == shorter.last());
            assert(inner.len() > 0);
            assert(found.last() == inner.last());
            assert(found.drop_last() =~= words_of(left) + inner.drop_last());
            assert(words_of(text) =~= words_of(left) + words_of(right));
        } else {
            if shorter.len() == 0 {
                assert(front =~= left.push(space));
                assert(front.last() == space);
            } else {
                assert(front.last() == shorter.last());
            }
            assert(words_of(text) =~= words_of(left) + words_of(right));
        }
    }
}

} // verus!
