//! Splitting a line of text into its words.
use vstd::prelude::*;
use vstd::string::StrSliceExecFns;
use crate::text::texts;

verus! {

/// Whether `c` separates words: the characters with the Unicode property
/// `White_Space`.
pub open spec fn is_space(c: char) -> bool {
    let u = c as u32;
    ||| 0x09 <= u <= 0x0D
    ||| u == 0x20
    ||| u == 0x85
    ||| u == 0xA0
    ||| u == 0x1680
    ||| 0x2000 <= u <= 0x200A
    ||| u == 0x2028
    ||| u == 0x2029
    ||| u == 0x202F
    ||| u == 0x205F
    ||| u == 0x3000
}

/// Where the run of characters that are no spaces and begins at `i` ends:
/// the first place from `i` on that holds a space, or the end of `s`.
pub open spec fn word_end(s: Seq<char>, i: int) -> int
    decreases s.len() - i,
{
    if i < 0 || i >= s.len() || is_space(s[i]) {
        i
    } else {
        word_end(s, i + 1)
    }
}

/// A run ends at or behind the place where it begins, and inside `s`.
pub proof fn lemma_word_end_bounds(s: Seq<char>, i: int)
    requires
        0 <= i <= s.len(),
    ensures
        i <= word_end(s, i) <= s.len(),
        forall|j: int| i <= j < word_end(s, i) ==> !is_space(#[trigger] s[j]),
        word_end(s, i) < s.len() ==> is_space(s[word_end(s, i)]),
    decreases s.len() - i,
{
    if i < s.len() && !is_space(s[i]) {
        lemma_word_end_bounds(s, i + 1);
    }
}

/// The words of `s` that begin at `i` or behind it. A word is a run of
/// characters that are no spaces and that cannot be made longer.
pub open spec fn words_from(s: Seq<char>, i: int) -> Seq<Seq<char>>
    decreases s.len() - i,
{
    if i < 0 || i >= s.len() {
        Seq::empty()
    } else if is_space(s[i]) {
        words_from(s, i + 1)
    } else {
        proof {
            lemma_word_end_bounds(s, i + 1);
        }
        seq![s.subrange(i, word_end(s, i))] + words_from(s, word_end(s, i))
    }
}

/// The words of `s`, in order. Spaces before the first word, behind the last
/// and between two words belong to no word.
pub open spec fn words_of(s: Seq<char>) -> Seq<Seq<char>> {
    words_from(s, 0)
}

/// Whether `c` separates words.
pub fn is_whitespace(c: char) -> (r: bool)
    ensures
        r == is_space(c),
{
    let u: u32 = c as u32;
    (0x09 <= u && u <= 0x0D) || u == 0x20 || u == 0x85 || u == 0xA0 || u == 0x1680 || (0x2000
        <= u && u <= 0x200A) || u == 0x2028 || u == 0x2029 || u == 0x202F || u == 0x205F || u
        == 0x3000
}

/// The words of `line`, in order.
pub fn split_whitespace(line: &str) -> (words: Vec<String>)
    ensures
        texts(words@) == words_of(line@),
{
    let n = line.unicode_len();
    let mut words: Vec<String> = Vec::new();
    let mut i: usize = 0;
    assert(texts(words@) + words_from(line@, 0) =~= words_of(line@));
    while i < n
        invariant
            n == line@.len(),
            i <= n,
            texts(words@) + words_from(line@, i as int) == words_of(line@),
        decreases n - i,
    {
        if is_whitespace(line.get_char(i)) {
            i += 1;
        } else {
            let start = i;
            proof {
                lemma_word_end_bounds(line@, start as int);
            }
            while i < n && !is_whitespace(line.get_char(i))
                invariant
                    n == line@.len(),
                    start <= i <= n,
                    i <= word_end(line@, start as int) <= n,
                    forall|j: int|
                        start <= j < word_end(line@, start as int) ==> !is_space(
                            #[trigger] line@[j],
                        ),
                    word_end(line@, start as int) < n ==> is_space(
                        line@[word_end(line@, start as int)],
                    ),
                decreases n - i,
            {
                i += 1;
            }
            assert(i == word_end(line@, start as int));
            let word = line.substring_char(start, i).to_owned();
            let ghost before = texts(words@);
            words.push(word);
            proof {
                assert(texts(words@) =~= before.push(line@.subrange(start as int, i as int)));
                assert(words_from(line@, start as int) == seq![
                    line@.subrange(start as int, i as int),
                ] + words_from(line@, i as int));
                assert(texts(words@) + words_from(line@, i as int) =~= before + words_from(
                    line@,
                    start as int,
                ));
            }
        }
    }
    assert(texts(words@) + words_from(line@, n as int) =~= texts(words@));
    words
}

} // verus!
