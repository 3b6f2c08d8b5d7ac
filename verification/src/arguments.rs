//! The words of a command and the numbers that they read as.
//!
//! The library takes no number out of text itself. Whoever hands it a line
//! hands it, beside the line, what each word of the line reads as: a number,
//! or nothing where the word is no number. Words and numbers pair up by
//! their place in the line.
use vstd::prelude::*;
use crate::scalar::Scalar;
use crate::text::texts;

verus! {

/// The word at place `i`, or `missing` where the line has fewer words.
pub open spec fn text_at(words: Seq<Seq<char>>, i: int, missing: Seq<char>) -> Seq<char> {
    if 0 <= i < words.len() {
        words[i]
    } else {
        missing
    }
}

/// The number that the word at place `i` stands for: `missing` where the
/// line has fewer words, zero where the word is there and reads as no number.
pub open spec fn number_at(
    words: Seq<Seq<char>>,
    numbers: Seq<Option<Scalar>>,
    i: int,
    missing: Scalar,
) -> Scalar {
    if 0 <= i < words.len() {
        if i < numbers.len() {
            match numbers[i] {
                Some(value) => value,
                None => Scalar::zero(),
            }
        } else {
            Scalar::zero()
        }
    } else {
        missing
    }
}

/// The word at place `i`, or `missing` where the line has fewer words.
pub fn text_arg(words: &Vec<String>, i: usize, missing: &str) -> (r: String)
    ensures
        r@ == text_at(texts(words@), i as int, missing@),
{
    if i < words.len() {
        words[i].clone()
    } else {
        missing.to_owned()
    }
}

/// The number that the word at place `i` stands for.
pub fn number_arg(
    words: &Vec<String>,
    numbers: &Vec<Option<Scalar>>,
    i: usize,
    missing: Scalar,
) -> (r: Scalar)
    ensures
        r == number_at(texts(words@), numbers@, i as int, missing),
{
    if i < words.len() {
        if i < numbers.len() {
            match numbers[i] {
                Some(value) => value,
                None => Scalar::zero(),
            }
        } else {
            Scalar::zero()
        }
    } else {
        missing
    }
}

} // verus!
