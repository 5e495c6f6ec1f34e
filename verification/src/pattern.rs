//! Search patterns: how one is written for an episode, and which titles it
//! accepts. Patterns are regular expressions, compiled and run by `regex`.

use vstd::prelude::*;
use vstd::string::*;
use crate::text::{decimal, decimal_text};

verus! {

/// An episode number in decimal, padded with a zero to two digits.
pub open spec fn padded_episode(n: nat) -> Seq<char> {
    if n < 10 {
        seq!['0'] + decimal_text(n)
    } else {
        decimal_text(n)
    }
}

/// The search pattern of an episode: anything, the show's own pattern,
/// anything, the padded episode number, anything.
pub open spec fn pattern_text(template: Seq<char>, episode: nat) -> Seq<char> {
    seq!['.', '*'] + template + seq!['.', '*'] + padded_episode(episode) + seq!['.', '*']
}

/// Writes the search pattern of episode `episode` of a show whose own
/// pattern is `template`.
pub fn search_pattern(template: &str, episode: u8) -> (pattern: String)
    ensures
        pattern@ == pattern_text(template@, episode as nat),
{
    proof {
        reveal_strlit(".*");
    }
    assert(".*"@ =~= seq!['.', '*']);
    let mut pattern = String::from_str(".*");
    pattern.append(template);
    pattern.append(".*");
    let ghost head = pattern@;
    if episode < 10 {
        proof {
            reveal_strlit("0");
        }
        assert("0"@ =~= seq!['0']);
        pattern.append("0");
    }
    let number = decimal(episode as u32);
    pattern.append(number.as_str());
    assert(pattern@ =~= head + padded_episode(episode as nat));
    pattern.append(".*");
    pattern
}

/// Whether `regex` compiles the pattern.
pub uninterp spec fn pattern_valid(pattern: Seq<char>) -> bool;

/// Whether the pattern, once compiled by `regex`, finds a match somewhere in
/// the text.
pub uninterp spec fn pattern_accepts(pattern: Seq<char>, text: Seq<char>) -> bool;

/// Compiles the pattern with `regex::Regex::new` and says whether that
/// succeeded.
///
/// Trusted: the answer is the one named by [`pattern_valid`], which says only
/// that the same pattern always compiles or always fails.
#[verifier::external_body]
pub(crate) fn compiles(pattern: &str) -> (ok: bool)
    ensures
        ok == pattern_valid(pattern@),
{
    regex::Regex::new(pattern).is_ok()
}

/// Runs `regex::Regex::is_match` of the compiled pattern on the text.
///
/// Trusted: the answer is the one named by [`pattern_accepts`]. The pattern
/// is one that `regex::Regex::new` compiles.
#[verifier::external_body]
pub(crate) fn accepts(pattern: &str, text: &str) -> (hit: bool)
    requires
        pattern_valid(pattern@),
    ensures
        hit == pattern_accepts(pattern@, text@),
{
    regex::Regex::new(pattern).unwrap().is_match(text)
}

/// What a pattern says of a text: `None` where the pattern does not compile,
/// else whether it accepts the text.
pub open spec fn verdict(pattern: Seq<char>, text: Seq<char>) -> Option<bool> {
    if pattern_valid(pattern) {
        Some(pattern_accepts(pattern, text))
    } else {
        None
    }
}

/// Tests one text against a pattern.
pub fn try_match(pattern: &str, text: &str) -> (result: Option<bool>)
    ensures
        result == verdict(pattern@, text@),
{
    if compiles(pattern) {
        Some(accepts(pattern, text))
    } else {
        None
    }
}

/// Whether `at` is a set flag with no set flag before it.
pub open spec fn is_first_set(flags: Seq<bool>, at: int) -> bool {
    &&& 0 <= at < flags.len()
    &&& flags[at]
    &&& forall|j: int| 0 <= j < at ==> !flags[j]
}

/// The position of the first set flag, or `None` where no flag is set.
pub fn first_set(flags: &Vec<bool>) -> (found: Option<usize>)
    ensures
        found matches Some(at) ==> is_first_set(flags@, at as int),
        found is None ==> forall|j: int| 0 <= j < flags.len() ==> !flags[j],
{
    let mut i: usize = 0;
    while i < flags.len()
        invariant
            i <= flags.len(),
            forall|j: int| 0 <= j < i ==> !flags[j],
        decreases flags.len() - i,
    {
        if flags[i] {
            return Some(i);
        }
        i += 1;
    }
    None
}

} // verus!
