//! The calls into other crates, and into the parts of the standard library
//! that come without a specification. Verus takes each contract in this file
//! on trust: nothing here is proved.

use rand::Rng;
use vstd::prelude::*;

verus! {

/// What searching `text` for the regular expression `pattern` gives: `None`
/// when the pattern does not compile, `Some(None)` when it matches nowhere in
/// the text, and else the text of the leftmost match.
pub uninterp spec fn regex_find(pattern: Seq<char>, text: Seq<char>) -> Option<Option<Seq<char>>>;

/// Compiles `pattern` with `regex::Regex::new` and searches `text` with
/// `Regex::find`. The outcome depends on the two texts alone and is named
/// [`regex_find`].
#[verifier::external_body]
pub(crate) fn find_pattern(pattern: &str, text: &str) -> (r: Option<Option<String>>)
    ensures
        r.deep_view() == regex_find(pattern@, text@),
{
    match regex::Regex::new(pattern) {
        Ok(re) => Some(re.find(text).map(|m| m.as_str().to_string())),
        Err(_) => None,
    }
}

/// What replacing every match of the regular expression `pattern` in `text`
/// by `replacement` gives, or `None` when the pattern does not compile.
pub uninterp spec fn regex_replace_all(
    pattern: Seq<char>,
    text: Seq<char>,
    replacement: Seq<char>,
) -> Option<Seq<char>>;

/// Compiles `pattern` with `regex::Regex::new` and rewrites `text` with
/// `Regex::replace_all`. The outcome depends on the three texts alone and is
/// named [`regex_replace_all`].
#[verifier::external_body]
pub(crate) fn replace_pattern(pattern: &str, text: &str, replacement: &str) -> (r: Option<String>)
    ensures
        r.deep_view() == regex_replace_all(pattern@, text@, replacement@),
{
    match regex::Regex::new(pattern) {
        Ok(re) => Some(re.replace_all(text, replacement).to_string()),
        Err(_) => None,
    }
}

/// The edit distance that `levenshtein::levenshtein` computes between two
/// texts.
pub uninterp spec fn levenshtein_distance(a: Seq<char>, b: Seq<char>) -> nat;

/// Calls `levenshtein::levenshtein`. The distance depends on the two texts
/// alone and is named [`levenshtein_distance`].
#[verifier::external_body]
pub(crate) fn edit_distance(a: &str, b: &str) -> (r: usize)
    ensures
        r == levenshtein_distance(a@, b@),
{
    levenshtein::levenshtein(a, b)
}

/// The text that `String::from_utf8_lossy` decodes from bytes, with the
/// replacement character in place of each invalid sequence.
pub uninterp spec fn utf8_lossy(bytes: Seq<u8>) -> Seq<char>;

/// Calls `String::from_utf8_lossy` of the standard library. The text depends
/// on the bytes alone and is named [`utf8_lossy`].
#[verifier::external_body]
pub(crate) fn lossy_text(bytes: &Vec<u8>) -> (r: String)
    ensures
        r@ == utf8_lossy(bytes@),
{
    String::from_utf8_lossy(bytes).to_string()
}

/// A fresh identifier: `uuid::Uuid::new_v4` in its hyphenated notation. It
/// is random, so nothing is promised of it.
#[verifier::external_body]
pub(crate) fn new_id() -> (r: String)
{
    uuid::Uuid::new_v4().to_string()
}

/// A number drawn by `rand::Rng::gen_range` from the half-open range
/// `low..high` of the thread's generator. The range must not be empty; the
/// number lies in it.
#[verifier::external_body]
pub(crate) fn random_in(low: u64, high: u64) -> (r: u64)
    requires
        low < high,
    ensures
        low <= r < high,
{
    rand::thread_rng().gen_range(low..high)
}

/// `String::push` of the standard library: the character is appended at the
/// end of the string and nothing else changes.
#[verifier::external_body]
pub(crate) fn push_char(s: &mut String, c: char)
    ensures
        final(s)@ == old(s)@.push(c),
{
    s.push(c);
}

/// The number of logical processors that `num_cpus::get` reports, which is
/// at least one.
#[verifier::external_body]
pub(crate) fn cpu_count() -> (r: usize)
    ensures
        r >= 1,
{
    num_cpus::get()
}

} // verus!
