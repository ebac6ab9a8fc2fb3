//! The textual model that every backend shares: case folding and the
//! substring-existence predicate that defines a deny-list match.

use vstd::prelude::*;

verus! {

/// The canonical case folding applied to every pattern at build time and to
/// every queried text before matching. Its value on given characters is not
/// axiomatized here; it is fixed by `str::to_lowercase`, which depends on the
/// characters alone.
pub uninterp spec fn lower_of(s: Seq<char>) -> Seq<char>;

/// `pat` occurs contiguously somewhere inside `text`. The empty pattern
/// occurs in every text, including the empty one.
pub open spec fn is_substring(pat: Seq<char>, text: Seq<char>) -> bool {
    exists|i: int|
        0 <= i && i + pat.len() <= text.len() && #[trigger] text.subrange(i, i + pat.len()) == pat
}

/// The single matching contract of the whole engine: some word of `words`,
/// case-folded, occurs as a substring of the case-folded `text`.
pub open spec fn deny_match(words: Seq<Seq<char>>, text: Seq<char>) -> bool {
    exists|i: int| 0 <= i < words.len() && is_substring(lower_of(words[i]), lower_of(text))
}

/// The folded form of every word of `words`, in order.
pub open spec fn folded_words(words: Seq<Seq<char>>) -> Seq<Seq<char>> {
    words.map_values(|w: Seq<char>| lower_of(w))
}

/// The view of a vector of owned strings as a sequence of character sequences.
pub open spec fn strings_view(words: Seq<String>) -> Seq<Seq<char>> {
    words.map_values(|w: String| w@)
}

/// Relies on `str::to_lowercase`: the folded text is a function of the
/// characters alone, and it is empty exactly when the input is.
#[verifier::external_body]
pub(crate) fn to_lower(s: &str) -> (r: String)
    ensures
        r@ == lower_of(s@),
        r@.len() == 0 <==> s@.len() == 0,
{
    s.to_lowercase()
}

/// Relies on `core::str::from_utf8`: it succeeds exactly when the bytes are
/// valid UTF-8, and the returned slice then views the decoded characters.
#[verifier::external_body]
pub(crate) fn utf8_to_str(bytes: &[u8]) -> (r: Option<&str>)
    ensures
        r is Some <==> vstd::utf8::valid_utf8(bytes@),
        r is Some ==> r->0@ == vstd::utf8::decode_utf8(bytes@),
{
    core::str::from_utf8(bytes).ok()
}

/// Folds every word of `words` to the canonical lowercase form, in order.
pub(crate) fn fold_all(words: &Vec<String>) -> (r: Vec<String>)
    ensures
        r@.len() == words@.len(),
        forall|j: int| 0 <= j < words@.len() ==> r@[j]@ == lower_of(words@[j]@),
        forall|j: int|
            0 <= j < words@.len() ==> ((#[trigger] r@[j]@).len() == 0 <==> words@[j]@.len() == 0),
{
    let mut folded: Vec<String> = Vec::new();
    for idx in 0..words.len()
        invariant
            folded@.len() == idx,
            forall|j: int| 0 <= j < idx ==> folded@[j]@ == lower_of(words@[j]@),
            forall|j: int|
                0 <= j < idx ==> ((#[trigger] folded@[j]@).len() == 0 <==> words@[j]@.len() == 0),
    {
        folded.push(to_lower(words[idx].as_str()));
    }
    folded
}

/// An occurrence among the folded words is exactly a `deny_match` of the
/// original words: `folded_words` folds each word and nothing else.
pub(crate) proof fn lemma_folded_exists(words: Seq<Seq<char>>, text: Seq<char>, folded: Seq<char>)
    requires
        folded == lower_of(text),
    ensures
        (exists|i: int|
            0 <= i < folded_words(words).len() && is_substring(folded_words(words)[i], folded))
            == deny_match(words, text),
{
    assert(folded_words(words).len() == words.len());
    assert forall|i: int| 0 <= i < words.len() implies folded_words(words)[i] == lower_of(
        words[i],
    ) by {}
    if exists|i: int|
        0 <= i < folded_words(words).len() && is_substring(folded_words(words)[i], folded) {
        let i = choose|i: int|
            0 <= i < folded_words(words).len() && is_substring(folded_words(words)[i], folded);
        assert(is_substring(lower_of(words[i]), lower_of(text)));
    }
    if deny_match(words, text) {
        let i = choose|i: int|
            0 <= i < words.len() && is_substring(lower_of(words[i]), lower_of(text));
        assert(is_substring(folded_words(words)[i], folded));
    }
}

} // verus!
