//! The default backend: a multi-pattern trie automaton with failure
//! transitions, compiled by the `aho_corasick` crate.

use crate::build_error::{build_error, is_error_text, PatternCompileError};
use crate::matcher::Matcher;
use crate::value::Value;
use crate::text::{fold_all, folded_words, is_substring, lemma_folded_exists, strings_view, to_lower};
use aho_corasick::AhoCorasick;
use vstd::prelude::*;

verus! {

#[verifier::external_type_specification]
#[verifier::external_body]
pub struct ExAhoCorasick(AhoCorasick);

/// The patterns an automaton was built from, in order.
pub uninterp spec fn ac_patterns(ac: AhoCorasick) -> Seq<Seq<char>>;

/// Whether the trie-automaton builder accepts this pattern list. The build
/// is a deterministic function of the patterns alone; it fails only over the
/// crate's internal size limits.
pub uninterp spec fn ac_compiles(words: Seq<Seq<char>>) -> bool;

/// Relies on `aho_corasick::AhoCorasickBuilder::build`, configured with
/// `MatchKind::LeftmostFirst`: it succeeds exactly when the builder accepts
/// the list (`ac_compiles`); on success the automaton holds exactly the
/// given patterns, in order; on failure the builder's diagnostic is returned
/// as text.
#[verifier::external_body]
fn ac_build(words: &Vec<String>) -> (r: Result<AhoCorasick, String>)
    ensures
        r is Ok <==> ac_compiles(strings_view(words@)),
        r is Ok ==> ac_patterns(r->Ok_0) == strings_view(words@),
{
    AhoCorasick::builder()
        .match_kind(aho_corasick::MatchKind::LeftmostFirst)
        .build(words)
        .map_err(|e| e.to_string())
}

/// Relies on `aho_corasick::AhoCorasick::is_match`: true if and only if some
/// pattern of the automaton occurs in the haystack. The crate matches over
/// the UTF-8 bytes of both sides; since UTF-8 is self-synchronizing, a byte
/// occurrence of one well-formed string inside another is exactly a character
/// occurrence.
#[verifier::external_body]
fn ac_is_match(ac: &AhoCorasick, hay: &str) -> (r: bool)
    ensures
        r == (exists|i: int|
            0 <= i < ac_patterns(*ac).len() && is_substring(ac_patterns(*ac)[i], hay@)),
{
    ac.is_match(hay)
}

/// A deny list compiled into an Aho-Corasick automaton. Immutable once built;
/// its view is the word list it was compiled from, in the original case.
pub struct DenyList {
    ac: AhoCorasick,
    words: Ghost<Seq<Seq<char>>>,
}

impl DenyList {
    #[verifier::type_invariant]
    spec fn wf(&self) -> bool {
        ac_patterns(self.ac) == folded_words(self.words@)
    }

    /// The word list this matcher was compiled from.
    pub closed spec fn view(&self) -> Seq<Seq<char>> {
        self.words@
    }

    /// Compiles `words` (folded to lowercase) into the automaton. It
    /// succeeds exactly when the backend accepts the folded list, which fails
    /// only over an internal size limit; the error then carries the backend's
    /// diagnostic behind the fixed prefix.
    pub fn new(words: Vec<String>) -> (r: Result<DenyList, PatternCompileError>)
        ensures
            r is Ok <==> ac_compiles(folded_words(strings_view(words@))),
            r is Ok ==> r->Ok_0@ == strings_view(words@),
            r is Err ==> is_error_text(r->Err_0@),
    {
        let folded = fold_all(&words);
        proof {
            assert(strings_view(folded@) =~= folded_words(strings_view(words@)));
        }
        match ac_build(&folded) {
            Ok(ac) => Ok(DenyList { ac, words: Ghost(strings_view(words@)) }),
            Err(diagnostic) => Err(build_error(diagnostic)),
        }
    }
}

impl Matcher for DenyList {
    open spec fn patterns(&self) -> Seq<Seq<char>> {
        self@
    }

    fn is_match(&self, s: &str) -> (r: bool)
    {
        proof {
            use_type_invariant(&*self);
        }
        let folded = to_lower(s);
        let r = ac_is_match(&self.ac, folded.as_str());
        proof {
            lemma_folded_exists(self.words@, s@, folded@);
        }
        r
    }

    fn scan_str(&self, txt: &str) -> (r: bool) {
        self.is_match(txt)
    }
}

impl DenyList {
    /// Scans the values of one flat mapping; keys are never matched, and
    /// values that are not strings are silently skipped.
    pub fn scan(&self, args: &Vec<(String, Value)>) -> (r: bool)
        ensures
            r == crate::value::mapping_has_match(self@, args@),
    {
        crate::scan_any::scan(self, args)
    }

    /// Scans any dynamic value depth-first, applying `is_match` to every
    /// string leaf; keys of a mapping are never matched.
    pub fn scan_any(&self, value: &Value) -> (r: bool)
        ensures
            r == crate::value::value_has_match(self@, *value),
    {
        crate::scan_any::scan_any(self, value)
    }

    /// Scans a MessagePack buffer for deny words, matching string tokens in
    /// value position; malformed input resolves to "no match".
    pub fn scan_msgpack(&self, value: &[u8]) -> (r: bool)
        ensures
            r == crate::msgpack::msgpack_match(self@, value@),
    {
        crate::msgpack::scan_msgpack(self, value)
    }
}

} // verus!
