//! The compact backend: the same automaton semantics as `DenyList`, in the
//! double-array encoding of the `daachorse` crate.

use crate::build_error::{build_error, is_error_text, PatternCompileError};
use crate::matcher::Matcher;
use crate::value::Value;
use crate::text::{fold_all, folded_words, is_substring, lemma_folded_exists, strings_view, to_lower};
use daachorse::DoubleArrayAhoCorasick;
use vstd::prelude::*;

verus! {

#[verifier::external_type_specification]
#[verifier::external_body]
#[verifier::reject_recursive_types(V)]
pub struct ExDoubleArrayAhoCorasick<V>(DoubleArrayAhoCorasick<V>);

/// The patterns an automaton was built from, in order.
pub uninterp spec fn daac_patterns(d: DoubleArrayAhoCorasick<usize>) -> Seq<Seq<char>>;

/// Whether an automaton was built under a leftmost match kind, which is what
/// its leftmost search methods require.
pub uninterp spec fn daac_leftmost(d: DoubleArrayAhoCorasick<usize>) -> bool;

/// Whether the double-array builder accepts this pattern list. The build is
/// a deterministic function of the patterns alone; it refuses an empty list,
/// an empty pattern, its own size limits, and a duplicate — unless an
/// earlier word is a proper prefix of the duplicated word, in which case the
/// shadowed copies are dropped silently instead.
pub uninterp spec fn daac_compiles(words: Seq<Seq<char>>) -> bool;

/// Relies on `daachorse::DoubleArrayAhoCorasickBuilder::build`, configured
/// with `MatchKind::LeftmostFirst`: it succeeds exactly when the builder
/// accepts the list (`daac_compiles`); it always refuses an empty list and
/// an empty pattern; on failure its diagnostic is returned as text.
///
/// `daac_patterns` records the requested list. Under a leftmost match kind
/// the crate drops, without error, any pattern that an earlier pattern is a
/// proper prefix of; that never changes an existence answer, since a text
/// containing the dropped pattern contains the kept prefix.
#[verifier::external_body]
fn daac_build(words: &Vec<String>) -> (r: Result<DoubleArrayAhoCorasick<usize>, String>)
    ensures
        r is Ok <==> daac_compiles(strings_view(words@)),
        r is Ok ==> daac_patterns(r->Ok_0) == strings_view(words@),
        r is Ok ==> daac_leftmost(r->Ok_0),
        words@.len() == 0 ==> r is Err,
        (exists|i: int| 0 <= i < words@.len() && (#[trigger] words@[i]@).len() == 0) ==> r is Err,
{
    daachorse::DoubleArrayAhoCorasickBuilder::new()
        .match_kind(daachorse::MatchKind::LeftmostFirst)
        .build(words)
        .map_err(|e| e.to_string())
}

/// Relies on `daachorse::DoubleArrayAhoCorasick::leftmost_find_iter`: on an
/// automaton built under a leftmost match kind it reports a first match
/// exactly when some pattern occurs in the haystack. The crate matches over
/// UTF-8 bytes; since UTF-8 is self-synchronizing, a byte occurrence of one
/// well-formed string inside another is exactly a character occurrence.
#[verifier::external_body]
fn daac_is_match(d: &DoubleArrayAhoCorasick<usize>, hay: &str) -> (r: bool)
    requires
        daac_leftmost(*d),
    ensures
        r == (exists|i: int|
            0 <= i < daac_patterns(*d).len() && is_substring(daac_patterns(*d)[i], hay@)),
{
    d.leftmost_find_iter(hay).next().is_some()
}

/// A deny list compiled into a double-array Aho-Corasick automaton. Matches
/// exactly as `DenyList` does; offered as a denser encoding. Immutable once
/// built; its view is the word list it was compiled from, in the original
/// case.
pub struct DenyListDaac {
    daac: DoubleArrayAhoCorasick<usize>,
    words: Ghost<Seq<Seq<char>>>,
}

impl DenyListDaac {
    #[verifier::type_invariant]
    spec fn wf(&self) -> bool {
        &&& daac_patterns(self.daac) == folded_words(self.words@)
        &&& daac_leftmost(self.daac)
    }

    /// The word list this matcher was compiled from.
    pub closed spec fn view(&self) -> Seq<Seq<char>> {
        self.words@
    }

    /// Compiles `words` (folded to lowercase) into the automaton. It
    /// succeeds exactly when the backend accepts the folded list: an empty
    /// list and an empty word are always refused, as are the backend's size
    /// limits and most duplicates (a word shadowed by an earlier proper
    /// prefix is dropped silently instead of refused). The error carries the
    /// backend's diagnostic behind the fixed prefix.
    pub fn new(words: Vec<String>) -> (r: Result<DenyListDaac, PatternCompileError>)
        ensures
            r is Ok <==> daac_compiles(folded_words(strings_view(words@))),
            r is Ok ==> r->Ok_0@ == strings_view(words@),
            r is Err ==> is_error_text(r->Err_0@),
            words@.len() == 0 ==> r is Err,
            (exists|i: int| 0 <= i < words@.len() && (#[trigger] words@[i]@).len() == 0) ==> r
                is Err,
    {
        let folded = fold_all(&words);
        proof {
            assert(strings_view(folded@) =~= folded_words(strings_view(words@)));
            if exists|i: int| 0 <= i < words@.len() && (#[trigger] words@[i]@).len() == 0 {
                let i = choose|i: int| 0 <= i < words@.len() && (#[trigger] words@[i]@).len() == 0;
                assert(folded@[i]@.len() == 0);
            }
        }
        match daac_build(&folded) {
            Ok(daac) => Ok(DenyListDaac { daac, words: Ghost(strings_view(words@)) }),
            Err(diagnostic) => Err(build_error(diagnostic)),
        }
    }
}

impl Matcher for DenyListDaac {
    open spec fn patterns(&self) -> Seq<Seq<char>> {
        self@
    }

    fn is_match(&self, s: &str) -> (r: bool) {
        proof {
            use_type_invariant(&*self);
        }
        let folded = to_lower(s);
        let r = daac_is_match(&self.daac, folded.as_str());
        proof {
            lemma_folded_exists(self.words@, s@, folded@);
        }
        r
    }

    fn scan_str(&self, txt: &str) -> (r: bool) {
        self.is_match(txt)
    }
}

impl DenyListDaac {
    /// Scans the values of one flat mapping; keys are never matched, and
    /// values that are not strings are silently skipped.
    pub fn scan(&self, args: &Vec<(String, Value)>) -> (r: bool)
        ensures
            r == crate::value::mapping_has_match(self@, args@),
    {
        crate::scan_any::scan(self, args)
    }

    /// Scans any dynamic value depth-first, applying `is_match` to every
    /// string leaf; keys of a mapping are never matched.
    pub fn scan_any(&self, value: &Value) -> (r: bool)
        ensures
            r == crate::value::value_has_match(self@, *value),
    {
        crate::scan_any::scan_any(self, value)
    }

    /// Scans a MessagePack buffer for deny words, matching string tokens in
    /// value position; malformed input resolves to "no match".
    pub fn scan_msgpack(&self, value: &[u8]) -> (r: bool)
        ensures
            r == crate::msgpack::msgpack_match(self@, value@),
    {
        crate::msgpack::scan_msgpack(self, value)
    }
}

} // verus!
