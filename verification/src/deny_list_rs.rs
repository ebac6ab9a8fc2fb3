//! The alternation backend: every word escaped as a literal and compiled into
//! one regex set of the `regex` crate.

use crate::build_error::{build_error, is_error_text, PatternCompileError};
use crate::matcher::Matcher;
use crate::value::Value;
use crate::text::{deny_match, fold_all, folded_words, is_substring, lower_of, strings_view, to_lower};
use regex::RegexSet;
use vstd::prelude::*;

verus! {

#[verifier::external_type_specification]
#[verifier::external_body]
pub struct ExRegexSet(RegexSet);

/// The pattern strings a regex set was compiled from, in order.
pub uninterp spec fn rs_patterns(rs: RegexSet) -> Seq<Seq<char>>;

/// Whether the regex denoted by the pattern string `pat` matches somewhere in
/// `text` (unanchored); what `regex::RegexSet::is_match` decides per pattern.
pub uninterp spec fn rx_matches(pat: Seq<char>, text: Seq<char>) -> bool;

/// The literal-escaped form of a pattern string; what `regex::escape`
/// returns, a function of the characters alone.
pub uninterp spec fn escape_of(w: Seq<char>) -> Seq<char>;

/// The escaped form of every word of `words`, in order.
pub open spec fn escaped_words(words: Seq<Seq<char>>) -> Seq<Seq<char>> {
    words.map_values(|w: Seq<char>| escape_of(w))
}

/// Whether `regex::RegexSet::new` accepts this pattern list. The build is a
/// deterministic function of the patterns alone; on escaped literals it
/// fails only over the crate's compiled-size limit.
pub uninterp spec fn rs_compiles(patterns: Seq<Seq<char>>) -> bool;

/// Relies on `regex::escape`: the returned pattern stands for the input
/// literally, so as an unanchored regex it matches a text exactly where the
/// input occurs as a substring.
#[verifier::external_body]
fn rx_escape(w: &str) -> (r: String)
    ensures
        r@ == escape_of(w@),
        forall|t: Seq<char>| #[trigger] rx_matches(r@, t) == is_substring(w@, t),
{
    regex::escape(w)
}

/// Relies on `regex::RegexSet::new`: it succeeds exactly when the crate
/// accepts the pattern list (`rs_compiles`); on success the set holds
/// exactly the given pattern strings, in order; on failure its diagnostic is
/// returned as text.
#[verifier::external_body]
fn rs_build(patterns: &Vec<String>) -> (r: Result<RegexSet, String>)
    ensures
        r is Ok <==> rs_compiles(strings_view(patterns@)),
        r is Ok ==> rs_patterns(r->Ok_0) == strings_view(patterns@),
{
    RegexSet::new(patterns).map_err(|e| e.to_string())
}

/// Relies on `regex::RegexSet::is_match`: true if and only if at least one
/// regex of the set matches the haystack.
#[verifier::external_body]
fn rs_is_match(rs: &RegexSet, text: &str) -> (r: bool)
    ensures
        r == (exists|i: int|
            0 <= i < rs_patterns(*rs).len() && rx_matches(rs_patterns(*rs)[i], text@)),
{
    rs.is_match(text)
}

/// A deny list compiled into one regex set of escaped literals. Matches
/// exactly as `DenyList` does; slower for large word lists, but the natural
/// seed if literal semantics ever grow into real regex syntax. Immutable once
/// built; its view is the word list it was compiled from, in the original
/// case.
pub struct DenyListRs {
    rs: RegexSet,
    words: Ghost<Seq<Seq<char>>>,
}

impl DenyListRs {
    #[verifier::type_invariant]
    spec fn wf(&self) -> bool {
        &&& rs_patterns(self.rs).len() == self.words@.len()
        &&& forall|i: int, t: Seq<char>|
            0 <= i < self.words@.len() ==> #[trigger] rx_matches(rs_patterns(self.rs)[i], t)
                == is_substring(lower_of(self.words@[i]), t)
    }

    /// The word list this matcher was compiled from.
    pub closed spec fn view(&self) -> Seq<Seq<char>> {
        self.words@
    }

    /// Escapes every word (folded to lowercase) as a literal alternative and
    /// compiles the set. It succeeds exactly when the backend accepts the
    /// escaped folded list, which fails only over its compiled-size limit;
    /// the error then carries the backend's diagnostic behind the fixed
    /// prefix.
    pub fn new(words: Vec<String>) -> (r: Result<DenyListRs, PatternCompileError>)
        ensures
            r is Ok <==> rs_compiles(escaped_words(folded_words(strings_view(words@)))),
            r is Ok ==> r->Ok_0@ == strings_view(words@),
            r is Err ==> is_error_text(r->Err_0@),
    {
        let folded = fold_all(&words);
        let mut escaped: Vec<String> = Vec::new();
        for idx in 0..folded.len()
            invariant
                folded@.len() == words@.len(),
                forall|j: int| 0 <= j < words@.len() ==> folded@[j]@ == lower_of(words@[j]@),
                escaped@.len() == idx,
                forall|j: int| 0 <= j < idx ==> #[trigger] escaped@[j]@ == escape_of(folded@[j]@),
                forall|j: int, t: Seq<char>|
                    0 <= j < idx ==> #[trigger] rx_matches(escaped@[j]@, t) == is_substring(
                        lower_of(words@[j]@),
                        t,
                    ),
        {
            escaped.push(rx_escape(folded[idx].as_str()));
        }
        proof {
            assert(strings_view(escaped@) =~= escaped_words(folded_words(strings_view(words@))));
        }
        match rs_build(&escaped) {
            Ok(rs) => {
                let d = DenyListRs { rs, words: Ghost(strings_view(words@)) };
                Ok(d)
            },
            Err(diagnostic) => Err(build_error(diagnostic)),
        }
    }
}

impl Matcher for DenyListRs {
    open spec fn patterns(&self) -> Seq<Seq<char>> {
        self@
    }

    fn is_match(&self, s: &str) -> (r: bool) {
        proof {
            use_type_invariant(&*self);
        }
        let folded = to_lower(s);
        let r = rs_is_match(&self.rs, folded.as_str());
        proof {
            if r {
                let i = choose|i: int|
                    0 <= i < rs_patterns(self.rs).len() && rx_matches(
                        rs_patterns(self.rs)[i],
                        folded@,
                    );
                assert(is_substring(lower_of(self.words@[i]), lower_of(s@)));
            }
            if deny_match(self.words@, s@) {
                let i = choose|i: int|
                    0 <= i < self.words@.len() && is_substring(lower_of(self.words@[i]), lower_of(s@));
                assert(rx_matches(rs_patterns(self.rs)[i], folded@));
            }
        }
        r
    }

    fn scan_str(&self, txt: &str) -> (r: bool) {
        self.is_match(txt)
    }
}

impl DenyListRs {
    /// Scans the values of one flat mapping; keys are never matched, and
    /// values that are not strings are silently skipped.
    pub fn scan(&self, args: &Vec<(String, Value)>) -> (r: bool)
        ensures
            r == crate::value::mapping_has_match(self@, args@),
    {
        crate::scan_any::scan(self, args)
    }

    /// Scans any dynamic value depth-first, applying `is_match` to every
    /// string leaf; keys of a mapping are never matched.
    pub fn scan_any(&self, value: &Value) -> (r: bool)
        ensures
            r == crate::value::value_has_match(self@, *value),
    {
        crate::scan_any::scan_any(self, value)
    }

    /// Scans a MessagePack buffer for deny words, matching string tokens in
    /// value position; malformed input resolves to "no match".
    pub fn scan_msgpack(&self, value: &[u8]) -> (r: bool)
        ensures
            r == crate::msgpack::msgpack_match(self@, value@),
    {
        crate::msgpack::scan_msgpack(self, value)
    }
}

} // verus!
