//! The contract every matching backend satisfies. All higher-level scanning
//! is expressed in terms of this trait, so backends are interchangeable.

use crate::text::deny_match;
use vstd::prelude::*;

verus! {

/// A compiled, immutable deny list answering substring-existence queries.
///
/// `patterns()` is the word list the matcher was built from, before case
/// folding; every query folds both sides the same way, so the one matching
/// contract is `deny_match`.
pub trait Matcher {
    /// The deny words this matcher was compiled from, in their original case.
    spec fn patterns(&self) -> Seq<Seq<char>>;

    /// Decides whether any deny word occurs in `s`, case-insensitively, as a
    /// substring.
    fn is_match(&self, s: &str) -> (r: bool)
        ensures
            r == deny_match(self.patterns(), s@),
    ;

    /// Scans one flat string; same decision as `is_match`.
    fn scan_str(&self, txt: &str) -> (r: bool)
        ensures
            r == deny_match(self.patterns(), txt@),
    ;
}

} // verus!
