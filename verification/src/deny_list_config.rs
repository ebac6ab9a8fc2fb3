//! The configuration handed to the plugin facade: the deny word list.

use vstd::prelude::*;

verus! {

/// An ordered list of deny words, as the host supplies it.
pub struct DenyListConfig {
    pub words: Vec<String>,
}

impl DenyListConfig {
    /// Wraps a word list as a configuration.
    pub fn new(words: Vec<String>) -> (r: DenyListConfig)
        ensures
            r.words@ == words@,
    {
        DenyListConfig { words }
    }
}

} // verus!
