//! The one error of the engine: a pattern list that a backend refused to
//! compile.

use vstd::prelude::*;
use vstd::string::StringExecFns;

verus! {

/// Compiling a word list failed. Construction is the only fallible operation
/// of the engine; the carried text is the backend's own diagnostic.
#[derive(Debug)]
pub struct PatternCompileError {
    message: String,
}

impl PatternCompileError {
    /// The diagnostic text carried by this error.
    pub closed spec fn view(&self) -> Seq<char> {
        self.message@
    }

    /// The diagnostic text carried by this error.
    pub fn message(&self) -> (r: &str)
        ensures
            r@ == self@,
    {
        self.message.as_str()
    }
}

/// The full error text that wraps a backend's diagnostic.
pub open spec fn error_text(diagnostic: Seq<char>) -> Seq<char> {
    "Invalid patterns: "@ + diagnostic
}

/// Whether some text is an error text: the fixed prefix followed by some
/// backend diagnostic. Every constructor promises this of its `Err`.
pub open spec fn is_error_text(text: Seq<char>) -> bool {
    exists|diagnostic: Seq<char>| text == #[trigger] error_text(diagnostic)
}

/// Wraps a backend's diagnostic text in a `PatternCompileError`.
pub fn build_error(diagnostic: String) -> (r: PatternCompileError)
    ensures
        r@ == error_text(diagnostic@),
{
    PatternCompileError { message: String::from_str("Invalid patterns: ").concat(
        diagnostic.as_str(),
    ) }
}

} // verus!
