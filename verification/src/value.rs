//! The dynamic value model: the tagged union of shapes the structural scanner
//! understands. A host-interop layer converts its native objects into this
//! model; the scanner never sees anything else.

use crate::text::deny_match;
use vstd::prelude::*;

verus! {

/// A tree-shaped dynamic value: a string, a sequence, a string-keyed mapping,
/// or a scalar that can never match. A float is carried as its IEEE-754 bits;
/// no scan ever reads them.
pub enum Value {
    Str(String),
    Int(i64),
    Float(u64),
    Bool(bool),
    Nil,
    List(Vec<Value>),
    Dict(Vec<(String, Value)>),
}

/// Whether a depth-first walk of `v` finds a string leaf containing a deny
/// word. Keys of a mapping are never matched, only its values; scalars other
/// than strings never match.
pub open spec fn value_has_match(words: Seq<Seq<char>>, v: Value) -> bool
    decreases v, 0int, 0int,
{
    match v {
        Value::Str(s) => deny_match(words, s@),
        Value::List(items) => seq_has_match_from(words, items@, 0),
        Value::Dict(entries) => entries_has_match_from(words, entries@, 0),
        _ => false,
    }
}

/// Whether some element of `items`, at position `k` or later, has a match
/// somewhere inside it.
pub open spec fn seq_has_match_from(words: Seq<Seq<char>>, items: Seq<Value>, k: int) -> bool
    decreases items, 1int, items.len() - k,
{
    if k < 0 || k >= items.len() {
        false
    } else {
        value_has_match(words, items[k]) || seq_has_match_from(words, items, k + 1)
    }
}

/// Whether some value (never a key) of `entries`, at position `k` or later,
/// has a match somewhere inside it.
pub open spec fn entries_has_match_from(
    words: Seq<Seq<char>>,
    entries: Seq<(String, Value)>,
    k: int,
) -> bool
    decreases entries, 1int, entries.len() - k,
{
    if k < 0 || k >= entries.len() {
        false
    } else {
        value_has_match(words, entries[k].1) || entries_has_match_from(words, entries, k + 1)
    }
}

/// Whether one flat mapping holds a string value containing a deny word.
/// Only values that are themselves strings are inspected; keys and all other
/// values are skipped.
pub open spec fn mapping_has_match(words: Seq<Seq<char>>, entries: Seq<(String, Value)>) -> bool {
    exists|i: int|
        0 <= i < entries.len() && (#[trigger] entries[i]).1 is Str && deny_match(
            words,
            entries[i].1->Str_0@,
        )
}

} // verus!
