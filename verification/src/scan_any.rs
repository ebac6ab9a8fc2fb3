//! The shared scanning logic, written once against the `Matcher` contract:
//! a walk over one flat mapping, and the recursive walk over any dynamic
//! value.

use crate::matcher::Matcher;
use crate::value::{entries_has_match_from, mapping_has_match, seq_has_match_from, value_has_match, Value};
use vstd::prelude::*;

verus! {

/// Scans the values of one flat mapping; keys are never matched, and values
/// that are not strings are silently skipped. Short-circuits on the first
/// match.
pub fn scan<M: Matcher>(matcher: &M, args: &Vec<(String, Value)>) -> (r: bool)
    ensures
        r == mapping_has_match(matcher.patterns(), args@),
{
    let n = args.len();
    for k in 0..n
        invariant
            n == args@.len(),
            forall|j: int|
                0 <= j < k ==> !((#[trigger] args@[j]).1 is Str && crate::text::deny_match(
                    matcher.patterns(),
                    args@[j].1->Str_0@,
                )),
    {
        if let Value::Str(s) = &args[k].1 {
            if matcher.is_match(s.as_str()) {
                return true;
            }
        }
    }
    false
}

/// The recursive engine: a depth-first walk over any dynamic value, applying
/// the matcher to every string leaf (and to the values, never the keys, of a
/// mapping). Short-circuits on the first match.
pub fn scan_any<M: Matcher>(matcher: &M, value: &Value) -> (r: bool)
    ensures
        r == value_has_match(matcher.patterns(), *value),
    decreases *value,
{
    match value {
        Value::Str(s) => matcher.is_match(s.as_str()),
        Value::List(items) => {
            let n = items.len();
            for k in 0..n
                invariant
                    n == items@.len(),
                    *value == Value::List(*items),
                    seq_has_match_from(matcher.patterns(), items@, 0) == seq_has_match_from(
                        matcher.patterns(),
                        items@,
                        k as int,
                    ),
            {
                proof {
                    assert(decreases_to!(*value => value->List_0));
                    assert(decreases_to!(items@ => items@[k as int]));
                }
                if scan_any(matcher, &items[k]) {
                    return true;
                }
            }
            false
        },
        Value::Dict(entries) => {
            let n = entries.len();
            for k in 0..n
                invariant
                    n == entries@.len(),
                    *value == Value::Dict(*entries),
                    entries_has_match_from(matcher.patterns(), entries@, 0)
                        == entries_has_match_from(matcher.patterns(), entries@, k as int),
            {
                proof {
                    assert(decreases_to!(*value => value->Dict_0));
                    assert(decreases_to!(entries@ => entries@[k as int]));
                    assert(decreases_to!(entries@[k as int] => entries@[k as int].1));
                }
                if scan_any(matcher, &entries[k].1) {
                    return true;
                }
            }
            false
        },
        _ => false,
    }
}

} // verus!
