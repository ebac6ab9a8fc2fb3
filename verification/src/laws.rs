//! The engine's laws, stated once over the spec functions that every
//! contract speaks through.

use crate::deny_list::DenyList;
use crate::deny_list_daac::DenyListDaac;
use crate::deny_list_rs::DenyListRs;
use crate::msgpack::{be16, be32, msg_walk, msg_walk_list, msg_walk_pairs, msgpack_match, Walk};
use crate::text::deny_match;
use crate::value::{entries_has_match_from, seq_has_match_from, value_has_match, Value};
use vstd::prelude::*;

verus! {

/// Backends are interchangeable: matchers compiled from the same word list
/// answer every existence query alike. Each backend's `is_match` ensures its
/// answer equals `deny_match` of its word list and the text, so three answers
/// given for the same list and text are one answer.
pub proof fn lemma_backends_agree(
    dl: &DenyList,
    drs: &DenyListRs,
    ddaac: &DenyListDaac,
    text: Seq<char>,
    r1: bool,
    r2: bool,
    r3: bool,
)
    requires
        dl@ == drs@,
        drs@ == ddaac@,
        r1 == deny_match(dl@, text),
        r2 == deny_match(drs@, text),
        r3 == deny_match(ddaac@, text),
    ensures
        r1 == r2,
        r2 == r3,
{
}

/// An empty deny list matches no text, not even the empty one.
pub proof fn lemma_empty_words_text(text: Seq<char>)
    ensures
        !deny_match(Seq::<Seq<char>>::empty(), text),
{
}

/// An empty deny list matches nowhere in any dynamic value.
pub proof fn lemma_empty_words_value(v: Value)
    ensures
        !value_has_match(Seq::<Seq<char>>::empty(), v),
    decreases v, 0int, 0int,
{
    match v {
        Value::List(items) => {
            assert(decreases_to!(v => v->List_0));
            lemma_empty_words_seq(items@, 0);
        },
        Value::Dict(entries) => {
            assert(decreases_to!(v => v->Dict_0));
            lemma_empty_words_entries(entries@, 0);
        },
        _ => {},
    }
}

/// An empty deny list matches nowhere in any slice of a sequence of values.
proof fn lemma_empty_words_seq(items: Seq<Value>, k: int)
    ensures
        !seq_has_match_from(Seq::<Seq<char>>::empty(), items, k),
    decreases items, 1int, items.len() - k,
{
    if 0 <= k && k < items.len() {
        lemma_empty_words_value(items[k]);
        lemma_empty_words_seq(items, k + 1);
    }
}

/// An empty deny list matches nowhere in any slice of a sequence of entries.
proof fn lemma_empty_words_entries(entries: Seq<(String, Value)>, k: int)
    ensures
        !entries_has_match_from(Seq::<Seq<char>>::empty(), entries, k),
    decreases entries, 1int, entries.len() - k,
{
    if 0 <= k && k < entries.len() {
        lemma_empty_words_value(entries[k].1);
        lemma_empty_words_entries(entries, k + 1);
    }
}

/// An empty deny list matches nowhere in any MessagePack buffer.
pub proof fn lemma_empty_words_msgpack(data: Seq<u8>)
    ensures
        !msgpack_match(Seq::<Seq<char>>::empty(), data),
{
    lemma_empty_words_walk(data, 0, true);
}

/// The walk of one encoded value never finds a match under an empty deny
/// list.
proof fn lemma_empty_words_walk(data: Seq<u8>, pos: int, check: bool)
    requires
        0 <= pos <= data.len(),
    ensures
        !(msg_walk(Seq::<Seq<char>>::empty(), data, pos, check) is Found),
    decreases data.len() - pos, 0int, 0int,
{
    if pos < data.len() {
        let m = data[pos];
        if 0x80 <= m < 0x90 {
            lemma_empty_words_walk_pairs(data, pos + 1, (m - 0x80) as int, check);
        } else if 0x90 <= m < 0xa0 {
            lemma_empty_words_walk_list(data, pos + 1, (m - 0x90) as int, check);
        } else if m == 0xdc && pos + 3 <= data.len() {
            lemma_empty_words_walk_list(data, pos + 3, be16(data, pos + 1), check);
        } else if m == 0xdd && pos + 5 <= data.len() {
            lemma_empty_words_walk_list(data, pos + 5, be32(data, pos + 1), check);
        } else if m == 0xde && pos + 3 <= data.len() {
            lemma_empty_words_walk_pairs(data, pos + 3, be16(data, pos + 1), check);
        } else if m == 0xdf && pos + 5 <= data.len() {
            lemma_empty_words_walk_pairs(data, pos + 5, be32(data, pos + 1), check);
        }
    }
}

/// The walk of consecutive values never finds a match under an empty deny
/// list.
proof fn lemma_empty_words_walk_list(data: Seq<u8>, pos: int, n: int, check: bool)
    requires
        0 <= pos <= data.len(),
    ensures
        !(msg_walk_list(Seq::<Seq<char>>::empty(), data, pos, n, check) is Found),
    decreases data.len() - pos, 1int, n,
{
    if n > 0 {
        lemma_empty_words_walk(data, pos, check);
        let w = msg_walk(Seq::<Seq<char>>::empty(), data, pos, check);
        if w is Clean {
            let next = w->Clean_next;
            if pos < next <= data.len() {
                lemma_empty_words_walk_list(data, next, n - 1, check);
            }
        }
    }
}

/// The walk of consecutive key-value pairs never finds a match under an
/// empty deny list.
proof fn lemma_empty_words_walk_pairs(data: Seq<u8>, pos: int, n: int, check: bool)
    requires
        0 <= pos <= data.len(),
    ensures
        !(msg_walk_pairs(Seq::<Seq<char>>::empty(), data, pos, n, check) is Found),
    decreases data.len() - pos, 2int, n,
{
    if n > 0 {
        lemma_empty_words_walk(data, pos, false);
        let w = msg_walk(Seq::<Seq<char>>::empty(), data, pos, false);
        if w is Clean {
            let next = w->Clean_next;
            if pos < next <= data.len() {
                lemma_empty_words_walk(data, next, check);
                let w2 = msg_walk(Seq::<Seq<char>>::empty(), data, next, check);
                if w2 is Clean {
                    let next2 = w2->Clean_next;
                    if next < next2 <= data.len() {
                        lemma_empty_words_walk_pairs(data, next2, n - 1, check);
                    }
                }
            }
        }
    }
}

/// Scanning is idempotent: a matcher is immutable, and `is_match` pins its
/// answer to a function of the word list and the text alone, so repeated
/// calls on the same matcher and input agree.
pub proof fn lemma_is_match_idempotent(words: Seq<Seq<char>>, text: Seq<char>, r1: bool, r2: bool)
    requires
        r1 == deny_match(words, text),
        r2 == deny_match(words, text),
    ensures
        r1 == r2,
{
}

/// Recursive scanning is idempotent: `scan_any` pins its answer to a function
/// of the word list and the value alone.
pub proof fn lemma_scan_any_idempotent(words: Seq<Seq<char>>, v: Value, r1: bool, r2: bool)
    requires
        r1 == value_has_match(words, v),
        r2 == value_has_match(words, v),
    ensures
        r1 == r2,
{
}

/// Binary scanning is idempotent: `scan_msgpack` pins its answer to a
/// function of the word list and the bytes alone.
pub proof fn lemma_scan_msgpack_idempotent(
    words: Seq<Seq<char>>,
    data: Seq<u8>,
    r1: bool,
    r2: bool,
)
    requires
        r1 == msgpack_match(words, data),
        r2 == msgpack_match(words, data),
    ensures
        r1 == r2,
{
}

} // verus!
