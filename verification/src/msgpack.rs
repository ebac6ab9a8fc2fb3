//! The binary scanner: a streaming MessagePack walker that applies a matcher
//! directly to decoded string tokens, without building an intermediate tree.
//!
//! The walk dispatches on the marker byte at the cursor: strings are decoded
//! in place and, in value position, matched; arrays and maps recurse over
//! their declared counts (keys of a map with matching disabled); every other
//! marker family is skipped structurally. It short-circuits on the first
//! match. Malformed input — a truncated buffer, the reserved marker, a length
//! that would read past the end, or a string that is not valid text — makes
//! the whole scan answer "no match".

use crate::matcher::Matcher;
use crate::text::deny_match;
use vstd::prelude::*;
use vstd::utf8::{decode_utf8, valid_utf8};

verus! {

/// The outcome of walking one encoded value at a given position: a match was
/// found; no match, and the value ends right before `next`; or the buffer is
/// malformed there.
pub enum Walk {
    Found,
    Clean { next: int },
    Bad,
}

/// The big-endian number held by two bytes.
pub open spec fn be16(data: Seq<u8>, i: int) -> int {
    data[i] * 256 + data[i + 1]
}

/// The big-endian number held by four bytes.
pub open spec fn be32(data: Seq<u8>, i: int) -> int {
    ((data[i] * 256 + data[i + 1]) * 256 + data[i + 2]) * 256 + data[i + 3]
}

/// Skipping a value that ends right before `end`: in bounds, done; otherwise
/// the buffer is malformed.
pub open spec fn msg_skip(data: Seq<u8>, end: int) -> Walk {
    if end <= data.len() {
        Walk::Clean { next: end }
    } else {
        Walk::Bad
    }
}

/// A string token at `pos`, with `header` bytes of marker and length prefix
/// and `len` bytes of payload: its text is matched only in value position
/// (`check`), and the cursor advances past it either way.
pub open spec fn msg_str(
    words: Seq<Seq<char>>,
    data: Seq<u8>,
    pos: int,
    header: int,
    len: int,
    check: bool,
) -> Walk {
    if pos + header + len <= data.len() {
        let payload = data.subrange(pos + header, pos + header + len);
        if valid_utf8(payload) {
            if check && deny_match(words, decode_utf8(payload)) {
                Walk::Found
            } else {
                Walk::Clean { next: pos + header + len }
            }
        } else {
            Walk::Bad
        }
    } else {
        Walk::Bad
    }
}

/// The walk of one encoded value starting at `pos`. `check` tells whether
/// string tokens here stand in value position and are to be matched.
pub open spec fn msg_walk(words: Seq<Seq<char>>, data: Seq<u8>, pos: int, check: bool) -> Walk
    decreases data.len() - pos, 0int, 0int,
    when 0 <= pos <= data.len()
{
    if pos == data.len() {
        Walk::Bad
    } else {
        let m = data[pos];
        if m < 0x80 {
            // positive fixint
            Walk::Clean { next: pos + 1 }
        } else if m < 0x90 {
            // fixmap
            msg_walk_pairs(words, data, pos + 1, (m - 0x80) as int, check)
        } else if m < 0xa0 {
            // fixarray
            msg_walk_list(words, data, pos + 1, (m - 0x90) as int, check)
        } else if m < 0xc0 {
            // fixstr
            msg_str(words, data, pos, 1, (m - 0xa0) as int, check)
        } else if m == 0xc0 || m == 0xc2 || m == 0xc3 {
            // nil, false, true
            Walk::Clean { next: pos + 1 }
        } else if m == 0xc1 {
            // the reserved marker
            Walk::Bad
        } else if m == 0xc4 {
            // bin 8
            if pos + 2 <= data.len() {
                msg_skip(data, pos + 2 + data[pos + 1])
            } else {
                Walk::Bad
            }
        } else if m == 0xc5 {
            // bin 16
            if pos + 3 <= data.len() {
                msg_skip(data, pos + 3 + be16(data, pos + 1))
            } else {
                Walk::Bad
            }
        } else if m == 0xc6 {
            // bin 32
            if pos + 5 <= data.len() {
                msg_skip(data, pos + 5 + be32(data, pos + 1))
            } else {
                Walk::Bad
            }
        } else if m == 0xc7 {
            // ext 8: length byte, then a type byte and the payload
            if pos + 2 <= data.len() {
                msg_skip(data, pos + 3 + data[pos + 1])
            } else {
                Walk::Bad
            }
        } else if m == 0xc8 {
            // ext 16
            if pos + 3 <= data.len() {
                msg_skip(data, pos + 4 + be16(data, pos + 1))
            } else {
                Walk::Bad
            }
        } else if m == 0xc9 {
            // ext 32
            if pos + 5 <= data.len() {
                msg_skip(data, pos + 6 + be32(data, pos + 1))
            } else {
                Walk::Bad
            }
        } else if m == 0xca {
            // float 32
            msg_skip(data, pos + 5)
        } else if m == 0xcb {
            // float 64
            msg_skip(data, pos + 9)
        } else if m == 0xcc {
            // uint 8
            msg_skip(data, pos + 2)
        } else if m == 0xcd {
            // uint 16
            msg_skip(data, pos + 3)
        } else if m == 0xce {
            // uint 32
            msg_skip(data, pos + 5)
        } else if m == 0xcf {
            // uint 64
            msg_skip(data, pos + 9)
        } else if m == 0xd0 {
            // int 8
            msg_skip(data, pos + 2)
        } else if m == 0xd1 {
            // int 16
            msg_skip(data, pos + 3)
        } else if m == 0xd2 {
            // int 32
            msg_skip(data, pos + 5)
        } else if m == 0xd3 {
            // int 64
            msg_skip(data, pos + 9)
        } else if m == 0xd4 {
            // fixext 1
            msg_skip(data, pos + 3)
        } else if m == 0xd5 {
            // fixext 2
            msg_skip(data, pos + 4)
        } else if m == 0xd6 {
            // fixext 4
            msg_skip(data, pos + 6)
        } else if m == 0xd7 {
            // fixext 8
            msg_skip(data, pos + 10)
        } else if m == 0xd8 {
            // fixext 16
            msg_skip(data, pos + 18)
        } else if m == 0xd9 {
            // str 8
            if pos + 2 <= data.len() {
                msg_str(words, data, pos, 2, data[pos + 1] as int, check)
            } else {
                Walk::Bad
            }
        } else if m == 0xda {
            // str 16
            if pos + 3 <= data.len() {
                msg_str(words, data, pos, 3, be16(data, pos + 1), check)
            } else {
                Walk::Bad
            }
        } else if m == 0xdb {
            // str 32
            if pos + 5 <= data.len() {
                msg_str(words, data, pos, 5, be32(data, pos + 1), check)
            } else {
                Walk::Bad
            }
        } else if m == 0xdc {
            // array 16
            if pos + 3 <= data.len() {
                msg_walk_list(words, data, pos + 3, be16(data, pos + 1), check)
            } else {
                Walk::Bad
            }
        } else if m == 0xdd {
            // array 32
            if pos + 5 <= data.len() {
                msg_walk_list(words, data, pos + 5, be32(data, pos + 1), check)
            } else {
                Walk::Bad
            }
        } else if m == 0xde {
            // map 16
            if pos + 3 <= data.len() {
                msg_walk_pairs(words, data, pos + 3, be16(data, pos + 1), check)
            } else {
                Walk::Bad
            }
        } else if m == 0xdf {
            // map 32
            if pos + 5 <= data.len() {
                msg_walk_pairs(words, data, pos + 5, be32(data, pos + 1), check)
            } else {
                Walk::Bad
            }
        } else {
            // negative fixint
            Walk::Clean { next: pos + 1 }
        }
    }
}

/// The walk of `n` consecutive encoded values starting at `pos`, each
/// inheriting `check`; the elements of an array.
pub open spec fn msg_walk_list(
    words: Seq<Seq<char>>,
    data: Seq<u8>,
    pos: int,
    n: int,
    check: bool,
) -> Walk
    decreases data.len() - pos, 1int, n,
    when 0 <= pos <= data.len()
{
    if n <= 0 {
        Walk::Clean { next: pos }
    } else {
        match msg_walk(words, data, pos, check) {
            Walk::Found => Walk::Found,
            Walk::Bad => Walk::Bad,
            Walk::Clean { next } => if pos < next <= data.len() {
                msg_walk_list(words, data, next, n - 1, check)
            } else {
                Walk::Bad
            },
        }
    }
}

/// The walk of `n` consecutive key-value pairs starting at `pos`: each key
/// with matching disabled, each value inheriting `check`; the entries of a
/// map.
pub open spec fn msg_walk_pairs(
    words: Seq<Seq<char>>,
    data: Seq<u8>,
    pos: int,
    n: int,
    check: bool,
) -> Walk
    decreases data.len() - pos, 2int, n,
    when 0 <= pos <= data.len()
{
    if n <= 0 {
        Walk::Clean { next: pos }
    } else {
        match msg_walk(words, data, pos, false) {
            Walk::Found => Walk::Found,
            Walk::Bad => Walk::Bad,
            Walk::Clean { next } => if pos < next <= data.len() {
                match msg_walk(words, data, next, check) {
                    Walk::Found => Walk::Found,
                    Walk::Bad => Walk::Bad,
                    Walk::Clean { next: next2 } => if next < next2 <= data.len() {
                        msg_walk_pairs(words, data, next2, n - 1, check)
                    } else {
                        Walk::Bad
                    },
                }
            } else {
                Walk::Bad
            },
        }
    }
}

/// Whether a whole MessagePack buffer contains a deny word: the walk of the
/// one value encoded at its start finds a match. Anything malformed resolves
/// to "no match".
pub open spec fn msgpack_match(words: Seq<Seq<char>>, data: Seq<u8>) -> bool {
    msg_walk(words, data, 0, true) is Found
}

/// The exec-side outcome of walking one encoded value.
enum Step {
    Found,
    Clean(usize),
    Bad,
}

impl Step {
    spec fn as_walk(self) -> Walk {
        match self {
            Step::Found => Walk::Found,
            Step::Clean(next) => Walk::Clean { next: next as int },
            Step::Bad => Walk::Bad,
        }
    }
}

/// Reads the big-endian number held by two bytes.
fn read_be16(data: &[u8], i: usize) -> (r: usize)
    requires
        i + 2 <= data@.len(),
    ensures
        r as int == be16(data@, i as int),
{
    (data[i] as usize) * 256 + (data[i + 1] as usize)
}

/// Reads the big-endian number held by four bytes.
fn read_be32(data: &[u8], i: usize) -> (r: usize)
    requires
        i + 4 <= data@.len(),
    ensures
        r as int == be32(data@, i as int),
{
    (((data[i] as usize) * 256 + (data[i + 1] as usize)) * 256 + (data[i + 2] as usize)) * 256
        + (data[i + 3] as usize)
}

/// Skips a value whose `len` payload bytes start at `start`.
fn skip_to(data: &[u8], start: usize, len: usize) -> (r: Step)
    requires
        start <= data@.len(),
    ensures
        r.as_walk() == msg_skip(data@, start as int + len as int),
        r is Clean ==> r->Clean_0 as int == start as int + len as int && r->Clean_0 <= data@.len(),
{
    let n = data.len();
    if len <= n - start {
        Step::Clean(start + len)
    } else {
        Step::Bad
    }
}

/// Walks one string token of `header` bytes of marker and length prefix and
/// `len` payload bytes: decodes the text in place, matches it only in value
/// position, and advances past it either way.
fn walk_str<M: Matcher>(
    m: &M,
    data: &[u8],
    pos: usize,
    header: usize,
    len: usize,
    check: bool,
) -> (r: Step)
    requires
        pos < data@.len(),
        1 <= header,
    ensures
        r.as_walk() == msg_str(m.patterns(), data@, pos as int, header as int, len as int, check),
        r is Clean ==> pos < r->Clean_0 && r->Clean_0 <= data@.len(),
{
    let n = data.len();
    if header <= n - pos {
        let start = pos + header;
        if len <= n - start {
            let end = start + len;
            let payload = &data[start..end];
            match crate::text::utf8_to_str(payload) {
                Some(s) => {
                    if check && m.is_match(s) {
                        Step::Found
                    } else {
                        Step::Clean(end)
                    }
                },
                None => Step::Bad,
            }
        } else {
            Step::Bad
        }
    } else {
        Step::Bad
    }
}

/// Walks the one encoded value at `pos`, dispatching on its marker byte.
fn walk<M: Matcher>(m: &M, data: &[u8], pos: usize, check: bool) -> (r: Step)
    requires
        pos <= data@.len(),
    ensures
        r.as_walk() == msg_walk(m.patterns(), data@, pos as int, check),
        r is Clean ==> pos < r->Clean_0 && r->Clean_0 <= data@.len(),
    decreases data@.len() - pos, 0int, 0int,
{
    let n = data.len();
    if pos == n {
        return Step::Bad;
    }
    let mk = data[pos];
    if mk < 0x80 {
        Step::Clean(pos + 1)
    } else if mk < 0x90 {
        walk_pairs(m, data, pos + 1, (mk - 0x80) as usize, check)
    } else if mk < 0xa0 {
        walk_list(m, data, pos + 1, (mk - 0x90) as usize, check)
    } else if mk < 0xc0 {
        walk_str(m, data, pos, 1, (mk - 0xa0) as usize, check)
    } else if mk == 0xc0 || mk == 0xc2 || mk == 0xc3 {
        Step::Clean(pos + 1)
    } else if mk == 0xc1 {
        Step::Bad
    } else if mk == 0xc4 {
        if 2 <= n - pos {
            skip_to(data, pos + 2, data[pos + 1] as usize)
        } else {
            Step::Bad
        }
    } else if mk == 0xc5 {
        if 3 <= n - pos {
            skip_to(data, pos + 3, read_be16(data, pos + 1))
        } else {
            Step::Bad
        }
    } else if mk == 0xc6 {
        if 5 <= n - pos {
            skip_to(data, pos + 5, read_be32(data, pos + 1))
        } else {
            Step::Bad
        }
    } else if mk == 0xc7 {
        if 2 <= n - pos {
            skip_to(data, pos + 2, (data[pos + 1] as usize) + 1)
        } else {
            Step::Bad
        }
    } else if mk == 0xc8 {
        if 3 <= n - pos {
            skip_to(data, pos + 3, read_be16(data, pos + 1) + 1)
        } else {
            Step::Bad
        }
    } else if mk == 0xc9 {
        if 6 <= n - pos {
            skip_to(data, pos + 6, read_be32(data, pos + 1))
        } else {
            Step::Bad
        }
    } else if mk == 0xca {
        skip_to(data, pos, 5)
    } else if mk == 0xcb {
        skip_to(data, pos, 9)
    } else if mk == 0xcc {
        skip_to(data, pos, 2)
    } else if mk == 0xcd {
        skip_to(data, pos, 3)
    } else if mk == 0xce {
        skip_to(data, pos, 5)
    } else if mk == 0xcf {
        skip_to(data, pos, 9)
    } else if mk == 0xd0 {
        skip_to(data, pos, 2)
    } else if mk == 0xd1 {
        skip_to(data, pos, 3)
    } else if mk == 0xd2 {
        skip_to(data, pos, 5)
    } else if mk == 0xd3 {
        skip_to(data, pos, 9)
    } else if mk == 0xd4 {
        skip_to(data, pos, 3)
    } else if mk == 0xd5 {
        skip_to(data, pos, 4)
    } else if mk == 0xd6 {
        skip_to(data, pos, 6)
    } else if mk == 0xd7 {
        skip_to(data, pos, 10)
    } else if mk == 0xd8 {
        skip_to(data, pos, 18)
    } else if mk == 0xd9 {
        if 2 <= n - pos {
            walk_str(m, data, pos, 2, data[pos + 1] as usize, check)
        } else {
            Step::Bad
        }
    } else if mk == 0xda {
        if 3 <= n - pos {
            walk_str(m, data, pos, 3, read_be16(data, pos + 1), check)
        } else {
            Step::Bad
        }
    } else if mk == 0xdb {
        if 5 <= n - pos {
            walk_str(m, data, pos, 5, read_be32(data, pos + 1), check)
        } else {
            Step::Bad
        }
    } else if mk == 0xdc {
        if 3 <= n - pos {
            walk_list(m, data, pos + 3, read_be16(data, pos + 1), check)
        } else {
            Step::Bad
        }
    } else if mk == 0xdd {
        if 5 <= n - pos {
            walk_list(m, data, pos + 5, read_be32(data, pos + 1), check)
        } else {
            Step::Bad
        }
    } else if mk == 0xde {
        if 3 <= n - pos {
            walk_pairs(m, data, pos + 3, read_be16(data, pos + 1), check)
        } else {
            Step::Bad
        }
    } else if mk == 0xdf {
        if 5 <= n - pos {
            walk_pairs(m, data, pos + 5, read_be32(data, pos + 1), check)
        } else {
            Step::Bad
        }
    } else {
        Step::Clean(pos + 1)
    }
}

/// Walks `count` consecutive encoded values, each inheriting `check`.
fn walk_list<M: Matcher>(m: &M, data: &[u8], pos: usize, count: usize, check: bool) -> (r: Step)
    requires
        pos <= data@.len(),
    ensures
        r.as_walk() == msg_walk_list(m.patterns(), data@, pos as int, count as int, check),
        r is Clean ==> pos <= r->Clean_0 && r->Clean_0 <= data@.len(),
    decreases data@.len() - pos, 1int, count as int,
{
    let mut p = pos;
    let mut k: usize = 0;
    while k < count
        invariant
            pos <= p <= data@.len(),
            k <= count,
            msg_walk_list(m.patterns(), data@, pos as int, count as int, check) == msg_walk_list(
                m.patterns(),
                data@,
                p as int,
                count as int - k as int,
                check,
            ),
        decreases count - k,
    {
        match walk(m, data, p, check) {
            Step::Found => {
                return Step::Found;
            },
            Step::Bad => {
                return Step::Bad;
            },
            Step::Clean(next) => {
                p = next;
            },
        }
        k = k + 1;
    }
    Step::Clean(p)
}

/// Walks `count` consecutive key-value pairs: keys with matching disabled,
/// values inheriting `check`.
fn walk_pairs<M: Matcher>(m: &M, data: &[u8], pos: usize, count: usize, check: bool) -> (r: Step)
    requires
        pos <= data@.len(),
    ensures
        r.as_walk() == msg_walk_pairs(m.patterns(), data@, pos as int, count as int, check),
        r is Clean ==> pos <= r->Clean_0 && r->Clean_0 <= data@.len(),
    decreases data@.len() - pos, 2int, count as int,
{
    let mut p = pos;
    let mut k: usize = 0;
    while k < count
        invariant
            pos <= p <= data@.len(),
            k <= count,
            msg_walk_pairs(m.patterns(), data@, pos as int, count as int, check) == msg_walk_pairs(
                m.patterns(),
                data@,
                p as int,
                count as int - k as int,
                check,
            ),
        decreases count - k,
    {
        match walk(m, data, p, false) {
            Step::Found => {
                return Step::Found;
            },
            Step::Bad => {
                return Step::Bad;
            },
            Step::Clean(next) => {
                match walk(m, data, next, check) {
                    Step::Found => {
                        return Step::Found;
                    },
                    Step::Bad => {
                        return Step::Bad;
                    },
                    Step::Clean(next2) => {
                        p = next2;
                    },
                }
            },
        }
        k = k + 1;
    }
    Step::Clean(p)
}

/// Scans a whole MessagePack buffer for deny words, walking the one value
/// encoded at its start; anything malformed resolves to "no match".
pub fn scan_msgpack<M: Matcher>(m: &M, data: &[u8]) -> (r: bool)
    ensures
        r == msgpack_match(m.patterns(), data@),
{
    match walk(m, data, 0, true) {
        Step::Found => true,
        _ => false,
    }
}

} // verus!
