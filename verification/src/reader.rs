//! Line-oriented batch decoding. Each line of the stream is one
//! self-contained frame: a blank (whitespace-only) line is a
//! keep-alive; any other line must be an object carrying first the
//! cursor (itself an object starting with the partition and offset
//! tokens), then the event array, then any further broker metadata.
//! Nested content — the event array, extra cursor fields, metadata —
//! is validated structurally by a scanner that tracks nesting depth
//! and string escapes; the cursor tokens are taken as the raw bytes
//! between their quotes, so they round-trip into commit requests
//! exactly as the broker sent them. A line that does not decode is an
//! invalid-response error: the connection is re-established, and no
//! dropped-batch accounting happens.
//!
//! The member order is a deliberate restriction: the broker frames
//! every batch with the cursor first and the partition and offset as
//! the cursor's opening members, and the grammar here is written for
//! that framing rather than for arbitrary member permutations. A
//! reordered frame is treated like any other undecodable line — one
//! invalid-response reconnect, after which the broker redelivers from
//! the last committed cursor — so the cost of the restriction is
//! bounded and visible, never silent data loss.

use vstd::prelude::*;
use crate::cursor::{Batch, Cursor};
use crate::errors::{ClientError, ErrorKind};

verus! {

/// Whitespace on the wire: space, tab, carriage return, line feed.
pub open spec fn is_ws(b: u8) -> bool {
    b == 32 || b == 9 || b == 10 || b == 13
}

/// A keep-alive frame: nothing but whitespace.
pub open spec fn is_blank(s: Seq<u8>) -> bool {
    forall|i: int| 0 <= i < s.len() ==> is_ws(#[trigger] s[i])
}

/// The first position at or after `i` holding a non-whitespace byte,
/// or the end of the line.
pub open spec fn skip_ws(s: Seq<u8>, i: nat) -> nat
    decreases s.len() - i,
{
    if i >= s.len() {
        s.len()
    } else if is_ws(s[i as int]) {
        skip_ws(s, i + 1)
    } else {
        i
    }
}

/// Position just after the closing quote of a string whose content
/// starts at `i`, honouring backslash escapes; `esc` says whether the
/// previous byte was an unconsumed backslash.
pub open spec fn scan_string(s: Seq<u8>, i: nat, esc: bool) -> Option<nat>
    decreases s.len() - i,
{
    if i >= s.len() {
        None
    } else if esc {
        scan_string(s, i + 1, false)
    } else if s[i as int] == 92 {
        scan_string(s, i + 1, true)
    } else if s[i as int] == 34 {
        Some(i + 1)
    } else {
        scan_string(s, i + 1, false)
    }
}

/// End of a primitive token (number, boolean, null) starting at `i`:
/// the first delimiter, separator or whitespace byte.
pub open spec fn scan_prim(s: Seq<u8>, i: nat) -> nat
    decreases s.len() - i,
{
    if i >= s.len() {
        s.len()
    } else if is_ws(s[i as int]) || s[i as int] == 44 || s[i as int] == 125 || s[i as int] == 93
        || s[i as int] == 58 {
        i
    } else {
        scan_prim(s, i + 1)
    }
}

/// Structural scan of one value: walks forward byte by byte tracking
/// bracket depth and string state, and yields the position just after
/// the value that starts at the scan's origin. `None` means the value
/// never closes or no value starts there.
pub open spec fn scan_value(s: Seq<u8>, i: nat, depth: nat, in_str: bool, esc: bool) -> Option<nat>
    decreases s.len() - i,
{
    if i >= s.len() {
        None
    } else if in_str {
        if esc {
            scan_value(s, i + 1, depth, true, false)
        } else if s[i as int] == 92 {
            scan_value(s, i + 1, depth, true, true)
        } else if s[i as int] == 34 {
            if depth == 0 {
                Some(i + 1)
            } else {
                scan_value(s, i + 1, depth, false, false)
            }
        } else {
            scan_value(s, i + 1, depth, true, false)
        }
    } else {
        if s[i as int] == 34 {
            scan_value(s, i + 1, depth, true, false)
        } else if s[i as int] == 123 || s[i as int] == 91 {
            scan_value(s, i + 1, depth + 1, false, false)
        } else if s[i as int] == 125 || s[i as int] == 93 {
            if depth == 0 {
                None
            } else if depth == 1 {
                Some(i + 1)
            } else {
                scan_value(s, i + 1, (depth - 1) as nat, false, false)
            }
        } else if depth == 0 {
            if is_ws(s[i as int]) || s[i as int] == 44 || s[i as int] == 58 {
                None
            } else {
                Some(scan_prim(s, i + 1))
            }
        } else {
            scan_value(s, i + 1, depth, false, false)
        }
    }
}

/// Position just after the value starting at `i`.
pub open spec fn value_end(s: Seq<u8>, i: nat) -> Option<nat> {
    scan_value(s, i, 0, false, false)
}

/// The bytes of `lit` stand in `s` at position `i`.
pub open spec fn has_at(s: Seq<u8>, i: nat, lit: Seq<u8>) -> bool {
    i + lit.len() <= s.len() && s.subrange(i as int, (i + lit.len()) as int) == lit
}

/// `"cursor"`, quotes included.
pub open spec fn lit_cursor() -> Seq<u8> {
    seq![34u8, 99u8, 117u8, 114u8, 115u8, 111u8, 114u8, 34u8]
}

/// `"partition"`, quotes included.
pub open spec fn lit_partition() -> Seq<u8> {
    seq![34u8, 112u8, 97u8, 114u8, 116u8, 105u8, 116u8, 105u8, 111u8, 110u8, 34u8]
}

/// `"offset"`, quotes included.
pub open spec fn lit_offset() -> Seq<u8> {
    seq![34u8, 111u8, 102u8, 102u8, 115u8, 101u8, 116u8, 34u8]
}

/// `"events"`, quotes included.
pub open spec fn lit_events() -> Seq<u8> {
    seq![34u8, 101u8, 118u8, 101u8, 110u8, 116u8, 115u8, 34u8]
}

/// What a decoded batch frame carries: the two cursor tokens and the
/// raw bytes of the event array.
pub struct FrameParts {
    pub partition: Seq<u8>,
    pub offset: Seq<u8>,
    pub events: Seq<u8>,
}

/// The frame grammar: optional whitespace, then an object that scans
/// structurally to the end of the line, opening with the `cursor`
/// member — an object whose first two members are the `partition` and
/// `offset` string tokens — followed by the `events` array; anything
/// after the array inside the object (broker metadata) and anything
/// after the offset token inside the cursor object is tolerated and
/// covered by the structural scan.
pub open spec fn parse_frame(s: Seq<u8>) -> Option<FrameParts> {
    let i0 = skip_ws(s, 0);
    if i0 >= s.len() || s[i0 as int] != 123 {
        None
    } else {
        match value_end(s, i0) {
            None => None,
            Some(endv) => {
                if skip_ws(s, endv) != s.len() {
                    None
                } else {
                    let i1 = skip_ws(s, i0 + 1);
                    if !has_at(s, i1, lit_cursor()) {
                        None
                    } else {
                        let i2 = skip_ws(s, i1 + lit_cursor().len());
                        if i2 >= s.len() || s[i2 as int] != 58 {
                            None
                        } else {
                            let i3 = skip_ws(s, i2 + 1);
                            if i3 >= s.len() || s[i3 as int] != 123 {
                                None
                            } else {
                                parse_cursor_and_events(s, i3, endv)
                            }
                        }
                    }
                }
            },
        }
    }
}

/// The cursor object at `i3` and the event array after it, inside an
/// object that ends at `endv`.
pub open spec fn parse_cursor_and_events(s: Seq<u8>, i3: nat, endv: nat) -> Option<FrameParts> {
    match value_end(s, i3) {
        None => None,
        Some(cend) => {
            let j1 = skip_ws(s, i3 + 1);
            if !has_at(s, j1, lit_partition()) {
                None
            } else {
                let j2 = skip_ws(s, j1 + lit_partition().len());
                if j2 >= s.len() || s[j2 as int] != 58 {
                    None
                } else {
                    let j3 = skip_ws(s, j2 + 1);
                    if j3 >= s.len() || s[j3 as int] != 34 {
                        None
                    } else {
                        match scan_string(s, j3 + 1, false) {
                            None => None,
                            Some(j4) => {
                                let j5 = skip_ws(s, j4);
                                if j5 >= s.len() || s[j5 as int] != 44 {
                                    None
                                } else {
                                    let j6 = skip_ws(s, j5 + 1);
                                    if !has_at(s, j6, lit_offset()) {
                                        None
                                    } else {
                                        let j7 = skip_ws(s, j6 + lit_offset().len());
                                        if j7 >= s.len() || s[j7 as int] != 58 {
                                            None
                                        } else {
                                            let j8 = skip_ws(s, j7 + 1);
                                            if j8 >= s.len() || s[j8 as int] != 34 {
                                                None
                                            } else {
                                                match scan_string(s, j8 + 1, false) {
                                                    None => None,
                                                    Some(j9) => parse_events(
                                                        s,
                                                        s.subrange((j3 + 1) as int, j4 as int - 1),
                                                        s.subrange((j8 + 1) as int, j9 as int - 1),
                                                        cend,
                                                        endv,
                                                    ),
                                                }
                                            }
                                        }
                                    }
                                }
                            },
                        }
                    }
                }
            }
        },
    }
}

/// The `events` member after the cursor object ending at `cend`.
pub open spec fn parse_events(
    s: Seq<u8>,
    partition: Seq<u8>,
    offset: Seq<u8>,
    cend: nat,
    endv: nat,
) -> Option<FrameParts> {
    let k1 = skip_ws(s, cend);
    if k1 >= s.len() || s[k1 as int] != 44 {
        None
    } else {
        let k2 = skip_ws(s, k1 + 1);
        if !has_at(s, k2, lit_events()) {
            None
        } else {
            let k3 = skip_ws(s, k2 + lit_events().len());
            if k3 >= s.len() || s[k3 as int] != 58 {
                None
            } else {
                let k4 = skip_ws(s, k3 + 1);
                if k4 >= s.len() || s[k4 as int] != 91 {
                    None
                } else {
                    match value_end(s, k4) {
                        None => None,
                        Some(eend) => {
                            if eend > endv {
                                None
                            } else {
                                Some(
                                    FrameParts {
                                        partition,
                                        offset,
                                        events: s.subrange(k4 as int, eend as int),
                                    },
                                )
                            }
                        },
                    }
                }
            }
        }
    }
}

/// What one line of the stream decodes to.
pub enum DecodedLine {
    /// A blank line: the broker keeping the connection alive.
    KeepAlive,
    /// A batch frame.
    Frame(Batch),
}

/// Everything `skip_ws` promises about its result.
pub proof fn lemma_skip_ws(s: Seq<u8>, i: nat)
    ensures
        skip_ws(s, i) <= s.len(),
        i <= s.len() ==> i <= skip_ws(s, i),
        skip_ws(s, i) < s.len() ==> !is_ws(s[skip_ws(s, i) as int]),
        forall|j: int| i <= j < skip_ws(s, i) ==> is_ws(#[trigger] s[j]),
    decreases s.len() - i,
{
    if i < s.len() && is_ws(s[i as int]) {
        lemma_skip_ws(s, i + 1);
    }
}

/// Whitespace test on one byte.
fn ws_byte(b: u8) -> (r: bool)
    ensures
        r == is_ws(b),
{
    b == 32 || b == 9 || b == 10 || b == 13
}

/// First non-whitespace position at or after `from`.
fn skip_ws_from(line: &Vec<u8>, from: usize) -> (r: usize)
    requires
        from <= line@.len(),
    ensures
        r as nat == skip_ws(line@, from as nat),
        from <= r <= line@.len(),
{
    let n = line.len();
    let mut i = from;
    while i < n
        invariant_except_break
            from <= i <= n,
            n == line@.len(),
            skip_ws(line@, from as nat) == skip_ws(line@, i as nat),
        ensures
            from <= i <= n,
            n == line@.len(),
            skip_ws(line@, from as nat) == i as nat,
        decreases n - i,
    {
        if !ws_byte(line[i]) {
            break;
        }
        i += 1;
    }
    i
}

/// Exec twin of `scan_string` started with no pending escape.
fn string_end(line: &Vec<u8>, from: usize) -> (r: Option<usize>)
    requires
        from <= line@.len(),
    ensures
        match r {
            Some(j) => scan_string(line@, from as nat, false) == Some(j as nat) && from < j
                <= line@.len(),
            None => scan_string(line@, from as nat, false) is None,
        },
{
    let n = line.len();
    let mut i = from;
    let mut esc = false;
    let mut result: Option<usize> = None;
    while i < n
        invariant_except_break
            from <= i <= n,
            n == line@.len(),
            scan_string(line@, from as nat, false) == scan_string(line@, i as nat, esc),
            result is None,
        ensures
            n == line@.len(),
            match result {
                Some(j) => scan_string(line@, from as nat, false) == Some(j as nat) && from < j
                    <= line@.len(),
                None => scan_string(line@, from as nat, false) is None,
            },
        decreases n - i,
    {
        let b = line[i];
        if esc {
            esc = false;
            i += 1;
        } else if b == 92 {
            esc = true;
            i += 1;
        } else if b == 34 {
            result = Some(i + 1);
            break;
        } else {
            i += 1;
        }
    }
    result
}

/// Exec twin of `scan_prim`.
fn prim_end(line: &Vec<u8>, from: usize) -> (r: usize)
    requires
        from <= line@.len(),
    ensures
        r as nat == scan_prim(line@, from as nat),
        from <= r <= line@.len(),
{
    let n = line.len();
    let mut i = from;
    while i < n
        invariant_except_break
            from <= i <= n,
            n == line@.len(),
            scan_prim(line@, from as nat) == scan_prim(line@, i as nat),
        ensures
            from <= i <= n,
            n == line@.len(),
            scan_prim(line@, from as nat) == i as nat,
        decreases n - i,
    {
        let b = line[i];
        if ws_byte(b) || b == 44 || b == 125 || b == 93 || b == 58 {
            break;
        }
        i += 1;
    }
    i
}

/// Exec twin of `value_end`: the structural scanner.
fn value_end_from(line: &Vec<u8>, from: usize) -> (r: Option<usize>)
    requires
        from <= line@.len(),
    ensures
        match r {
            Some(j) => value_end(line@, from as nat) == Some(j as nat) && from < j <= line@.len(),
            None => value_end(line@, from as nat) is None,
        },
{
    let n = line.len();
    let mut i = from;
    let mut depth: usize = 0;
    let mut in_str = false;
    let mut esc = false;
    let mut result: Option<usize> = None;
    while i < n
        invariant_except_break
            from <= i <= n,
            n == line@.len(),
            depth <= i,
            !in_str ==> !esc,
            value_end(line@, from as nat) == scan_value(line@, i as nat, depth as nat, in_str, esc),
            result is None,
        ensures
            n == line@.len(),
            match result {
                Some(j) => value_end(line@, from as nat) == Some(j as nat) && from < j
                    <= line@.len(),
                None => value_end(line@, from as nat) is None,
            },
        decreases n - i,
    {
        let b = line[i];
        if in_str {
            if esc {
                esc = false;
                i += 1;
            } else if b == 92 {
                esc = true;
                i += 1;
            } else if b == 34 {
                if depth == 0 {
                    result = Some(i + 1);
                    break;
                } else {
                    in_str = false;
                    i += 1;
                }
            } else {
                i += 1;
            }
        } else {
            if b == 34 {
                in_str = true;
                i += 1;
            } else if b == 123 || b == 91 {
                depth += 1;
                i += 1;
            } else if b == 125 || b == 93 {
                if depth == 0 {
                    break;
                } else if depth == 1 {
                    result = Some(i + 1);
                    break;
                } else {
                    depth -= 1;
                    i += 1;
                }
            } else if depth == 0 {
                if ws_byte(b) || b == 44 || b == 58 {
                    break;
                } else {
                    let e = prim_end(line, i + 1);
                    result = Some(e);
                    break;
                }
            } else {
                i += 1;
            }
        }
    }
    result
}

/// Whether the bytes of `lit` stand in `line` at `at`.
fn match_at(line: &Vec<u8>, at: usize, lit: &Vec<u8>) -> (r: bool)
    ensures
        r == has_at(line@, at as nat, lit@),
{
    let n = line.len();
    let m = lit.len();
    if at > n || m > n - at {
        return false;
    }
    let mut k: usize = 0;
    while k < m
        invariant
            at + m <= n,
            k <= m,
            n == line@.len(),
            m == lit@.len(),
            forall|j: int| 0 <= j < k ==> line@[at + j] == lit@[j],
        decreases m - k,
    {
        if line[at + k] != lit[k] {
            proof {
                if has_at(line@, at as nat, lit@) {
                    assert(line@.subrange(at as int, (at + lit@.len()) as int)[k as int]
                        == line@[at + k]);
                }
            }
            return false;
        }
        k += 1;
    }
    proof {
        assert(line@.subrange(at as int, (at + lit@.len()) as int) =~= lit@);
    }
    true
}

/// A fresh copy of the bytes of `line` from `lo` up to `hi`.
fn copy_range(line: &Vec<u8>, lo: usize, hi: usize) -> (r: Vec<u8>)
    requires
        lo <= hi <= line@.len(),
    ensures
        r@ == line@.subrange(lo as int, hi as int),
{
    let mut r: Vec<u8> = Vec::new();
    let mut i = lo;
    while i < hi
        invariant
            lo <= i <= hi <= line@.len(),
            r@.len() == i - lo,
            forall|j: int| 0 <= j < r@.len() ==> r@[j] == line@[lo + j],
        decreases hi - i,
    {
        r.push(line[i]);
        i += 1;
    }
    proof {
        assert(r@ =~= line@.subrange(lo as int, hi as int));
    }
    r
}

/// The `"cursor"` key, quotes included, as wire bytes.
fn lit_cursor_vec() -> (v: Vec<u8>)
    ensures
        v@ == lit_cursor(),
{
    let mut v: Vec<u8> = Vec::new();
    v.push(34);
    v.push(99);
    v.push(117);
    v.push(114);
    v.push(115);
    v.push(111);
    v.push(114);
    v.push(34);
    proof {
        assert(v@ =~= lit_cursor());
    }
    v
}

/// The `"partition"` key, quotes included, as wire bytes.
fn lit_partition_vec() -> (v: Vec<u8>)
    ensures
        v@ == lit_partition(),
{
    let mut v: Vec<u8> = Vec::new();
    v.push(34);
    v.push(112);
    v.push(97);
    v.push(114);
    v.push(116);
    v.push(105);
    v.push(116);
    v.push(105);
    v.push(111);
    v.push(110);
    v.push(34);
    proof {
        assert(v@ =~= lit_partition());
    }
    v
}

/// The `"offset"` key, quotes included, as wire bytes.
fn lit_offset_vec() -> (v: Vec<u8>)
    ensures
        v@ == lit_offset(),
{
    let mut v: Vec<u8> = Vec::new();
    v.push(34);
    v.push(111);
    v.push(102);
    v.push(102);
    v.push(115);
    v.push(101);
    v.push(116);
    v.push(34);
    proof {
        assert(v@ =~= lit_offset());
    }
    v
}

/// The `"events"` key, quotes included, as wire bytes.
fn lit_events_vec() -> (v: Vec<u8>)
    ensures
        v@ == lit_events(),
{
    let mut v: Vec<u8> = Vec::new();
    v.push(34);
    v.push(101);
    v.push(118);
    v.push(101);
    v.push(110);
    v.push(116);
    v.push(115);
    v.push(34);
    proof {
        assert(v@ =~= lit_events());
    }
    v
}

/// The error every undecodable line is reported with.
fn invalid_error() -> (e: ClientError)
    ensures
        e.kind == ErrorKind::InvalidResponse,
{
    ClientError::new(
        ErrorKind::InvalidResponse,
        "the line does not decode into a cursor and an event array".to_string(),
    )
}

/// Decode one line of the stream: a blank line is a keep-alive, a
/// well-formed frame yields its batch, anything else is an
/// invalid-response error.
pub fn decode_line(line: &Vec<u8>) -> (r: Result<DecodedLine, ClientError>)
    ensures
        match r {
            Ok(DecodedLine::KeepAlive) => is_blank(line@),
            Ok(DecodedLine::Frame(b)) => !is_blank(line@) && parse_frame(line@) == Some(
                FrameParts {
                    partition: b.cursor.partition@,
                    offset: b.cursor.offset@,
                    events: b.events@,
                },
            ),
            Err(e) => !is_blank(line@) && parse_frame(line@) is None && e.kind
                == ErrorKind::InvalidResponse,
        },
        is_blank(line@) ==> r == Ok::<DecodedLine, ClientError>(DecodedLine::KeepAlive),
{
    let n = line.len();
    let i0 = skip_ws_from(line, 0);
    proof {
        lemma_skip_ws(line@, 0);
    }
    if i0 == n {
        return Ok(DecodedLine::KeepAlive);
    }
    proof {
        assert(!is_ws(line@[i0 as int]));
        assert(!is_blank(line@));
    }
    if line[i0] != 123 {
        return Err(invalid_error());
    }
    let endv = match value_end_from(line, i0) {
        None => {
            return Err(invalid_error());
        },
        Some(e) => e,
    };
    let tail = skip_ws_from(line, endv);
    if tail != n {
        return Err(invalid_error());
    }
    let i1 = skip_ws_from(line, i0 + 1);
    let litc = lit_cursor_vec();
    if !match_at(line, i1, &litc) {
        return Err(invalid_error());
    }
    let i2 = skip_ws_from(line, i1 + litc.len());
    if i2 == n || line[i2] != 58 {
        return Err(invalid_error());
    }
    let i3 = skip_ws_from(line, i2 + 1);
    if i3 == n || line[i3] != 123 {
        return Err(invalid_error());
    }
    let cend = match value_end_from(line, i3) {
        None => {
            return Err(invalid_error());
        },
        Some(c) => c,
    };
    let j1 = skip_ws_from(line, i3 + 1);
    let litp = lit_partition_vec();
    if !match_at(line, j1, &litp) {
        return Err(invalid_error());
    }
    let j2 = skip_ws_from(line, j1 + litp.len());
    if j2 == n || line[j2] != 58 {
        return Err(invalid_error());
    }
    let j3 = skip_ws_from(line, j2 + 1);
    if j3 == n || line[j3] != 34 {
        return Err(invalid_error());
    }
    let j4 = match string_end(line, j3 + 1) {
        None => {
            return Err(invalid_error());
        },
        Some(j) => j,
    };
    let part = copy_range(line, j3 + 1, j4 - 1);
    let j5 = skip_ws_from(line, j4);
    if j5 == n || line[j5] != 44 {
        return Err(invalid_error());
    }
    let j6 = skip_ws_from(line, j5 + 1);
    let lito = lit_offset_vec();
    if !match_at(line, j6, &lito) {
        return Err(invalid_error());
    }
    let j7 = skip_ws_from(line, j6 + lito.len());
    if j7 == n || line[j7] != 58 {
        return Err(invalid_error());
    }
    let j8 = skip_ws_from(line, j7 + 1);
    if j8 == n || line[j8] != 34 {
        return Err(invalid_error());
    }
    let j9 = match string_end(line, j8 + 1) {
        None => {
            return Err(invalid_error());
        },
        Some(j) => j,
    };
    let off = copy_range(line, j8 + 1, j9 - 1);
    let k1 = skip_ws_from(line, cend);
    if k1 == n || line[k1] != 44 {
        return Err(invalid_error());
    }
    let k2 = skip_ws_from(line, k1 + 1);
    let lite = lit_events_vec();
    if !match_at(line, k2, &lite) {
        return Err(invalid_error());
    }
    let k3 = skip_ws_from(line, k2 + lite.len());
    if k3 == n || line[k3] != 58 {
        return Err(invalid_error());
    }
    let k4 = skip_ws_from(line, k3 + 1);
    if k4 == n || line[k4] != 91 {
        return Err(invalid_error());
    }
    let eend = match value_end_from(line, k4) {
        None => {
            return Err(invalid_error());
        },
        Some(e) => e,
    };
    if eend > endv {
        return Err(invalid_error());
    }
    let events = copy_range(line, k4, eend);
    Ok(DecodedLine::Frame(Batch { cursor: Cursor { partition: part, offset: off }, events }))
}

} // verus!
