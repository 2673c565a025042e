//! The boxes of an MP4 file on which the `mp4` reader panics or loops
//! forever, found by walking the file as the reader does.
//!
//! The reader walks the children of some boxes in a loop, trusting the
//! sizes it finds. Within such a loop a child with a 32-bit size of 0 sends
//! it back to the same header forever. A `data` box in an `ilst` item that
//! is shorter than its two fixed fields, and a top-level `emsg` box shorter
//! than its fields and strings, make its size arithmetic underflow. The
//! children of a `meta` box are not held to the box's size, and the reader
//! allocates a buffer of a child's size before it reads the child; a child
//! that runs past the end of the file is refused here, since its size may
//! then be anything up to 2^64, and one shorter than a header underflows
//! when it is read as data.
//!
//! Everything else, 64-bit sizes and a last top-level box of size 0 among
//! them, is left to the reader, which reads it or returns an error.
use vstd::prelude::*;

verus! {

/// The big-endian 32-bit number at `i`.
pub open spec fn be32(b: Seq<u8>, i: int) -> int {
    b[i] * 16777216 + b[i + 1] * 65536 + b[i + 2] * 256 + b[i + 3]
}

/// The big-endian 64-bit number at `i`.
pub open spec fn be64(b: Seq<u8>, i: int) -> int {
    be32(b, i) * 4294967296 + be32(b, i + 4)
}

/// The header of the box at `pos` as the reader reads it: the header's
/// length and the size it records. A 32-bit size of 1 announces a 64-bit
/// size, of which the reader records 8 less; a 64-bit size of 0 is kept as
/// 0. Nothing when the reader cannot read a header there, or refuses a
/// 64-bit size below 16.
pub open spec fn box_header(b: Seq<u8>, pos: int) -> Option<(int, int)> {
    if pos < 0 || pos + 8 > b.len() {
        None
    } else if be32(b, pos) != 1 {
        Some((8, be32(b, pos)))
    } else if pos + 16 > b.len() {
        None
    } else if be64(b, pos + 8) == 0 {
        Some((16, 0))
    } else if be64(b, pos + 8) < 16 {
        None
    } else {
        Some((16, be64(b, pos + 8) - 8))
    }
}

/// The places in which the reader walks boxes, one for each kind of box
/// whose children it reads in a loop.
pub open spec fn top() -> int {
    0
}

pub open spec fn in_moov() -> int {
    1
}

pub open spec fn in_trak() -> int {
    2
}

pub open spec fn in_mdia() -> int {
    3
}

pub open spec fn in_minf() -> int {
    4
}

pub open spec fn in_leaf_loop() -> int {
    5
}

pub open spec fn in_moof() -> int {
    6
}

pub open spec fn in_udta() -> int {
    7
}

pub open spec fn in_meta() -> int {
    8
}

pub open spec fn in_ilst() -> int {
    9
}

pub open spec fn in_item() -> int {
    10
}

/// No walk: the reader reads the box, if at all, without a loop over
/// children.
pub open spec fn no_walk() -> int {
    11
}

/// Where the reader walks the children of a box of type `t` met in place
/// `ctx`: `moov` and `moof` at the top; `meta`, `mvex`, `trak` and `udta`
/// in `moov`; `meta` and `mdia` in `trak`; `minf` in `mdia`; `dinf` and
/// `stbl` in `minf`; `traf` in `moof`; `meta` in `udta`; `ilst` in `meta`;
/// the items `©nam`, `©day`, `covr` and `desc` in `ilst`. `mvex`, `dinf`,
/// `stbl` and `traf` hold only boxes that the reader reads without a loop.
pub open spec fn child_place(ctx: int, t: int) -> int {
    if ctx == top() {
        if t == 0x6d6f6f76 {
            in_moov()
        } else if t == 0x6d6f6f66 {
            in_moof()
        } else {
            no_walk()
        }
    } else if ctx == in_moov() {
        if t == 0x6d657461 {
            in_meta()
        } else if t == 0x6d766578 {
            in_leaf_loop()
        } else if t == 0x7472616b {
            in_trak()
        } else if t == 0x75647461 {
            in_udta()
        } else {
            no_walk()
        }
    } else if ctx == in_trak() {
        if t == 0x6d657461 {
            in_meta()
        } else if t == 0x6d646961 {
            in_mdia()
        } else {
            no_walk()
        }
    } else if ctx == in_mdia() {
        if t == 0x6d696e66 {
            in_minf()
        } else {
            no_walk()
        }
    } else if ctx == in_minf() {
        if t == 0x64696e66 || t == 0x7374626c {
            in_leaf_loop()
        } else {
            no_walk()
        }
    } else if ctx == in_moof() {
        if t == 0x74726166 {
            in_leaf_loop()
        } else {
            no_walk()
        }
    } else if ctx == in_udta() {
        if t == 0x6d657461 {
            in_meta()
        } else {
            no_walk()
        }
    } else if ctx == in_meta() {
        if t == 0x696c7374 {
            in_ilst()
        } else {
            no_walk()
        }
    } else if ctx == in_ilst() {
        if t == 0xa96e616d || t == 0xa9646179 || t == 0x636f7672 || t == 0x64657363 {
            in_item()
        } else {
            no_walk()
        }
    } else {
        no_walk()
    }
}

/// The first zero byte in `b` from `i` on, if any.
pub open spec fn first_zero(b: Seq<u8>, i: int) -> Option<int>
    decreases b.len() - i,
{
    if i < 0 || i >= b.len() {
        None
    } else if b[i] == 0 {
        Some(i)
    } else {
        first_zero(b, i + 1)
    }
}

/// Where the reader stops reading an `emsg` box whose header ends at
/// `start + 8`, when it gets that far: two zero-terminated strings from
/// `strings`, then `tail` more bytes. Nothing when it meets the end of the
/// file first.
pub open spec fn emsg_end(b: Seq<u8>, strings: int, tail: int) -> Option<int> {
    match first_zero(b, strings) {
        None => None,
        Some(z1) => match first_zero(b, z1 + 1) {
            None => None,
            Some(z2) => if z2 + 1 + tail > b.len() {
                None
            } else {
                Some(z2 + 1 + tail)
            },
        },
    }
}

/// An `emsg` box whose header ends at `start + 8`, of recorded size `s`,
/// holds what the reader takes from it before it subtracts: version 0 has
/// the strings first and 16 bytes after them, version 1 has 20 bytes first
/// and the strings last. Other versions the reader refuses first.
pub open spec fn emsg_ok(b: Seq<u8>, start: int, s: int) -> bool {
    if start + 12 > b.len() {
        true
    } else if b[start + 8] == 0 {
        match emsg_end(b, start + 12, 16) {
            None => true,
            Some(e) => e - start <= s,
        }
    } else if b[start + 8] == 1 {
        if start + 32 > b.len() {
            true
        } else {
            match emsg_end(b, start + 32, 0) {
                None => true,
                Some(e) => e - start <= s,
            }
        }
    } else {
        true
    }
}

/// What a box of type `t` with recorded size `s`, its header ending at
/// `start + 8`, must hold in place `ctx`: a top-level `emsg` its fields and
/// strings; a `data` item 16 bytes; a child of `meta` a full header, and
/// it must end within the file.
pub open spec fn box_ok(b: Seq<u8>, ctx: int, t: int, start: int, s: int) -> bool {
    if ctx == top() && t == 0x656d7367 {
        emsg_ok(b, start, s)
    } else if ctx == in_item() && t == 0x64617461 {
        s >= 16
    } else if ctx == in_meta() {
        s >= 8 && start + s <= b.len()
    } else {
        true
    }
}

/// A measure that falls as the walk moves forward through the file.
pub open spec fn remaining(b: Seq<u8>, pos: int) -> int {
    if pos < b.len() {
        b.len() - pos
    } else {
        0
    }
}

/// Walking the children of the box whose header, `h` bytes long, stands at
/// `pos`, of recorded size `s`, in the place `place` that `child_place`
/// names, the reader neither panics nor loops forever. A `meta` box's
/// children start after its version and flags, or at its payload when the
/// first child is `hdlr`, and are not held to the box's size.
pub open spec fn children_ok(b: Seq<u8>, place: int, pos: int, h: int, s: int) -> bool
    decreases remaining(b, pos), 0int,
{
    let start = pos + h - 8;
    if pos < 0 || h < 8 || pos + h > b.len() {
        true
    } else if place == no_walk() {
        true
    } else if place == in_meta() {
        if start + 12 > b.len() {
            true
        } else if be32(b, start + 8) == 0 {
            walk_ok(b, start + 12, start + s, None, in_meta())
        } else if start + 16 > b.len() {
            true
        } else if be32(b, start + 12) == 0x68646c72 {
            walk_ok(b, start + 8, start + s, None, in_meta())
        } else {
            true
        }
    } else {
        walk_ok(b, start + 8, start + s, Some(s), place)
    }
}

/// Walking the boxes from `pos` to `end` in place `ctx`, each at most
/// `bound` long when there is a bound, the reader neither panics nor loops
/// forever. It stops when it cannot read a header, meets a box larger than
/// the bound, or, at the top, meets a box of size 0; elsewhere a box of
/// 32-bit size 0 makes it loop. It goes on after each box where the box's
/// recorded size puts it, and walks the children of the boxes that
/// `child_place` names.
pub open spec fn walk_ok(b: Seq<u8>, pos: int, end: int, bound: Option<int>, ctx: int) -> bool
    decreases remaining(b, pos), 1int,
{
    if pos >= end {
        true
    } else {
        match box_header(b, pos) {
            None => true,
            Some((h, s)) => {
                if bound matches Some(m) && s > m {
                    true
                } else if s == 0 && ctx == top() {
                    true
                } else if s == 0 && h == 8 {
                    false
                } else {
                    let start = pos + h - 8;
                    let t = be32(b, pos + 4);
                    box_ok(b, ctx, t, start, s) && children_ok(b, child_place(ctx, t), pos, h, s)
                        && walk_ok(b, start + s, end, bound, ctx)
                }
            },
        }
    }
}

/// The `mp4` reader, given the whole file, neither panics nor loops
/// forever on it.
pub open spec fn mp4_boxes_ok(b: Seq<u8>) -> bool {
    walk_ok(b, 0, b.len() as int, Some(b.len() as int), top())
}

/// An optional bound as an integer.
pub open spec fn opt_int(o: Option<u128>) -> Option<int> {
    match o {
        Some(m) => Some(m as int),
        None => None,
    }
}

/// The big-endian 32-bit number at `i`.
fn read_be32(b: &[u8], i: usize) -> (r: u32)
    requires
        i + 4 <= b@.len(),
    ensures
        r == be32(b@, i as int),
{
    (b[i] as u32) * 16777216 + (b[i + 1] as u32) * 65536 + (b[i + 2] as u32) * 256 + (b[i + 3] as u32)
}

/// The big-endian 64-bit number at `i`.
fn read_be64(b: &[u8], i: usize) -> (r: u64)
    requires
        i + 8 <= b@.len(),
    ensures
        r == be64(b@, i as int),
{
    let _n = b.len();
    (read_be32(b, i) as u64) * 4294967296 + (read_be32(b, i + 4) as u64)
}

/// The header of the box at `pos`, as the reader reads it.
fn read_header(b: &[u8], pos: u128) -> (r: Option<(u128, u128)>)
    requires
        pos <= b@.len() + u64::MAX,
    ensures
        match r {
            Some((h, s)) => box_header(b@, pos as int) == Some((h as int, s as int)) && (h == 8 || h == 16)
                && s <= u64::MAX && pos + h <= b@.len(),
            None => box_header(b@, pos as int) is None,
        },
{
    let len = b.len();
    if pos + 8 > len as u128 {
        return None;
    }
    let p = pos as usize;
    let size = read_be32(b, p);
    if size != 1 {
        return Some((8, size as u128));
    }
    if pos + 16 > len as u128 {
        return None;
    }
    let large = read_be64(b, p + 8);
    if large == 0 {
        Some((16, 0))
    } else if large < 16 {
        None
    } else {
        Some((16, (large - 8) as u128))
    }
}

/// Where the reader walks the children of a box of type `t` met in `ctx`.
fn place_of(ctx: u8, t: u32) -> (r: u8)
    ensures
        r == child_place(ctx as int, t as int),
        r <= 11,
{
    if ctx == 0 {
        if t == 0x6d6f6f76 {
            1
        } else if t == 0x6d6f6f66 {
            6
        } else {
            11
        }
    } else if ctx == 1 {
        if t == 0x6d657461 {
            8
        } else if t == 0x6d766578 {
            5
        } else if t == 0x7472616b {
            2
        } else if t == 0x75647461 {
            7
        } else {
            11
        }
    } else if ctx == 2 {
        if t == 0x6d657461 {
            8
        } else if t == 0x6d646961 {
            3
        } else {
            11
        }
    } else if ctx == 3 {
        if t == 0x6d696e66 {
            4
        } else {
            11
        }
    } else if ctx == 4 {
        if t == 0x64696e66 || t == 0x7374626c {
            5
        } else {
            11
        }
    } else if ctx == 6 {
        if t == 0x74726166 {
            5
        } else {
            11
        }
    } else if ctx == 7 {
        if t == 0x6d657461 {
            8
        } else {
            11
        }
    } else if ctx == 8 {
        if t == 0x696c7374 {
            9
        } else {
            11
        }
    } else if ctx == 9 {
        if t == 0xa96e616d || t == 0xa9646179 || t == 0x636f7672 || t == 0x64657363 {
            10
        } else {
            11
        }
    } else {
        11
    }
}

/// The first zero byte from `i` on.
fn find_zero(b: &[u8], i: u128) -> (r: Option<u128>)
    ensures
        match r {
            Some(k) => first_zero(b@, i as int) == Some(k as int) && i <= k < b@.len(),
            None => first_zero(b@, i as int) is None,
        },
{
    let len = b.len() as u128;
    let mut k = i;
    while k < len
        invariant
            i <= k,
            len == b@.len(),
            first_zero(b@, i as int) == first_zero(b@, k as int),
        decreases len - k,
    {
        if b[k as usize] == 0 {
            return Some(k);
        }
        k = k + 1;
    }
    None
}

/// Where the reader stops reading an `emsg` box's strings and `tail`.
fn find_emsg_end(b: &[u8], strings: u128, tail: u128) -> (r: Option<u128>)
    requires
        tail <= 16,
    ensures
        match r {
            Some(e) => emsg_end(b@, strings as int, tail as int) == Some(e as int) && strings < e,
            None => emsg_end(b@, strings as int, tail as int) is None,
        },
{
    let _n = b.len();
    match find_zero(b, strings) {
        None => None,
        Some(z1) => match find_zero(b, z1 + 1) {
            None => None,
            Some(z2) => if z2 + 1 + tail > b.len() as u128 {
                None
            } else {
                Some(z2 + 1 + tail)
            },
        },
    }
}

/// Whether an `emsg` box holds what the reader takes from it.
fn emsg_valid(b: &[u8], start: u128, s: u128) -> (r: bool)
    requires
        start <= b@.len() + 8,
    ensures
        r == emsg_ok(b@, start as int, s as int),
{
    let len = b.len() as u128;
    if start + 12 > len {
        return true;
    }
    let v = b[(start + 8) as usize];
    if v == 0 {
        match find_emsg_end(b, start + 12, 16) {
            None => true,
            Some(e) => e - start <= s,
        }
    } else if v == 1 {
        if start + 32 > len {
            return true;
        }
        match find_emsg_end(b, start + 32, 0) {
            None => true,
            Some(e) => e - start <= s,
        }
    } else {
        true
    }
}

/// Whether a box holds what the reader needs of it in place `ctx`.
fn box_valid(b: &[u8], ctx: u8, t: u32, start: u128, s: u128) -> (r: bool)
    requires
        start <= b@.len() + 8,
        s <= u64::MAX,
    ensures
        r == box_ok(b@, ctx as int, t as int, start as int, s as int),
{
    let n = b.len();
    if ctx == 0 && t == 0x656d7367 {
        emsg_valid(b, start, s)
    } else if ctx == 10 && t == 0x64617461 {
        s >= 16
    } else if ctx == 8 {
        s >= 8 && start + s <= n as u128
    } else {
        true
    }
}

/// Whether the reader, walking the children of the box whose header, `h`
/// bytes long, stands at `pos`, in place `place`, neither panics nor loops
/// forever.
fn children_valid(b: &[u8], place: u8, pos: u128, h: u128, s: u128) -> (r: bool)
    requires
        place <= 11,
        h == 8 || h == 16,
        pos + h <= b@.len(),
        s <= u64::MAX,
    ensures
        r == children_ok(b@, place as int, pos as int, h as int, s as int),
    decreases remaining(b@, pos as int), 0int,
{
    let n = b.len();
    let len = n as u128;
    let start = pos + h - 8;
    if place == 11 {
        true
    } else if place == 8 {
        if start + 12 > len {
            true
        } else if read_be32(b, (start + 8) as usize) == 0 {
            walk_valid(b, start + 12, start + s, None, 8)
        } else if start + 16 > len {
            true
        } else if read_be32(b, (start + 12) as usize) == 0x68646c72 {
            walk_valid(b, start + 8, start + s, None, 8)
        } else {
            true
        }
    } else {
        walk_valid(b, start + 8, start + s, Some(s), place)
    }
}

/// Whether the reader, walking the boxes from `pos` to `end` in place
/// `ctx`, neither panics nor loops forever.
fn walk_valid(b: &[u8], pos: u128, end: u128, bound: Option<u128>, ctx: u8) -> (r: bool)
    requires
        ctx <= 11,
        pos <= b@.len() + u64::MAX,
        end <= b@.len() + u64::MAX,
    ensures
        r == walk_ok(b@, pos as int, end as int, opt_int(bound), ctx as int),
    decreases remaining(b@, pos as int), 1int,
{
    let n = b.len();
    let mut at = pos;
    while at < end
        invariant
            ctx <= 11,
            pos <= at,
            at <= b@.len() + u64::MAX,
            end <= b@.len() + u64::MAX,
            n == b@.len(),
            remaining(b@, at as int) <= remaining(b@, pos as int),
            walk_ok(b@, pos as int, end as int, opt_int(bound), ctx as int) == walk_ok(
                b@,
                at as int,
                end as int,
                opt_int(bound),
                ctx as int,
            ),
        decreases remaining(b@, at as int),
    {
        let (h, s) = match read_header(b, at) {
            None => {
                return true;
            },
            Some(hs) => hs,
        };
        if let Some(m) = bound {
            if s > m {
                return true;
            }
        }
        if s == 0 && ctx == 0 {
            return true;
        }
        if s == 0 && h == 8 {
            return false;
        }
        let start = at + h - 8;
        let t = read_be32(b, (at + 4) as usize);
        let place = place_of(ctx, t);
        if !box_valid(b, ctx, t, start, s) || !children_valid(b, place, at, h, s) {
            return false;
        }
        at = start + s;
    }
    true
}

/// Whether the `mp4` reader, given the whole file, neither panics nor
/// loops forever on it.
pub fn mp4_boxes_valid(bytes: &[u8]) -> (r: bool)
    ensures
        r == mp4_boxes_ok(bytes@),
{
    let len = bytes.len() as u128;
    walk_valid(bytes, 0, len, Some(len), 0)
}

} // verus!
