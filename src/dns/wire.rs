//! The wire format, stated as mathematical functions on byte sequences: what a
//! read at an offset yields, and what a write emits.
use vstd::prelude::*;
use vstd::utf8::{decode_utf8, valid_utf8};

use crate::dns::error::ErrorKind;

verus! {

/// The most compression pointers that one name may follow.
pub const MAX_POINTERS: u32 = 128;

/// The byte that separates the labels of a name.
pub const DOT: u8 = 0x2e;

/// The longest label that the wire format can carry.
pub const MAX_LABEL_LEN: usize = 63;

/// The offset of the first byte `c` at or after `i`, or the length of `b`.
pub open spec fn find_byte(b: Seq<u8>, i: int, c: u8) -> int
    decreases b.len() - i,
{
    if i >= b.len() {
        b.len() as int
    } else if b[i] == c {
        i
    } else {
        find_byte(b, i + 1, c)
    }
}

/// The big-endian 16-bit integer at `p`.
pub open spec fn be16(b: Seq<u8>, p: int) -> u16 {
    (b[p] as int * 256 + b[p + 1] as int) as u16
}

/// The big-endian 32-bit integer at `p`.
pub open spec fn be32(b: Seq<u8>, p: int) -> u32 {
    (((b[p] as int * 256 + b[p + 1] as int) * 256 + b[p + 2] as int) * 256 + b[p + 3] as int) as u32
}

/// The big-endian bytes of a 16-bit integer.
pub open spec fn u16_bytes(v: u16) -> Seq<u8> {
    seq![(v / 256) as u8, (v % 256) as u8]
}

/// The big-endian bytes of a 32-bit integer.
pub open spec fn u32_bytes(v: u32) -> Seq<u8> {
    seq![(v / 0x1000000) as u8, (v / 0x10000 % 256) as u8, (v / 256 % 256) as u8, (v % 256) as u8]
}

/// `label` followed by a dot and `rest`, or `label` alone when `rest` is empty.
pub open spec fn join_label(label: Seq<u8>, rest: Seq<u8>) -> Seq<u8> {
    if rest.len() == 0 {
        label
    } else {
        label + seq![DOT] + rest
    }
}

/// Decodes the domain name that starts at `pos`, following compression
/// pointers (offsets into the whole of `buf`) at most `fuel` times. On success,
/// the labels joined by dots, and the offset just past the name where it
/// starts (past the first pointer, if any).
pub open spec fn name_bytes_at(buf: Seq<u8>, pos: int, fuel: nat) -> Result<(Seq<u8>, int), ErrorKind>
    decreases fuel, buf.len() - pos,
{
    if pos < 0 || pos >= buf.len() {
        Err(ErrorKind::ShortBuffer)
    } else {
        let n = buf[pos];
        if n == 0 {
            Ok((seq![], pos + 1))
        } else if n >= 0xc0 {
            if pos + 2 > buf.len() {
                Err(ErrorKind::ShortBuffer)
            } else if fuel == 0 {
                Err(ErrorKind::MalformedName)
            } else {
                match name_bytes_at(buf, (n - 0xc0) * 256 + buf[pos + 1], (fuel - 1) as nat) {
                    Ok((b, _)) => Ok((b, pos + 2)),
                    Err(e) => Err(e),
                }
            }
        } else if n >= 0x40 {
            Err(ErrorKind::MalformedName)
        } else if pos + 1 + n > buf.len() {
            Err(ErrorKind::ShortBuffer)
        } else {
            match name_bytes_at(buf, pos + 1 + n, fuel) {
                Ok((rest, end)) => Ok((join_label(buf.subrange(pos + 1, pos + 1 + n), rest), end)),
                Err(e) => Err(e),
            }
        }
    }
}

/// The domain name at `pos` as characters, and the offset past it.
pub open spec fn name_at(buf: Seq<u8>, pos: int) -> Result<(Seq<char>, int), ErrorKind> {
    match name_bytes_at(buf, pos, MAX_POINTERS as nat) {
        Ok((b, end)) => if valid_utf8(b) {
            Ok((decode_utf8(b), end))
        } else {
            Err(ErrorKind::MalformedName)
        },
        Err(e) => Err(e),
    }
}

/// The length-prefixed character-string at `pos`, and the offset past it.
pub open spec fn string_at(buf: Seq<u8>, pos: int) -> Result<(Seq<char>, int), ErrorKind> {
    if pos < 0 || pos >= buf.len() {
        Err(ErrorKind::ShortBuffer)
    } else if pos + 1 + buf[pos] > buf.len() {
        Err(ErrorKind::ShortBuffer)
    } else if !valid_utf8(buf.subrange(pos + 1, pos + 1 + buf[pos])) {
        Err(ErrorKind::MalformedRecord)
    } else {
        Ok((decode_utf8(buf.subrange(pos + 1, pos + 1 + buf[pos])), pos + 1 + buf[pos]))
    }
}

/// The character-strings from `pos` up to a zero length octet or the end of
/// `buf`, and the offset where reading stopped.
pub open spec fn strings_at(buf: Seq<u8>, pos: int) -> Result<(Seq<Seq<char>>, int), ErrorKind>
    decreases buf.len() - pos,
{
    if pos < 0 || pos > buf.len() {
        Err(ErrorKind::ShortBuffer)
    } else if pos == buf.len() {
        Ok((seq![], pos))
    } else if buf[pos] == 0 {
        Ok((seq![], pos + 1))
    } else {
        match string_at(buf, pos) {
            Ok((s, next)) => match strings_at(buf, next) {
                Ok((rest, end)) => Ok((seq![s] + rest, end)),
                Err(e) => Err(e),
            },
            Err(e) => Err(e),
        }
    }
}

} // verus!
