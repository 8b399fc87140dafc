//! Byte-cursor primitives: fixed-width reads, raw byte takes, and the scan
//! for the `end` sentinel.  Each primitive reports only presence; the caller
//! maps a missing read to the error of its own region.
use vstd::prelude::*;

use crate::consts::WASM_FUNC_SECTION_OPCODE_END;

verus! {

/// The byte at `pos`, if any.
pub open spec fn spec_read_u8(s: Seq<u8>, pos: int) -> Option<(u8, int)> {
    if pos < 0 || pos >= s.len() {
        None
    } else {
        Some((s[pos], pos + 1))
    }
}

/// Read one byte.
pub fn read_u8(input: &[u8], pos: usize) -> (r: Option<(u8, usize)>)
    ensures
        ({
            let sr = spec_read_u8(input@, pos as int);
            match r {
                Some((b, p)) => sr matches Some(sv) && sv.0 == b && sv.1 == p as int && pos < p
                    <= input@.len(),
                None => sr is None,
            }
        }),
{
    if pos >= input.len() {
        None
    } else {
        Some((input[pos], pos + 1))
    }
}

/// The little-endian 32-bit integer at `pos`, if 4 bytes remain.
pub open spec fn spec_read_u32_le(s: Seq<u8>, pos: int) -> Option<(u32, int)> {
    if pos < 0 || pos + 4 > s.len() {
        None
    } else {
        Some(
            (
                (s[pos] as u32) | ((s[pos + 1] as u32) << 8u32) | ((s[pos + 2] as u32) << 16u32) | (
                (s[pos + 3] as u32) << 24u32),
                pos + 4,
            ),
        )
    }
}

/// Read a little-endian 32-bit integer.
pub fn read_u32_le(input: &[u8], pos: usize) -> (r: Option<(u32, usize)>)
    ensures
        ({
            let sr = spec_read_u32_le(input@, pos as int);
            match r {
                Some((v, p)) => sr matches Some(sv) && sv.0 == v && sv.1 == p as int && pos < p
                    <= input@.len(),
                None => sr is None,
            }
        }),
{
    if input.len() < 4 || pos > input.len() - 4 {
        None
    } else {
        let v = (input[pos] as u32) | ((input[pos + 1] as u32) << 8u32) | ((input[pos
            + 2] as u32) << 16u32) | ((input[pos + 3] as u32) << 24u32);
        Some((v, pos + 4))
    }
}

/// The little-endian 64-bit integer at `pos`, if 8 bytes remain.
pub open spec fn spec_read_u64_le(s: Seq<u8>, pos: int) -> Option<(u64, int)> {
    if pos < 0 || pos + 8 > s.len() {
        None
    } else {
        Some(
            (
                (s[pos] as u64) | ((s[pos + 1] as u64) << 8u64) | ((s[pos + 2] as u64) << 16u64) | (
                (s[pos + 3] as u64) << 24u64) | ((s[pos + 4] as u64) << 32u64) | ((s[pos
                    + 5] as u64) << 40u64) | ((s[pos + 6] as u64) << 48u64) | ((s[pos
                    + 7] as u64) << 56u64),
                pos + 8,
            ),
        )
    }
}

/// Read a little-endian 64-bit integer.
pub fn read_u64_le(input: &[u8], pos: usize) -> (r: Option<(u64, usize)>)
    ensures
        ({
            let sr = spec_read_u64_le(input@, pos as int);
            match r {
                Some((v, p)) => sr matches Some(sv) && sv.0 == v && sv.1 == p as int && pos < p
                    <= input@.len(),
                None => sr is None,
            }
        }),
{
    if input.len() < 8 || pos > input.len() - 8 {
        None
    } else {
        let v = (input[pos] as u64) | ((input[pos + 1] as u64) << 8u64) | ((input[pos
            + 2] as u64) << 16u64) | ((input[pos + 3] as u64) << 24u64) | ((input[pos
            + 4] as u64) << 32u64) | ((input[pos + 5] as u64) << 40u64) | ((input[pos
            + 6] as u64) << 48u64) | ((input[pos + 7] as u64) << 56u64);
        Some((v, pos + 8))
    }
}

/// The `n` bytes starting at `pos`, if that many remain.
pub open spec fn spec_take(s: Seq<u8>, pos: int, n: int) -> Option<(Seq<u8>, int)> {
    if pos < 0 || n < 0 || pos + n > s.len() {
        None
    } else {
        Some((s.subrange(pos, pos + n), pos + n))
    }
}

/// Take `n` raw bytes as an owned vector.
pub fn take_bytes(input: &[u8], pos: usize, n: usize) -> (r: Option<(Vec<u8>, usize)>)
    ensures
        ({
            let sr = spec_take(input@, pos as int, n as int);
            match r {
                Some((v, p)) => sr matches Some(sv) && sv.0 == v@ && sv.1 == p as int && pos <= p
                    <= input@.len(),
                None => sr is None,
            }
        }),
{
    if pos > input.len() || n > input.len() - pos {
        None
    } else {
        let part = vstd::slice::slice_subrange(input, pos, pos + n);
        let v = vstd::slice::slice_to_vec(part);
        Some((v, pos + n))
    }
}

/// The index of the first `end` sentinel byte at or after `pos`, or the
/// length of the buffer if there is none.
pub open spec fn spec_scan_end(s: Seq<u8>, pos: int) -> int
    decreases s.len() - pos,
{
    if pos < 0 || pos >= s.len() {
        s.len() as int
    } else if s[pos] == WASM_FUNC_SECTION_OPCODE_END {
        pos
    } else {
        spec_scan_end(s, pos + 1)
    }
}

/// Find the first `end` sentinel byte at or after `pos`.
pub fn scan_end(input: &[u8], pos: usize) -> (r: usize)
    requires
        pos <= input@.len(),
    ensures
        r == spec_scan_end(input@, pos as int),
        pos <= r <= input@.len(),
{
    let mut i = pos;
    while i < input.len() && input[i] != WASM_FUNC_SECTION_OPCODE_END
        invariant
            pos <= i <= input@.len(),
            spec_scan_end(input@, pos as int) == spec_scan_end(input@, i as int),
        decreases input@.len() - i,
    {
        i = i + 1;
    }
    i
}

} // verus!
