//! Variable-length integer codec.
//!
//! Integers are encoded in groups of 7 bits, least significant group first;
//! the high bit of each byte says whether another byte follows.  Unsigned
//! decoding zero-extends, signed decoding sign-extends from the sign bit of
//! the final group.  A decode fails with `MalformedVarint` when the buffer
//! ends before a terminating byte (high bit clear) is found, when the
//! encoding uses more groups than the result width allows, or when the bits
//! of the final permitted group do not fit the result width.
use vstd::prelude::*;

use crate::error::AwwasmError;

verus! {

/// Model of unsigned 32-bit varint decoding, one 7-bit group per step.
/// `g` is the index of the group being read and `acc` holds the groups
/// already read.  The fifth group (`g == 4`) contributes only 4 bits, so its
/// upper bits must be clear.
pub open spec fn spec_leb_u32_rec(s: Seq<u8>, pos: int, g: u32, acc: u32) -> Result<
    (u32, int),
    AwwasmError,
>
    decreases 4 - g,
{
    if pos < 0 || pos >= s.len() {
        Err(AwwasmError::MalformedVarint)
    } else {
        let b = s[pos];
        if b & 0x80 == 0 {
            if g == 4 && b & 0x70 != 0 {
                Err(AwwasmError::MalformedVarint)
            } else {
                Ok((acc | (((b & 0x7f) as u32) << ((7 * g) as u32)), pos + 1))
            }
        } else if g >= 4 {
            Err(AwwasmError::MalformedVarint)
        } else {
            spec_leb_u32_rec(
                s,
                pos + 1,
                (g + 1) as u32,
                acc | (((b & 0x7f) as u32) << ((7 * g) as u32)),
            )
        }
    }
}

/// What decoding an unsigned 32-bit varint at `pos` yields: the value and
/// the position just past its final byte, or `MalformedVarint`.
pub open spec fn spec_parse_leb_u32(s: Seq<u8>, pos: int) -> Result<(u32, int), AwwasmError> {
    spec_leb_u32_rec(s, pos, 0, 0)
}

/// The signed 32-bit value whose two's-complement bit pattern is `v`.
pub open spec fn spec_bits_to_i32(v: u32) -> i32 {
    if v < 0x8000_0000 {
        v as i32
    } else {
        (v - 0x1_0000_0000) as i32
    }
}

/// The signed 64-bit value whose two's-complement bit pattern is `v`.
pub open spec fn spec_bits_to_i64(v: u64) -> i64 {
    if v < 0x8000_0000_0000_0000 {
        v as i64
    } else {
        (v - 0x1_0000_0000_0000_0000) as i64
    }
}

/// Model of signed 32-bit varint decoding.  A final group before the fifth
/// sign-extends from its bit 6; the fifth group (`g == 4`) contributes the
/// top 4 bits, and its remaining bits must replicate the sign bit.
pub open spec fn spec_leb_i32_rec(s: Seq<u8>, pos: int, g: u32, acc: u32) -> Result<
    (i32, int),
    AwwasmError,
>
    decreases 4 - g,
{
    if pos < 0 || pos >= s.len() {
        Err(AwwasmError::MalformedVarint)
    } else {
        let b = s[pos];
        if b & 0x80 == 0 {
            if g == 4 {
                let fill = if b & 0x08 != 0 {
                    0x70u8
                } else {
                    0x00u8
                };
                if b & 0x70 != fill {
                    Err(AwwasmError::MalformedVarint)
                } else {
                    Ok((spec_bits_to_i32(acc | (((b & 0x0f) as u32) << 28u32)), pos + 1))
                }
            } else {
                let v = acc | (((b & 0x7f) as u32) << ((7 * g) as u32));
                let ext = if b & 0x40 != 0 {
                    v | (u32::MAX << ((7 * g + 7) as u32))
                } else {
                    v
                };
                Ok((spec_bits_to_i32(ext), pos + 1))
            }
        } else if g >= 4 {
            Err(AwwasmError::MalformedVarint)
        } else {
            spec_leb_i32_rec(
                s,
                pos + 1,
                (g + 1) as u32,
                acc | (((b & 0x7f) as u32) << ((7 * g) as u32)),
            )
        }
    }
}

/// What decoding a signed 32-bit varint at `pos` yields.
pub open spec fn spec_parse_leb_i32(s: Seq<u8>, pos: int) -> Result<(i32, int), AwwasmError> {
    spec_leb_i32_rec(s, pos, 0, 0)
}

/// Model of signed 64-bit varint decoding.  The tenth group (`g == 9`)
/// contributes only the top bit, and its remaining bits must replicate it.
pub open spec fn spec_leb_i64_rec(s: Seq<u8>, pos: int, g: u32, acc: u64) -> Result<
    (i64, int),
    AwwasmError,
>
    decreases 9 - g,
{
    if pos < 0 || pos >= s.len() {
        Err(AwwasmError::MalformedVarint)
    } else {
        let b = s[pos];
        if b & 0x80 == 0 {
            if g == 9 {
                let fill = if b & 0x01 != 0 {
                    0x7eu8
                } else {
                    0x00u8
                };
                if b & 0x7e != fill {
                    Err(AwwasmError::MalformedVarint)
                } else {
                    Ok((spec_bits_to_i64(acc | (((b & 0x01) as u64) << 63u64)), pos + 1))
                }
            } else {
                let v = acc | (((b & 0x7f) as u64) << ((7 * g) as u64));
                let ext = if b & 0x40 != 0 {
                    v | (u64::MAX << ((7 * g + 7) as u64))
                } else {
                    v
                };
                Ok((spec_bits_to_i64(ext), pos + 1))
            }
        } else if g >= 9 {
            Err(AwwasmError::MalformedVarint)
        } else {
            spec_leb_i64_rec(
                s,
                pos + 1,
                (g + 1) as u32,
                acc | (((b & 0x7f) as u64) << ((7 * g) as u64)),
            )
        }
    }
}

/// What decoding a signed 64-bit varint at `pos` yields.
pub open spec fn spec_parse_leb_i64(s: Seq<u8>, pos: int) -> Result<(i64, int), AwwasmError> {
    spec_leb_i64_rec(s, pos, 0, 0)
}

fn leb_u32_rec(input: &[u8], pos: usize, g: u32, acc: u32) -> (r: Result<(u32, usize), AwwasmError>)
    requires
        g <= 4,
    ensures
        ({
            let sr = spec_leb_u32_rec(input@, pos as int, g, acc);
            match r {
                Ok((v, p)) => sr matches Ok(sv) && sv.0 == v && sv.1 == p as int && pos < p
                    <= input@.len(),
                Err(e) => sr matches Err(se) && se == e,
            }
        }),
    decreases 4 - g,
{
    if pos >= input.len() {
        return Err(AwwasmError::MalformedVarint);
    }
    let b = input[pos];
    if b & 0x80 == 0 {
        if g == 4 && b & 0x70 != 0 {
            Err(AwwasmError::MalformedVarint)
        } else {
            Ok((acc | (((b & 0x7f) as u32) << (7 * g)), pos + 1))
        }
    } else if g >= 4 {
        Err(AwwasmError::MalformedVarint)
    } else {
        leb_u32_rec(input, pos + 1, g + 1, acc | (((b & 0x7f) as u32) << (7 * g)))
    }
}

/// Decode an unsigned 32-bit varint from `input` starting at `pos`.
pub fn parse_leb_u32(input: &[u8], pos: usize) -> (r: Result<(u32, usize), AwwasmError>)
    ensures
        ({
            let sr = spec_parse_leb_u32(input@, pos as int);
            match r {
                Ok((v, p)) => sr matches Ok(sv) && sv.0 == v && sv.1 == p as int && pos < p
                    <= input@.len(),
                Err(e) => sr matches Err(se) && se == e,
            }
        }),
{
    leb_u32_rec(input, pos, 0, 0)
}

fn bits_to_i32(v: u32) -> (r: i32)
    ensures
        r == spec_bits_to_i32(v),
{
    if v < 0x8000_0000 {
        v as i32
    } else {
        ((v as i64) - 0x1_0000_0000i64) as i32
    }
}

fn bits_to_i64(v: u64) -> (r: i64)
    ensures
        r == spec_bits_to_i64(v),
{
    if v < 0x8000_0000_0000_0000 {
        v as i64
    } else {
        ((v as i128) - 0x1_0000_0000_0000_0000i128) as i64
    }
}

fn leb_i32_rec(input: &[u8], pos: usize, g: u32, acc: u32) -> (r: Result<(i32, usize), AwwasmError>)
    requires
        g <= 4,
    ensures
        ({
            let sr = spec_leb_i32_rec(input@, pos as int, g, acc);
            match r {
                Ok((v, p)) => sr matches Ok(sv) && sv.0 == v && sv.1 == p as int && pos < p
                    <= input@.len(),
                Err(e) => sr matches Err(se) && se == e,
            }
        }),
    decreases 4 - g,
{
    if pos >= input.len() {
        return Err(AwwasmError::MalformedVarint);
    }
    let b = input[pos];
    if b & 0x80 == 0 {
        if g == 4 {
            let fill: u8 = if b & 0x08 != 0 {
                0x70
            } else {
                0x00
            };
            if b & 0x70 != fill {
                Err(AwwasmError::MalformedVarint)
            } else {
                Ok((bits_to_i32(acc | (((b & 0x0f) as u32) << 28u32)), pos + 1))
            }
        } else {
            let v = acc | (((b & 0x7f) as u32) << (7 * g));
            let ext = if b & 0x40 != 0 {
                v | (u32::MAX << (7 * g + 7))
            } else {
                v
            };
            Ok((bits_to_i32(ext), pos + 1))
        }
    } else if g >= 4 {
        Err(AwwasmError::MalformedVarint)
    } else {
        leb_i32_rec(input, pos + 1, g + 1, acc | (((b & 0x7f) as u32) << (7 * g)))
    }
}

/// Decode a signed 32-bit varint from `input` starting at `pos`.
pub fn parse_leb_i32(input: &[u8], pos: usize) -> (r: Result<(i32, usize), AwwasmError>)
    ensures
        ({
            let sr = spec_parse_leb_i32(input@, pos as int);
            match r {
                Ok((v, p)) => sr matches Ok(sv) && sv.0 == v && sv.1 == p as int && pos < p
                    <= input@.len(),
                Err(e) => sr matches Err(se) && se == e,
            }
        }),
{
    leb_i32_rec(input, pos, 0, 0)
}

fn leb_i64_rec(input: &[u8], pos: usize, g: u32, acc: u64) -> (r: Result<(i64, usize), AwwasmError>)
    requires
        g <= 9,
    ensures
        ({
            let sr = spec_leb_i64_rec(input@, pos as int, g, acc);
            match r {
                Ok((v, p)) => sr matches Ok(sv) && sv.0 == v && sv.1 == p as int && pos < p
                    <= input@.len(),
                Err(e) => sr matches Err(se) && se == e,
            }
        }),
    decreases 9 - g,
{
    if pos >= input.len() {
        return Err(AwwasmError::MalformedVarint);
    }
    let b = input[pos];
    if b & 0x80 == 0 {
        if g == 9 {
            let fill: u8 = if b & 0x01 != 0 {
                0x7e
            } else {
                0x00
            };
            if b & 0x7e != fill {
                Err(AwwasmError::MalformedVarint)
            } else {
                Ok((bits_to_i64(acc | (((b & 0x01) as u64) << 63u64)), pos + 1))
            }
        } else {
            let v = acc | (((b & 0x7f) as u64) << ((7 * g) as u64));
            let ext = if b & 0x40 != 0 {
                v | (u64::MAX << ((7 * g + 7) as u64))
            } else {
                v
            };
            Ok((bits_to_i64(ext), pos + 1))
        }
    } else if g >= 9 {
        Err(AwwasmError::MalformedVarint)
    } else {
        leb_i64_rec(input, pos + 1, g + 1, acc | (((b & 0x7f) as u64) << ((7 * g) as u64)))
    }
}

/// Decode a signed 64-bit varint from `input` starting at `pos`.
pub fn parse_leb_i64(input: &[u8], pos: usize) -> (r: Result<(i64, usize), AwwasmError>)
    ensures
        ({
            let sr = spec_parse_leb_i64(input@, pos as int);
            match r {
                Ok((v, p)) => sr matches Ok(sv) && sv.0 == v && sv.1 == p as int && pos < p
                    <= input@.len(),
                Err(e) => sr matches Err(se) && se == e,
            }
        }),
{
    leb_i64_rec(input, pos, 0, 0)
}

} // verus!
