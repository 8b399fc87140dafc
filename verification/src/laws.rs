//! Properties of the decoding model that hold for every input, stated and
//! proved once so callers need not rederive them from the definitions.
use vstd::prelude::*;

use crate::consts::WASM_FUNC_SECTION_OPCODE_END;
use crate::consts::WASM_FUNC_SECTION_OPCODE_THEN;
use crate::consts::spec_magic;
use crate::cursor::spec_read_u8;
use crate::cursor::spec_read_u32_le;
use crate::error::AwwasmError;
use crate::instructions::OperandsV;
use crate::instructions::WasmOpCode;
use crate::instructions::spec_opcode;
use crate::instructions::spec_parse_block_type;
use crate::instructions::spec_parse_instr_seq_else;
use crate::instructions::spec_parse_instruction;
use crate::instructions::spec_parse_u32_list;
use crate::module::spec_parse_preamble;
use crate::section::SectionV;
use crate::section::spec_parse_section;
use crate::section::spec_parse_section_header;
use crate::types::spec_parse_memory_params;
use crate::varint::spec_parse_leb_u32;

verus! {

/// Round-trip framing: whenever a section decodes, its declared byte
/// length equals the encoded size of the entry-count varint plus the
/// length of the opaque body, and the decode ends exactly at the end of
/// that body.  And whenever the header and the entry count decode but the
/// declared length cannot be honoured — the count field alone is longer
/// than the declared length, or the body would run past the buffer — the
/// decode fails with `SectionLengthMismatch`, never by truncating or
/// padding the body.
pub proof fn lemma_section_framing_round_trip(s: Seq<u8>, pos: int)
    ensures
        spec_parse_section(s, pos) matches Ok(sv) ==> ({
            &&& spec_parse_section_header(s, pos) matches Ok(hp)
            &&& spec_parse_leb_u32(s, hp.1) matches Ok(cp)
            &&& sv.0.section_header.section_size == (cp.1 - hp.1) + sv.0.section_body.len()
            &&& sv.1 == cp.1 + sv.0.section_body.len()
        }),
        (spec_parse_section_header(s, pos) matches Ok(hp) && spec_parse_leb_u32(s, hp.1) matches Ok(
            cp,
        ) && (cp.1 - hp.1 > hp.0.section_size || cp.1 + (hp.0.section_size - (cp.1 - hp.1))
            > s.len())) ==> spec_parse_section(s, pos) == Err::<(SectionV, int), AwwasmError>(
            AwwasmError::SectionLengthMismatch,
        ),
{
}

/// Preamble: a buffer whose four bytes at `pos` are the magic decodes for
/// any version value, which is read little-endian and kept as-is, so a
/// version other than 1 is structurally valid yet distinguishable from the
/// default; any other four bytes, or too short a buffer, fail with
/// `MalformedPreamble`.
pub proof fn lemma_preamble_magic_and_version(s: Seq<u8>, pos: int)
    ensures
        (0 <= pos && pos + 8 <= s.len() && s.subrange(pos, pos + 4) == spec_magic()) ==> ({
            &&& spec_parse_preamble(s, pos) matches Ok(pv)
            &&& pv.0.magic == spec_magic()
            &&& spec_read_u32_le(s, pos + 4) matches Some(vv) && pv.0.version == vv.0
            &&& pv.1 == pos + 8
        }),
        (0 <= pos && pos + 8 <= s.len() && s.subrange(pos, pos + 4) != spec_magic())
            ==> spec_parse_preamble(s, pos) == Err::<(crate::module::PreambleV, int), AwwasmError>(
            AwwasmError::MalformedPreamble,
        ),
        (pos < 0 || pos + 8 > s.len()) ==> spec_parse_preamble(s, pos) == Err::<
            (crate::module::PreambleV, int),
            AwwasmError,
        >(AwwasmError::MalformedPreamble),
{
    if 0 <= pos && pos + 8 <= s.len() {
        let m = s.subrange(pos, pos + 4);
        if m == spec_magic() {
            assert(s[pos] == m[0]);
            assert(s[pos + 1] == m[1]);
            assert(s[pos + 2] == m[2]);
            assert(s[pos + 3] == m[3]);
        } else {
            if s[pos] == spec_magic()[0] && s[pos + 1] == spec_magic()[1] && s[pos + 2]
                == spec_magic()[2] && s[pos + 3] == spec_magic()[3] {
                assert(m =~= spec_magic());
            }
        }
    }
}

/// Memory limits: a decode only ever succeeds with flags 0 or 1; flags 0
/// yields no maximum, flags 1 yields exactly the encoded maximum, and any
/// other flags value fails with `UnsupportedPayload` rather than guessing
/// a layout.
pub proof fn lemma_memory_limits_flags(s: Seq<u8>, pos: int)
    ensures
        spec_parse_memory_params(s, pos) matches Ok(mp) ==> ({
            &&& mp.0.flags == 0 || mp.0.flags == 1
            &&& (mp.0.flags == 0 <==> mp.0.max is None)
            &&& (mp.0.flags == 1 ==> ({
                &&& spec_parse_leb_u32(s, pos) matches Ok(fp)
                &&& spec_parse_leb_u32(s, fp.1) matches Ok(np)
                &&& spec_parse_leb_u32(s, np.1) matches Ok(xp)
                &&& mp.0.min == np.0
                &&& mp.0.max == Some(xp.0)
            }))
        }),
        (spec_parse_leb_u32(s, pos) matches Ok(fp) && fp.0 > 1) ==> spec_parse_memory_params(s, pos)
            == Err::<(crate::types::AwwasmMemoryParams, int), AwwasmError>(
            AwwasmError::UnsupportedPayload,
        ),
{
}

/// Every successfully decoded `then` region ends in exactly one sentinel
/// byte: the `else` marker or the `end` byte.
pub proof fn lemma_seq_else_terminator(s: Seq<u8>, pos: int)
    ensures
        spec_parse_instr_seq_else(s, pos) matches Ok(qv) ==> (qv.0.terminator == seq![
            WASM_FUNC_SECTION_OPCODE_END,
        ] || qv.0.terminator == seq![WASM_FUNC_SECTION_OPCODE_THEN]),
    decreases s.len() - pos,
{
    if 0 <= pos < s.len() {
        if s[pos] == WASM_FUNC_SECTION_OPCODE_END || s[pos] == WASM_FUNC_SECTION_OPCODE_THEN {
        } else {
            match spec_parse_instruction(s, pos) {
                Ok((i, p1)) => {
                    if pos < p1 <= s.len() {
                        lemma_seq_else_terminator(s, p1);
                    }
                },
                Err(_) => {},
            }
        }
    }
}

/// If/else: a decoded `if` carries an `else` body exactly when its `then`
/// region was closed by the `else` marker; a `then` region closed by `end`
/// leaves the `else` body absent.
pub proof fn lemma_if_else_sentinel(s: Seq<u8>, pos: int)
    ensures
        spec_parse_instruction(s, pos) matches Ok(iv) ==> (iv.0.operands matches OperandsV::If(io)
            ==> ({
            &&& (io.then_body.terminator == seq![WASM_FUNC_SECTION_OPCODE_THEN]
                <==> io.else_body is Some)
            &&& (io.then_body.terminator == seq![WASM_FUNC_SECTION_OPCODE_END]
                ==> io.else_body is None)
            &&& (io.then_body.terminator == seq![WASM_FUNC_SECTION_OPCODE_END]
                || io.then_body.terminator == seq![WASM_FUNC_SECTION_OPCODE_THEN])
        })),
{
    match spec_read_u8(s, pos) {
        Some((b, p1)) => {
            match spec_opcode(b) {
                Some(op) => {
                    if op == WasmOpCode::If {
                        match spec_parse_block_type(s, p1) {
                            Ok((bt, p2)) => {
                                lemma_seq_else_terminator(s, p2);
                                match spec_parse_instr_seq_else(s, p2) {
                                    Ok((tb, p3)) => {
                                        assert(seq![WASM_FUNC_SECTION_OPCODE_THEN].len() == 1);
                                        assert(seq![WASM_FUNC_SECTION_OPCODE_END][0]
                                            == WASM_FUNC_SECTION_OPCODE_END);
                                        assert(seq![WASM_FUNC_SECTION_OPCODE_THEN][0]
                                            == WASM_FUNC_SECTION_OPCODE_THEN);
                                    },
                                    Err(_) => {},
                                }
                            },
                            Err(_) => {},
                        }
                    }
                },
                None => {},
            }
        },
        None => {},
    }
}

/// A decoded varint list holds exactly as many values as were asked for.
pub proof fn lemma_u32_list_len(s: Seq<u8>, pos: int, n: u32)
    ensures
        spec_parse_u32_list(s, pos, n) matches Ok(lv) ==> lv.0.len() == n,
    decreases n,
{
    if n > 0 {
        match spec_parse_leb_u32(s, pos) {
            Ok((v, p1)) => {
                lemma_u32_list_len(s, p1, (n - 1) as u32);
            },
            Err(_) => {},
        }
    }
}

/// Branch table: a decoded branch table holds exactly `target_count`
/// targets, and the decode ends exactly after the table's varints plus one
/// more varint for the default target, whatever the target values are.
pub proof fn lemma_br_table_consumes_count(s: Seq<u8>, pos: int)
    ensures
        spec_parse_instruction(s, pos) matches Ok(iv) ==> (iv.0.operands matches
            OperandsV::BrTable(bt) ==> ({
            &&& bt.targets.len() == bt.target_count
            &&& spec_read_u8(s, pos) matches Some(bp)
            &&& spec_parse_leb_u32(s, bp.1) matches Ok(cp)
            &&& cp.0 == bt.target_count
            &&& spec_parse_u32_list(s, cp.1, cp.0) matches Ok(tp)
            &&& tp.0 == bt.targets
            &&& spec_parse_leb_u32(s, tp.1) matches Ok(dp)
            &&& dp.0 == bt.default
            &&& iv.1 == dp.1
        })),
{
    match spec_read_u8(s, pos) {
        Some((b, p1)) => {
            match spec_opcode(b) {
                Some(op) => {
                    if op == WasmOpCode::BrTable {
                        match spec_parse_leb_u32(s, p1) {
                            Ok((cnt, p2)) => {
                                lemma_u32_list_len(s, p2, cnt);
                            },
                            Err(_) => {},
                        }
                    }
                },
                None => {},
            }
        },
        None => {},
    }
}

} // verus!
