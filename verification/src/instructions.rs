//! The instruction decoder.
//!
//! One opcode byte selects the operand shape.  Three shapes are recursive:
//! `block` and `loop` carry a nested instruction sequence closed by the
//! `end` sentinel, and `if` carries a `then` sequence closed by either the
//! `else` marker or `end`, with an `else` sequence following exactly when
//! the marker was the byte actually seen.  The sentinel bytes themselves
//! are not instructions: a sentinel byte where an opcode is expected fails
//! with `UnknownOpcode`.
use vstd::prelude::*;

use crate::consts::WASM_FUNC_SECTION_OPCODE_END;
use crate::consts::WASM_FUNC_SECTION_OPCODE_THEN;
use crate::consts::WASM_INSTRUCTION_MEMORY_ZERO;
use crate::cursor::read_u8;
use crate::cursor::read_u32_le;
use crate::cursor::read_u64_le;
use crate::cursor::spec_read_u8;
use crate::cursor::spec_read_u32_le;
use crate::cursor::spec_read_u64_le;
use crate::error::AwwasmError;
use crate::varint::parse_leb_i32;
use crate::varint::parse_leb_i64;
use crate::varint::parse_leb_u32;
use crate::varint::spec_parse_leb_i32;
use crate::varint::spec_parse_leb_i64;
use crate::varint::spec_parse_leb_u32;

verus! {

broadcast use vstd::std_specs::vec::axiom_vec_decreases_to_view, vstd::seq::axiom_seq_index_decreases, vstd::seq::axiom_seq_subrange_decreases;

/// The result type a structured control construct declares.
#[derive(Debug, Clone, Copy, PartialEq, Eq)]
pub enum BlockValueType {
    VOID,
    I32,
    I64,
    F32,
    F64,
}

/// The block result type a tag byte denotes, if any.
pub open spec fn spec_block_value_type(b: u8) -> Option<BlockValueType> {
    if b == 0x40 {
        Some(BlockValueType::VOID)
    } else if b == 0x7f {
        Some(BlockValueType::I32)
    } else if b == 0x7e {
        Some(BlockValueType::I64)
    } else if b == 0x7d {
        Some(BlockValueType::F32)
    } else if b == 0x7c {
        Some(BlockValueType::F64)
    } else {
        None
    }
}

/// The opcodes the decoder models.  `Else` and `End` name the sentinel
/// bytes; they never carry operands and are not decoded as instructions.
#[derive(Debug, Clone, Copy, PartialEq, Eq)]
pub enum WasmOpCode {
    Block,
    Loop,
    If,
    Else,
    End,
    Br,
    BrIf,
    BrTable,
    Return,
    Call,
    CallIndirect,
    LocalGet,
    LocalSet,
    LocalTee,
    GlobalGet,
    GlobalSet,
    I32Load,
    I64Load,
    I32Store,
    I64Store,
    MemorySize,
    MemoryGrow,
    I32Const,
    I64Const,
    F32Const,
    F64Const,
    I32Eqz,
    I32Eq,
    I32Ne,
    I32Add,
    I32Sub,
    I32Mul,
}

/// The opcode a byte denotes, if any.
pub open spec fn spec_opcode(b: u8) -> Option<WasmOpCode> {
    if b == 0x02 {
        Some(WasmOpCode::Block)
    } else if b == 0x03 {
        Some(WasmOpCode::Loop)
    } else if b == 0x04 {
        Some(WasmOpCode::If)
    } else if b == 0x05 {
        Some(WasmOpCode::Else)
    } else if b == 0x0b {
        Some(WasmOpCode::End)
    } else if b == 0x0c {
        Some(WasmOpCode::Br)
    } else if b == 0x0d {
        Some(WasmOpCode::BrIf)
    } else if b == 0x0e {
        Some(WasmOpCode::BrTable)
    } else if b == 0x0f {
        Some(WasmOpCode::Return)
    } else if b == 0x10 {
        Some(WasmOpCode::Call)
    } else if b == 0x11 {
        Some(WasmOpCode::CallIndirect)
    } else if b == 0x20 {
        Some(WasmOpCode::LocalGet)
    } else if b == 0x21 {
        Some(WasmOpCode::LocalSet)
    } else if b == 0x22 {
        Some(WasmOpCode::LocalTee)
    } else if b == 0x23 {
        Some(WasmOpCode::GlobalGet)
    } else if b == 0x24 {
        Some(WasmOpCode::GlobalSet)
    } else if b == 0x28 {
        Some(WasmOpCode::I32Load)
    } else if b == 0x29 {
        Some(WasmOpCode::I64Load)
    } else if b == 0x36 {
        Some(WasmOpCode::I32Store)
    } else if b == 0x37 {
        Some(WasmOpCode::I64Store)
    } else if b == 0x3f {
        Some(WasmOpCode::MemorySize)
    } else if b == 0x40 {
        Some(WasmOpCode::MemoryGrow)
    } else if b == 0x41 {
        Some(WasmOpCode::I32Const)
    } else if b == 0x42 {
        Some(WasmOpCode::I64Const)
    } else if b == 0x43 {
        Some(WasmOpCode::F32Const)
    } else if b == 0x44 {
        Some(WasmOpCode::F64Const)
    } else if b == 0x45 {
        Some(WasmOpCode::I32Eqz)
    } else if b == 0x46 {
        Some(WasmOpCode::I32Eq)
    } else if b == 0x47 {
        Some(WasmOpCode::I32Ne)
    } else if b == 0x6a {
        Some(WasmOpCode::I32Add)
    } else if b == 0x6b {
        Some(WasmOpCode::I32Sub)
    } else if b == 0x6c {
        Some(WasmOpCode::I32Mul)
    } else {
        None
    }
}

/// A branch target index.
#[derive(Debug, Clone, PartialEq, Eq)]
pub struct BrOperands {
    pub labelidx: u32,
}

/// A branch table: its declared target count, exactly that many targets,
/// and the default target.
#[derive(Debug, Clone, PartialEq, Eq)]
pub struct BrTableOperands {
    pub target_count: u32,
    pub targets: Vec<u32>,
    pub default: u32,
}

/// Model of a branch table.
#[verifier::ext_equal]
pub struct BrTableOperandsV {
    pub target_count: u32,
    pub targets: Seq<u32>,
    pub default: u32,
}

/// A local or global variable index.
#[derive(Debug, Clone, PartialEq, Eq)]
pub struct IndexOperands {
    pub index: u32,
}

/// A call target index.
#[derive(Debug, Clone, PartialEq, Eq)]
pub struct CallOperands {
    pub funcidx: u32,
}

/// An indirect call: a type index and a table index.
#[derive(Debug, Clone, PartialEq, Eq)]
pub struct CallIndirectOperands {
    pub typeidx: u32,
    pub tableidx: u32,
}

/// A memory access: alignment and offset immediates.
#[derive(Debug, Clone, PartialEq, Eq)]
pub struct MemArg {
    pub align: u32,
    pub offset: u32,
}

/// The reserved zero byte of `memory.size` and `memory.grow`.
#[derive(Debug, Clone, PartialEq, Eq)]
pub struct MemoryZeroOperands {
    pub reserved: Vec<u8>,
}

/// Model of the reserved byte of `memory.size` and `memory.grow`.
#[verifier::ext_equal]
pub struct MemoryZeroOperandsV {
    pub reserved: Seq<u8>,
}

/// A 32-bit integer constant.
#[derive(Debug, Clone, PartialEq, Eq)]
pub struct I32ConstOperands {
    pub value: i32,
}

/// A 64-bit integer constant.
#[derive(Debug, Clone, PartialEq, Eq)]
pub struct I64ConstOperands {
    pub value: i64,
}

/// A 32-bit float constant, held as its little-endian bit pattern so the
/// decoder stays free of floating point.
#[derive(Debug, Clone, PartialEq, Eq)]
pub struct F32ConstOperands {
    pub value: u32,
}

/// A 64-bit float constant, held as its little-endian bit pattern.
#[derive(Debug, Clone, PartialEq, Eq)]
pub struct F64ConstOperands {
    pub value: u64,
}

/// An instruction sequence together with the sentinel byte that closed
/// it.  The sentinel is consumed from the stream and recorded here, since
/// which sentinel ended a `then` region decides whether an `else` region
/// follows.
#[derive(Debug, PartialEq, Eq)]
pub struct AwwasmInstrSeq {
    pub instrs: Vec<AwwasmInstruction>,
    pub terminator: Vec<u8>,
}

/// Model of a terminated instruction sequence.
#[verifier::ext_equal]
pub struct InstrSeqV {
    pub instrs: Seq<InstrV>,
    pub terminator: Seq<u8>,
}

/// A `block`: its result type and its body, closed by the `end` sentinel.
#[derive(Debug, PartialEq, Eq)]
pub struct BlockOperands {
    pub block_type: BlockValueType,
    pub body: AwwasmInstrSeq,
}

/// A `loop`: its result type and its body, closed by the `end` sentinel.
#[derive(Debug, PartialEq, Eq)]
pub struct LoopOperands {
    pub block_type: BlockValueType,
    pub body: AwwasmInstrSeq,
}

/// An `if`: its result type, the `then` body together with the sentinel
/// byte that closed it, and the `else` body present exactly when that
/// sentinel was the `else` marker.
#[derive(Debug, PartialEq, Eq)]
pub struct IfOperands {
    pub block_type: BlockValueType,
    pub then_body: AwwasmInstrSeq,
    pub else_body: Option<AwwasmInstrSeq>,
}

/// One decoded instruction: its opcode and the operands that opcode
/// implies.
#[derive(Debug, PartialEq, Eq)]
pub struct AwwasmInstruction {
    pub opcode: WasmOpCode,
    pub operands: AwwasmOperands,
}

/// The operand shapes, one variant per modeled opcode.
#[derive(Debug, PartialEq, Eq)]
pub enum AwwasmOperands {
    Block(BlockOperands),
    Loop(LoopOperands),
    If(IfOperands),
    Br(BrOperands),
    BrIf(BrOperands),
    BrTable(BrTableOperands),
    Return,
    Call(CallOperands),
    CallIndirect(CallIndirectOperands),
    LocalGet(IndexOperands),
    LocalSet(IndexOperands),
    LocalTee(IndexOperands),
    GlobalGet(IndexOperands),
    GlobalSet(IndexOperands),
    I32Load(MemArg),
    I64Load(MemArg),
    I32Store(MemArg),
    I64Store(MemArg),
    MemorySize(MemoryZeroOperands),
    MemoryGrow(MemoryZeroOperands),
    I32Const(I32ConstOperands),
    I64Const(I64ConstOperands),
    F32Const(F32ConstOperands),
    F64Const(F64ConstOperands),
    I32Eqz,
    I32Eq,
    I32Ne,
    I32Add,
    I32Sub,
    I32Mul,
}

/// Model of a `block`'s operands.
#[verifier::ext_equal]
pub struct BlockOperandsV {
    pub block_type: BlockValueType,
    pub body: InstrSeqV,
}

/// Model of a `loop`'s operands.
#[verifier::ext_equal]
pub struct LoopOperandsV {
    pub block_type: BlockValueType,
    pub body: InstrSeqV,
}

/// Model of an `if`'s operands.
#[verifier::ext_equal]
pub struct IfOperandsV {
    pub block_type: BlockValueType,
    pub then_body: InstrSeqV,
    pub else_body: Option<InstrSeqV>,
}

/// Model of one decoded instruction.
#[verifier::ext_equal]
pub struct InstrV {
    pub opcode: WasmOpCode,
    pub operands: OperandsV,
}

/// Model of the operand shapes.
#[verifier::ext_equal]
pub enum OperandsV {
    Block(BlockOperandsV),
    Loop(LoopOperandsV),
    If(IfOperandsV),
    Br(BrOperands),
    BrIf(BrOperands),
    BrTable(BrTableOperandsV),
    Return,
    Call(CallOperands),
    CallIndirect(CallIndirectOperands),
    LocalGet(IndexOperands),
    LocalSet(IndexOperands),
    LocalTee(IndexOperands),
    GlobalGet(IndexOperands),
    GlobalSet(IndexOperands),
    I32Load(MemArg),
    I64Load(MemArg),
    I32Store(MemArg),
    I64Store(MemArg),
    MemorySize(MemoryZeroOperandsV),
    MemoryGrow(MemoryZeroOperandsV),
    I32Const(I32ConstOperands),
    I64Const(I64ConstOperands),
    F32Const(F32ConstOperands),
    F64Const(F64ConstOperands),
    I32Eqz,
    I32Eq,
    I32Ne,
    I32Add,
    I32Sub,
    I32Mul,
}

/// The model value of a sequence of decoded instructions.
pub open spec fn spec_instrs_view(v: Seq<AwwasmInstruction>) -> Seq<InstrV>
    decreases v,
{
    if v.len() == 0 {
        Seq::<InstrV>::empty()
    } else {
        seq![spec_instr_view(v[0])] + spec_instrs_view(v.subrange(1, v.len() as int))
    }
}


/// The model value of a terminated instruction sequence.
pub open spec fn spec_instr_seq_view(q: AwwasmInstrSeq) -> InstrSeqV
    decreases q,
{
    InstrSeqV { instrs: spec_instrs_view(q.instrs@), terminator: q.terminator@ }
}

/// The model value of one decoded instruction.
pub open spec fn spec_instr_view(i: AwwasmInstruction) -> InstrV
    decreases i,
{
    InstrV {
        opcode: i.opcode,
        operands: match i.operands {
            AwwasmOperands::Block(b) => OperandsV::Block(
                BlockOperandsV {
                    block_type: b.block_type,
                    body: spec_instr_seq_view(b.body),
                },
            ),
            AwwasmOperands::Loop(b) => OperandsV::Loop(
                LoopOperandsV {
                    block_type: b.block_type,
                    body: spec_instr_seq_view(b.body),
                },
            ),
            AwwasmOperands::If(b) => OperandsV::If(
                IfOperandsV {
                    block_type: b.block_type,
                    then_body: spec_instr_seq_view(b.then_body),
                    else_body: match b.else_body {
                        None => None,
                        Some(eb) => Some(spec_instr_seq_view(eb)),
                    },
                },
            ),
            AwwasmOperands::Br(o) => OperandsV::Br(o),
            AwwasmOperands::BrIf(o) => OperandsV::BrIf(o),
            AwwasmOperands::BrTable(o) => OperandsV::BrTable(
                BrTableOperandsV {
                    target_count: o.target_count,
                    targets: o.targets@,
                    default: o.default,
                },
            ),
            AwwasmOperands::Return => OperandsV::Return,
            AwwasmOperands::Call(o) => OperandsV::Call(o),
            AwwasmOperands::CallIndirect(o) => OperandsV::CallIndirect(o),
            AwwasmOperands::LocalGet(o) => OperandsV::LocalGet(o),
            AwwasmOperands::LocalSet(o) => OperandsV::LocalSet(o),
            AwwasmOperands::LocalTee(o) => OperandsV::LocalTee(o),
            AwwasmOperands::GlobalGet(o) => OperandsV::GlobalGet(o),
            AwwasmOperands::GlobalSet(o) => OperandsV::GlobalSet(o),
            AwwasmOperands::I32Load(o) => OperandsV::I32Load(o),
            AwwasmOperands::I64Load(o) => OperandsV::I64Load(o),
            AwwasmOperands::I32Store(o) => OperandsV::I32Store(o),
            AwwasmOperands::I64Store(o) => OperandsV::I64Store(o),
            AwwasmOperands::MemorySize(o) => OperandsV::MemorySize(
                MemoryZeroOperandsV { reserved: o.reserved@ },
            ),
            AwwasmOperands::MemoryGrow(o) => OperandsV::MemoryGrow(
                MemoryZeroOperandsV { reserved: o.reserved@ },
            ),
            AwwasmOperands::I32Const(o) => OperandsV::I32Const(o),
            AwwasmOperands::I64Const(o) => OperandsV::I64Const(o),
            AwwasmOperands::F32Const(o) => OperandsV::F32Const(o),
            AwwasmOperands::F64Const(o) => OperandsV::F64Const(o),
            AwwasmOperands::I32Eqz => OperandsV::I32Eqz,
            AwwasmOperands::I32Eq => OperandsV::I32Eq,
            AwwasmOperands::I32Ne => OperandsV::I32Ne,
            AwwasmOperands::I32Add => OperandsV::I32Add,
            AwwasmOperands::I32Sub => OperandsV::I32Sub,
            AwwasmOperands::I32Mul => OperandsV::I32Mul,
        },
    }
}

impl View for AwwasmInstruction {
    type V = InstrV;

    open spec fn view(&self) -> InstrV {
        spec_instr_view(*self)
    }
}

/// What decoding one block-result-type tag at `pos` yields.
pub open spec fn spec_parse_block_type(s: Seq<u8>, pos: int) -> Result<
    (BlockValueType, int),
    AwwasmError,
> {
    match spec_read_u8(s, pos) {
        None => Err(AwwasmError::SectionLengthMismatch),
        Some((b, p)) => match spec_block_value_type(b) {
            None => Err(AwwasmError::UnknownValueType),
            Some(t) => Ok((t, p)),
        },
    }
}

/// What decoding exactly `n` unsigned varints at `pos` yields.
pub open spec fn spec_parse_u32_list(s: Seq<u8>, pos: int, n: u32) -> Result<
    (Seq<u32>, int),
    AwwasmError,
>
    decreases n,
{
    if n == 0 {
        Ok((Seq::<u32>::empty(), pos))
    } else {
        match spec_parse_leb_u32(s, pos) {
            Err(e) => Err(e),
            Ok((v, p1)) => match spec_parse_u32_list(s, p1, (n - 1) as u32) {
                Err(e) => Err(e),
                Ok((rest, p2)) => Ok((seq![v] + rest, p2)),
            },
        }
    }
}

/// What decoding one instruction at `pos` yields: the opcode and the
/// operand shape that opcode alone selects.  A byte outside the opcode
/// table, or a bare sentinel byte, is `UnknownOpcode`.
pub open spec fn spec_parse_instruction(s: Seq<u8>, pos: int) -> Result<(InstrV, int), AwwasmError>
    decreases s.len() - pos, 0int,
{
    match spec_read_u8(s, pos) {
        None => Err(AwwasmError::SectionLengthMismatch),
        Some((b, p1)) => match spec_opcode(b) {
            None => Err(AwwasmError::UnknownOpcode),
            Some(op) => match op {
                WasmOpCode::Block => match spec_parse_block_type(s, p1) {
                    Err(e) => Err(e),
                    Ok((bt, p2)) => match spec_parse_instr_seq_end(s, p2) {
                        Err(e) => Err(e),
                        Ok((body, p3)) => Ok(
                            (
                                InstrV {
                                    opcode: op,
                                    operands: OperandsV::Block(
                                        BlockOperandsV { block_type: bt, body },
                                    ),
                                },
                                p3,
                            ),
                        ),
                    },
                },
                WasmOpCode::Loop => match spec_parse_block_type(s, p1) {
                    Err(e) => Err(e),
                    Ok((bt, p2)) => match spec_parse_instr_seq_end(s, p2) {
                        Err(e) => Err(e),
                        Ok((body, p3)) => Ok(
                            (
                                InstrV {
                                    opcode: op,
                                    operands: OperandsV::Loop(
                                        LoopOperandsV { block_type: bt, body },
                                    ),
                                },
                                p3,
                            ),
                        ),
                    },
                },
                WasmOpCode::If => match spec_parse_block_type(s, p1) {
                    Err(e) => Err(e),
                    Ok((bt, p2)) => match spec_parse_instr_seq_else(s, p2) {
                        Err(e) => Err(e),
                        Ok((then_body, p3)) => {
                            if then_body.terminator.len() > 0 && then_body.terminator[0]
                                == WASM_FUNC_SECTION_OPCODE_THEN {
                                if p3 <= p2 || p3 > s.len() {
                                    Err(AwwasmError::SectionLengthMismatch)
                                } else {
                                    match spec_parse_instr_seq_end(s, p3) {
                                        Err(e) => Err(e),
                                        Ok((else_body, p4)) => Ok(
                                            (
                                                InstrV {
                                                    opcode: op,
                                                    operands: OperandsV::If(
                                                        IfOperandsV {
                                                            block_type: bt,
                                                            then_body,
                                                            else_body: Some(else_body),
                                                        },
                                                    ),
                                                },
                                                p4,
                                            ),
                                        ),
                                    }
                                }
                            } else {
                                Ok(
                                    (
                                        InstrV {
                                            opcode: op,
                                            operands: OperandsV::If(
                                                IfOperandsV {
                                                    block_type: bt,
                                                    then_body,
                                                    else_body: None,
                                                },
                                            ),
                                        },
                                        p3,
                                    ),
                                )
                            }
                        },
                    },
                },
                WasmOpCode::Else => Err(AwwasmError::UnknownOpcode),
                WasmOpCode::End => Err(AwwasmError::UnknownOpcode),
                WasmOpCode::Br => match spec_parse_leb_u32(s, p1) {
                    Err(e) => Err(e),
                    Ok((idx, p2)) => Ok(
                        (
                            InstrV {
                                opcode: op,
                                operands: OperandsV::Br(BrOperands { labelidx: idx }),
                            },
                            p2,
                        ),
                    ),
                },
                WasmOpCode::BrIf => match spec_parse_leb_u32(s, p1) {
                    Err(e) => Err(e),
                    Ok((idx, p2)) => Ok(
                        (
                            InstrV {
                                opcode: op,
                                operands: OperandsV::BrIf(BrOperands { labelidx: idx }),
                            },
                            p2,
                        ),
                    ),
                },
                WasmOpCode::BrTable => match spec_parse_leb_u32(s, p1) {
                    Err(e) => Err(e),
                    Ok((cnt, p2)) => match spec_parse_u32_list(s, p2, cnt) {
                        Err(e) => Err(e),
                        Ok((ts, p3)) => match spec_parse_leb_u32(s, p3) {
                            Err(e) => Err(e),
                            Ok((d, p4)) => Ok(
                                (
                                    InstrV {
                                        opcode: op,
                                        operands: OperandsV::BrTable(
                                            BrTableOperandsV {
                                                target_count: cnt,
                                                targets: ts,
                                                default: d,
                                            },
                                        ),
                                    },
                                    p4,
                                ),
                            ),
                        },
                    },
                },
                WasmOpCode::Return => Ok(
                    (InstrV { opcode: op, operands: OperandsV::Return }, p1),
                ),
                WasmOpCode::Call => match spec_parse_leb_u32(s, p1) {
                    Err(e) => Err(e),
                    Ok((idx, p2)) => Ok(
                        (
                            InstrV {
                                opcode: op,
                                operands: OperandsV::Call(CallOperands { funcidx: idx }),
                            },
                            p2,
                        ),
                    ),
                },
                WasmOpCode::CallIndirect => match spec_parse_leb_u32(s, p1) {
                    Err(e) => Err(e),
                    Ok((ti, p2)) => match spec_parse_leb_u32(s, p2) {
                        Err(e) => Err(e),
                        Ok((tb, p3)) => Ok(
                            (
                                InstrV {
                                    opcode: op,
                                    operands: OperandsV::CallIndirect(
                                        CallIndirectOperands { typeidx: ti, tableidx: tb },
                                    ),
                                },
                                p3,
                            ),
                        ),
                    },
                },
                WasmOpCode::LocalGet => match spec_parse_leb_u32(s, p1) {
                    Err(e) => Err(e),
                    Ok((idx, p2)) => Ok(
                        (
                            InstrV {
                                opcode: op,
                                operands: OperandsV::LocalGet(IndexOperands { index: idx }),
                            },
                            p2,
                        ),
                    ),
                },
                WasmOpCode::LocalSet => match spec_parse_leb_u32(s, p1) {
                    Err(e) => Err(e),
                    Ok((idx, p2)) => Ok(
                        (
                            InstrV {
                                opcode: op,
                                operands: OperandsV::LocalSet(IndexOperands { index: idx }),
                            },
                            p2,
                        ),
                    ),
                },
                WasmOpCode::LocalTee => match spec_parse_leb_u32(s, p1) {
                    Err(e) => Err(e),
                    Ok((idx, p2)) => Ok(
                        (
                            InstrV {
                                opcode: op,
                                operands: OperandsV::LocalTee(IndexOperands { index: idx }),
                            },
                            p2,
                        ),
                    ),
                },
                WasmOpCode::GlobalGet => match spec_parse_leb_u32(s, p1) {
                    Err(e) => Err(e),
                    Ok((idx, p2)) => Ok(
                        (
                            InstrV {
                                opcode: op,
                                operands: OperandsV::GlobalGet(IndexOperands { index: idx }),
                            },
                            p2,
                        ),
                    ),
                },
                WasmOpCode::GlobalSet => match spec_parse_leb_u32(s, p1) {
                    Err(e) => Err(e),
                    Ok((idx, p2)) => Ok(
                        (
                            InstrV {
                                opcode: op,
                                operands: OperandsV::GlobalSet(IndexOperands { index: idx }),
                            },
                            p2,
                        ),
                    ),
                },
                WasmOpCode::I32Load => match spec_parse_memarg(s, p1) {
                    Err(e) => Err(e),
                    Ok((m, p2)) => Ok(
                        (InstrV { opcode: op, operands: OperandsV::I32Load(m) }, p2),
                    ),
                },
                WasmOpCode::I64Load => match spec_parse_memarg(s, p1) {
                    Err(e) => Err(e),
                    Ok((m, p2)) => Ok(
                        (InstrV { opcode: op, operands: OperandsV::I64Load(m) }, p2),
                    ),
                },
                WasmOpCode::I32Store => match spec_parse_memarg(s, p1) {
                    Err(e) => Err(e),
                    Ok((m, p2)) => Ok(
                        (InstrV { opcode: op, operands: OperandsV::I32Store(m) }, p2),
                    ),
                },
                WasmOpCode::I64Store => match spec_parse_memarg(s, p1) {
                    Err(e) => Err(e),
                    Ok((m, p2)) => Ok(
                        (InstrV { opcode: op, operands: OperandsV::I64Store(m) }, p2),
                    ),
                },
                WasmOpCode::MemorySize => match spec_read_u8(s, p1) {
                    None => Err(AwwasmError::SectionLengthMismatch),
                    Some((z, p2)) => {
                        if z != WASM_INSTRUCTION_MEMORY_ZERO {
                            Err(AwwasmError::UnsupportedPayload)
                        } else {
                            Ok(
                                (
                                    InstrV {
                                        opcode: op,
                                        operands: OperandsV::MemorySize(
                                            MemoryZeroOperandsV { reserved: seq![z] },
                                        ),
                                    },
                                    p2,
                                ),
                            )
                        }
                    },
                },
                WasmOpCode::MemoryGrow => match spec_read_u8(s, p1) {
                    None => Err(AwwasmError::SectionLengthMismatch),
                    Some((z, p2)) => {
                        if z != WASM_INSTRUCTION_MEMORY_ZERO {
                            Err(AwwasmError::UnsupportedPayload)
                        } else {
                            Ok(
                                (
                                    InstrV {
                                        opcode: op,
                                        operands: OperandsV::MemoryGrow(
                                            MemoryZeroOperandsV { reserved: seq![z] },
                                        ),
                                    },
                                    p2,
                                ),
                            )
                        }
                    },
                },
                WasmOpCode::I32Const => match spec_parse_leb_i32(s, p1) {
                    Err(e) => Err(e),
                    Ok((v, p2)) => Ok(
                        (
                            InstrV {
                                opcode: op,
                                operands: OperandsV::I32Const(I32ConstOperands { value: v }),
                            },
                            p2,
                        ),
                    ),
                },
                WasmOpCode::I64Const => match spec_parse_leb_i64(s, p1) {
                    Err(e) => Err(e),
                    Ok((v, p2)) => Ok(
                        (
                            InstrV {
                                opcode: op,
                                operands: OperandsV::I64Const(I64ConstOperands { value: v }),
                            },
                            p2,
                        ),
                    ),
                },
                WasmOpCode::F32Const => match spec_read_u32_le(s, p1) {
                    None => Err(AwwasmError::SectionLengthMismatch),
                    Some((v, p2)) => Ok(
                        (
                            InstrV {
                                opcode: op,
                                operands: OperandsV::F32Const(F32ConstOperands { value: v }),
                            },
                            p2,
                        ),
                    ),
                },
                WasmOpCode::F64Const => match spec_read_u64_le(s, p1) {
                    None => Err(AwwasmError::SectionLengthMismatch),
                    Some((v, p2)) => Ok(
                        (
                            InstrV {
                                opcode: op,
                                operands: OperandsV::F64Const(F64ConstOperands { value: v }),
                            },
                            p2,
                        ),
                    ),
                },
                WasmOpCode::I32Eqz => Ok(
                    (InstrV { opcode: op, operands: OperandsV::I32Eqz }, p1),
                ),
                WasmOpCode::I32Eq => Ok((InstrV { opcode: op, operands: OperandsV::I32Eq }, p1)),
                WasmOpCode::I32Ne => Ok((InstrV { opcode: op, operands: OperandsV::I32Ne }, p1)),
                WasmOpCode::I32Add => Ok(
                    (InstrV { opcode: op, operands: OperandsV::I32Add }, p1),
                ),
                WasmOpCode::I32Sub => Ok(
                    (InstrV { opcode: op, operands: OperandsV::I32Sub }, p1),
                ),
                WasmOpCode::I32Mul => Ok(
                    (InstrV { opcode: op, operands: OperandsV::I32Mul }, p1),
                ),
            },
        },
    }
}

/// What decoding an instruction sequence closed by the `end` sentinel
/// yields: the decoded instructions and the sentinel byte that closed
/// them, which is consumed.
pub open spec fn spec_parse_instr_seq_end(s: Seq<u8>, pos: int) -> Result<
    (InstrSeqV, int),
    AwwasmError,
>
    decreases s.len() - pos, 1int,
{
    if pos < 0 || pos >= s.len() {
        Err(AwwasmError::SectionLengthMismatch)
    } else if s[pos] == WASM_FUNC_SECTION_OPCODE_END {
        Ok(((InstrSeqV { instrs: Seq::<InstrV>::empty(), terminator: seq![s[pos]] }), pos + 1))
    } else {
        match spec_parse_instruction(s, pos) {
            Err(e) => Err(e),
            Ok((i, p1)) => {
                if p1 <= pos || p1 > s.len() {
                    Err(AwwasmError::SectionLengthMismatch)
                } else {
                    match spec_parse_instr_seq_end(s, p1) {
                        Err(e) => Err(e),
                        Ok((rest, p2)) => Ok(
                            ((InstrSeqV { instrs: seq![i] + rest.instrs, terminator: rest.terminator }), p2),
                        ),
                    }
                }
            },
        }
    }
}

/// What decoding a `then` region yields: the decoded instructions and the
/// sentinel byte that closed them, which may be either the `else` marker
/// or the `end` sentinel and is consumed.
pub open spec fn spec_parse_instr_seq_else(s: Seq<u8>, pos: int) -> Result<
    (InstrSeqV, int),
    AwwasmError,
>
    decreases s.len() - pos, 1int,
{
    if pos < 0 || pos >= s.len() {
        Err(AwwasmError::SectionLengthMismatch)
    } else if s[pos] == WASM_FUNC_SECTION_OPCODE_END || s[pos] == WASM_FUNC_SECTION_OPCODE_THEN {
        Ok(((InstrSeqV { instrs: Seq::<InstrV>::empty(), terminator: seq![s[pos]] }), pos + 1))
    } else {
        match spec_parse_instruction(s, pos) {
            Err(e) => Err(e),
            Ok((i, p1)) => {
                if p1 <= pos || p1 > s.len() {
                    Err(AwwasmError::SectionLengthMismatch)
                } else {
                    match spec_parse_instr_seq_else(s, p1) {
                        Err(e) => Err(e),
                        Ok((rest, p2)) => Ok(
                            ((InstrSeqV { instrs: seq![i] + rest.instrs, terminator: rest.terminator }), p2),
                        ),
                    }
                }
            },
        }
    }
}

/// What decoding one memory-access immediate pair at `pos` yields.
pub open spec fn spec_parse_memarg(s: Seq<u8>, pos: int) -> Result<(MemArg, int), AwwasmError> {
    match spec_parse_leb_u32(s, pos) {
        Err(e) => Err(e),
        Ok((a, p1)) => match spec_parse_leb_u32(s, p1) {
            Err(e) => Err(e),
            Ok((o, p2)) => Ok((MemArg { align: a, offset: o }, p2)),
        },
    }
}

/// Decode one block-result-type tag.
pub fn parse_block_type(input: &[u8], pos: usize) -> (r: Result<(BlockValueType, usize), AwwasmError>)
    ensures
        ({
            let sr = spec_parse_block_type(input@, pos as int);
            match r {
                Ok((v, p)) => sr matches Ok(sv) && sv.0 == v && sv.1 == p as int && pos < p
                    <= input@.len(),
                Err(e) => sr matches Err(se) && se == e,
            }
        }),
{
    match read_u8(input, pos) {
        None => Err(AwwasmError::SectionLengthMismatch),
        Some((b, p)) => {
            if b == 0x40 {
                Ok((BlockValueType::VOID, p))
            } else if b == 0x7f {
                Ok((BlockValueType::I32, p))
            } else if b == 0x7e {
                Ok((BlockValueType::I64, p))
            } else if b == 0x7d {
                Ok((BlockValueType::F32, p))
            } else if b == 0x7c {
                Ok((BlockValueType::F64, p))
            } else {
                Err(AwwasmError::UnknownValueType)
            }
        },
    }
}

/// The opcode a byte denotes, if any.
pub fn opcode_from_byte(b: u8) -> (r: Option<WasmOpCode>)
    ensures
        r == spec_opcode(b),
{
    if b == 0x02 {
        Some(WasmOpCode::Block)
    } else if b == 0x03 {
        Some(WasmOpCode::Loop)
    } else if b == 0x04 {
        Some(WasmOpCode::If)
    } else if b == 0x05 {
        Some(WasmOpCode::Else)
    } else if b == 0x0b {
        Some(WasmOpCode::End)
    } else if b == 0x0c {
        Some(WasmOpCode::Br)
    } else if b == 0x0d {
        Some(WasmOpCode::BrIf)
    } else if b == 0x0e {
        Some(WasmOpCode::BrTable)
    } else if b == 0x0f {
        Some(WasmOpCode::Return)
    } else if b == 0x10 {
        Some(WasmOpCode::Call)
    } else if b == 0x11 {
        Some(WasmOpCode::CallIndirect)
    } else if b == 0x20 {
        Some(WasmOpCode::LocalGet)
    } else if b == 0x21 {
        Some(WasmOpCode::LocalSet)
    } else if b == 0x22 {
        Some(WasmOpCode::LocalTee)
    } else if b == 0x23 {
        Some(WasmOpCode::GlobalGet)
    } else if b == 0x24 {
        Some(WasmOpCode::GlobalSet)
    } else if b == 0x28 {
        Some(WasmOpCode::I32Load)
    } else if b == 0x29 {
        Some(WasmOpCode::I64Load)
    } else if b == 0x36 {
        Some(WasmOpCode::I32Store)
    } else if b == 0x37 {
        Some(WasmOpCode::I64Store)
    } else if b == 0x3f {
        Some(WasmOpCode::MemorySize)
    } else if b == 0x40 {
        Some(WasmOpCode::MemoryGrow)
    } else if b == 0x41 {
        Some(WasmOpCode::I32Const)
    } else if b == 0x42 {
        Some(WasmOpCode::I64Const)
    } else if b == 0x43 {
        Some(WasmOpCode::F32Const)
    } else if b == 0x44 {
        Some(WasmOpCode::F64Const)
    } else if b == 0x45 {
        Some(WasmOpCode::I32Eqz)
    } else if b == 0x46 {
        Some(WasmOpCode::I32Eq)
    } else if b == 0x47 {
        Some(WasmOpCode::I32Ne)
    } else if b == 0x6a {
        Some(WasmOpCode::I32Add)
    } else if b == 0x6b {
        Some(WasmOpCode::I32Sub)
    } else if b == 0x6c {
        Some(WasmOpCode::I32Mul)
    } else {
        None
    }
}

/// Decode exactly `n` unsigned varints.
pub fn parse_u32_list(input: &[u8], pos: usize, n: u32) -> (r: Result<(Vec<u32>, usize), AwwasmError>)
    requires
        pos <= input@.len(),
    ensures
        ({
            let sr = spec_parse_u32_list(input@, pos as int, n);
            match r {
                Ok((v, p)) => sr matches Ok(sv) && sv.0 == v@ && sv.1 == p as int && pos <= p
                    <= input@.len(),
                Err(e) => sr matches Err(se) && se == e,
            }
        }),
    decreases n,
{
    if n == 0 {
        Ok((Vec::new(), pos))
    } else {
        match parse_leb_u32(input, pos) {
            Err(e) => Err(e),
            Ok((v, p1)) => match parse_u32_list(input, p1, n - 1) {
                Err(e) => Err(e),
                Ok((mut rest, p2)) => {
                    let ghost old_rest = rest@;
                    let ghost gv = v;
                    rest.insert(0, v);
                    proof {
                        assert(rest@ =~= seq![gv] + old_rest);
                    }
                    Ok((rest, p2))
                },
            },
        }
    }
}

impl AwwasmInstruction {
    /// Decode one instruction: the opcode byte, then the operand shape
    /// that opcode alone selects.
    #[verifier::rlimit(100)]
    #[verifier::spinoff_prover]
    pub fn parse(input: &[u8], pos: usize) -> (r: Result<(AwwasmInstruction, usize), AwwasmError>)
        ensures
            ({
                let sr = spec_parse_instruction(input@, pos as int);
                match r {
                    Ok((i, p)) => sr matches Ok(sv) && sv.0 == i@ && sv.1 == p as int && pos < p
                        <= input@.len(),
                    Err(e) => sr matches Err(se) && se == e,
                }
            }),
        decreases input@.len() - pos, 0int,
    {
        let (b, p1) = match read_u8(input, pos) {
            None => {
                return Err(AwwasmError::SectionLengthMismatch);
            },
            Some(x) => x,
        };
        let op = match opcode_from_byte(b) {
            None => {
                return Err(AwwasmError::UnknownOpcode);
            },
            Some(o) => o,
        };
        match op {
            WasmOpCode::Block => {
                let (bt, p2) = match parse_block_type(input, p1) {
                    Err(e) => {
                        return Err(e);
                    },
                    Ok(x) => x,
                };
                let (body, p3) = match parse_instr_seq_end(input, p2) {
                    Err(e) => {
                        return Err(e);
                    },
                    Ok(x) => x,
                };
                Ok(
                    (
                        AwwasmInstruction {
                            opcode: op,
                            operands: AwwasmOperands::Block(
                                BlockOperands { block_type: bt, body },
                            ),
                        },
                        p3,
                    ),
                )
            },
            WasmOpCode::Loop => {
                let (bt, p2) = match parse_block_type(input, p1) {
                    Err(e) => {
                        return Err(e);
                    },
                    Ok(x) => x,
                };
                let (body, p3) = match parse_instr_seq_end(input, p2) {
                    Err(e) => {
                        return Err(e);
                    },
                    Ok(x) => x,
                };
                Ok(
                    (
                        AwwasmInstruction {
                            opcode: op,
                            operands: AwwasmOperands::Loop(LoopOperands { block_type: bt, body }),
                        },
                        p3,
                    ),
                )
            },
            WasmOpCode::If => {
                let (bt, p2) = match parse_block_type(input, p1) {
                    Err(e) => {
                        return Err(e);
                    },
                    Ok(x) => x,
                };
                let (then_body, p3) = match parse_instr_seq_else(input, p2) {
                    Err(e) => {
                        return Err(e);
                    },
                    Ok(x) => x,
                };
                if then_body.terminator.len() > 0 && then_body.terminator[0]
                    == WASM_FUNC_SECTION_OPCODE_THEN {
                    let (else_body, p4) = match parse_instr_seq_end(input, p3) {
                        Err(e) => {
                            return Err(e);
                        },
                        Ok(x) => x,
                    };
                    Ok(
                        (
                            AwwasmInstruction {
                                opcode: op,
                                operands: AwwasmOperands::If(
                                    IfOperands {
                                        block_type: bt,
                                        then_body,
                                        else_body: Some(else_body),
                                    },
                                ),
                            },
                            p4,
                        ),
                    )
                } else {
                    Ok(
                        (
                            AwwasmInstruction {
                                opcode: op,
                                operands: AwwasmOperands::If(
                                    IfOperands { block_type: bt, then_body, else_body: None },
                                ),
                            },
                            p3,
                        ),
                    )
                }
            },
            WasmOpCode::Else => Err(AwwasmError::UnknownOpcode),
            WasmOpCode::End => Err(AwwasmError::UnknownOpcode),
            WasmOpCode::Br => match parse_leb_u32(input, p1) {
                Err(e) => Err(e),
                Ok((idx, p2)) => Ok(
                    (
                        AwwasmInstruction {
                            opcode: op,
                            operands: AwwasmOperands::Br(BrOperands { labelidx: idx }),
                        },
                        p2,
                    ),
                ),
            },
            WasmOpCode::BrIf => match parse_leb_u32(input, p1) {
                Err(e) => Err(e),
                Ok((idx, p2)) => Ok(
                    (
                        AwwasmInstruction {
                            opcode: op,
                            operands: AwwasmOperands::BrIf(BrOperands { labelidx: idx }),
                        },
                        p2,
                    ),
                ),
            },
            WasmOpCode::BrTable => {
                let (cnt, p2) = match parse_leb_u32(input, p1) {
                    Err(e) => {
                        return Err(e);
                    },
                    Ok(x) => x,
                };
                let (ts, p3) = match parse_u32_list(input, p2, cnt) {
                    Err(e) => {
                        return Err(e);
                    },
                    Ok(x) => x,
                };
                let (d, p4) = match parse_leb_u32(input, p3) {
                    Err(e) => {
                        return Err(e);
                    },
                    Ok(x) => x,
                };
                Ok(
                    (
                        AwwasmInstruction {
                            opcode: op,
                            operands: AwwasmOperands::BrTable(
                                BrTableOperands { target_count: cnt, targets: ts, default: d },
                            ),
                        },
                        p4,
                    ),
                )
            },
            WasmOpCode::Return => Ok(
                (AwwasmInstruction { opcode: op, operands: AwwasmOperands::Return }, p1),
            ),
            WasmOpCode::Call => match parse_leb_u32(input, p1) {
                Err(e) => Err(e),
                Ok((idx, p2)) => Ok(
                    (
                        AwwasmInstruction {
                            opcode: op,
                            operands: AwwasmOperands::Call(CallOperands { funcidx: idx }),
                        },
                        p2,
                    ),
                ),
            },
            WasmOpCode::CallIndirect => {
                let (ti, p2) = match parse_leb_u32(input, p1) {
                    Err(e) => {
                        return Err(e);
                    },
                    Ok(x) => x,
                };
                let (tb, p3) = match parse_leb_u32(input, p2) {
                    Err(e) => {
                        return Err(e);
                    },
                    Ok(x) => x,
                };
                Ok(
                    (
                        AwwasmInstruction {
                            opcode: op,
                            operands: AwwasmOperands::CallIndirect(
                                CallIndirectOperands { typeidx: ti, tableidx: tb },
                            ),
                        },
                        p3,
                    ),
                )
            },
            WasmOpCode::LocalGet => match parse_leb_u32(input, p1) {
                Err(e) => Err(e),
                Ok((idx, p2)) => Ok(
                    (
                        AwwasmInstruction {
                            opcode: op,
                            operands: AwwasmOperands::LocalGet(IndexOperands { index: idx }),
                        },
                        p2,
                    ),
                ),
            },
            WasmOpCode::LocalSet => match parse_leb_u32(input, p1) {
                Err(e) => Err(e),
                Ok((idx, p2)) => Ok(
                    (
                        AwwasmInstruction {
                            opcode: op,
                            operands: AwwasmOperands::LocalSet(IndexOperands { index: idx }),
                        },
                        p2,
                    ),
                ),
            },
            WasmOpCode::LocalTee => match parse_leb_u32(input, p1) {
                Err(e) => Err(e),
                Ok((idx, p2)) => Ok(
                    (
                        AwwasmInstruction {
                            opcode: op,
                            operands: AwwasmOperands::LocalTee(IndexOperands { index: idx }),
                        },
                        p2,
                    ),
                ),
            },
            WasmOpCode::GlobalGet => match parse_leb_u32(input, p1) {
                Err(e) => Err(e),
                Ok((idx, p2)) => Ok(
                    (
                        AwwasmInstruction {
                            opcode: op,
                            operands: AwwasmOperands::GlobalGet(IndexOperands { index: idx }),
                        },
                        p2,
                    ),
                ),
            },
            WasmOpCode::GlobalSet => match parse_leb_u32(input, p1) {
                Err(e) => Err(e),
                Ok((idx, p2)) => Ok(
                    (
                        AwwasmInstruction {
                            opcode: op,
                            operands: AwwasmOperands::GlobalSet(IndexOperands { index: idx }),
                        },
                        p2,
                    ),
                ),
            },
            WasmOpCode::I32Load => match parse_memarg(input, p1) {
                Err(e) => Err(e),
                Ok((m, p2)) => Ok(
                    (
                        AwwasmInstruction { opcode: op, operands: AwwasmOperands::I32Load(m) },
                        p2,
                    ),
                ),
            },
            WasmOpCode::I64Load => match parse_memarg(input, p1) {
                Err(e) => Err(e),
                Ok((m, p2)) => Ok(
                    (
                        AwwasmInstruction { opcode: op, operands: AwwasmOperands::I64Load(m) },
                        p2,
                    ),
                ),
            },
            WasmOpCode::I32Store => match parse_memarg(input, p1) {
                Err(e) => Err(e),
                Ok((m, p2)) => Ok(
                    (
                        AwwasmInstruction { opcode: op, operands: AwwasmOperands::I32Store(m) },
                        p2,
                    ),
                ),
            },
            WasmOpCode::I64Store => match parse_memarg(input, p1) {
                Err(e) => Err(e),
                Ok((m, p2)) => Ok(
                    (
                        AwwasmInstruction { opcode: op, operands: AwwasmOperands::I64Store(m) },
                        p2,
                    ),
                ),
            },
            WasmOpCode::MemorySize => match read_u8(input, p1) {
                None => Err(AwwasmError::SectionLengthMismatch),
                Some((z, p2)) => {
                    if z != WASM_INSTRUCTION_MEMORY_ZERO {
                        Err(AwwasmError::UnsupportedPayload)
                    } else {
                        let mut rv: Vec<u8> = Vec::new();
                        rv.push(z);
                        proof {
                            assert(rv@ =~= seq![input@[p1 as int]]);
                        }
                        Ok(
                            (
                                AwwasmInstruction {
                                    opcode: op,
                                    operands: AwwasmOperands::MemorySize(
                                        MemoryZeroOperands { reserved: rv },
                                    ),
                                },
                                p2,
                            ),
                        )
                    }
                },
            },
            WasmOpCode::MemoryGrow => match read_u8(input, p1) {
                None => Err(AwwasmError::SectionLengthMismatch),
                Some((z, p2)) => {
                    if z != WASM_INSTRUCTION_MEMORY_ZERO {
                        Err(AwwasmError::UnsupportedPayload)
                    } else {
                        let mut rv: Vec<u8> = Vec::new();
                        rv.push(z);
                        proof {
                            assert(rv@ =~= seq![input@[p1 as int]]);
                        }
                        Ok(
                            (
                                AwwasmInstruction {
                                    opcode: op,
                                    operands: AwwasmOperands::MemoryGrow(
                                        MemoryZeroOperands { reserved: rv },
                                    ),
                                },
                                p2,
                            ),
                        )
                    }
                },
            },
            WasmOpCode::I32Const => match parse_leb_i32(input, p1) {
                Err(e) => Err(e),
                Ok((v, p2)) => Ok(
                    (
                        AwwasmInstruction {
                            opcode: op,
                            operands: AwwasmOperands::I32Const(I32ConstOperands { value: v }),
                        },
                        p2,
                    ),
                ),
            },
            WasmOpCode::I64Const => match parse_leb_i64(input, p1) {
                Err(e) => Err(e),
                Ok((v, p2)) => Ok(
                    (
                        AwwasmInstruction {
                            opcode: op,
                            operands: AwwasmOperands::I64Const(I64ConstOperands { value: v }),
                        },
                        p2,
                    ),
                ),
            },
            WasmOpCode::F32Const => match read_u32_le(input, p1) {
                None => Err(AwwasmError::SectionLengthMismatch),
                Some((v, p2)) => Ok(
                    (
                        AwwasmInstruction {
                            opcode: op,
                            operands: AwwasmOperands::F32Const(F32ConstOperands { value: v }),
                        },
                        p2,
                    ),
                ),
            },
            WasmOpCode::F64Const => match read_u64_le(input, p1) {
                None => Err(AwwasmError::SectionLengthMismatch),
                Some((v, p2)) => Ok(
                    (
                        AwwasmInstruction {
                            opcode: op,
                            operands: AwwasmOperands::F64Const(F64ConstOperands { value: v }),
                        },
                        p2,
                    ),
                ),
            },
            WasmOpCode::I32Eqz => Ok(
                (AwwasmInstruction { opcode: op, operands: AwwasmOperands::I32Eqz }, p1),
            ),
            WasmOpCode::I32Eq => Ok(
                (AwwasmInstruction { opcode: op, operands: AwwasmOperands::I32Eq }, p1),
            ),
            WasmOpCode::I32Ne => Ok(
                (AwwasmInstruction { opcode: op, operands: AwwasmOperands::I32Ne }, p1),
            ),
            WasmOpCode::I32Add => Ok(
                (AwwasmInstruction { opcode: op, operands: AwwasmOperands::I32Add }, p1),
            ),
            WasmOpCode::I32Sub => Ok(
                (AwwasmInstruction { opcode: op, operands: AwwasmOperands::I32Sub }, p1),
            ),
            WasmOpCode::I32Mul => Ok(
                (AwwasmInstruction { opcode: op, operands: AwwasmOperands::I32Mul }, p1),
            ),
        }
    }
}

/// Decode one memory-access immediate pair.
pub fn parse_memarg(input: &[u8], pos: usize) -> (r: Result<(MemArg, usize), AwwasmError>)
    ensures
        ({
            let sr = spec_parse_memarg(input@, pos as int);
            match r {
                Ok((v, p)) => sr matches Ok(sv) && sv.0 == v && sv.1 == p as int && pos < p
                    <= input@.len(),
                Err(e) => sr matches Err(se) && se == e,
            }
        }),
{
    let (a, p1) = match parse_leb_u32(input, pos) {
        Err(e) => {
            return Err(e);
        },
        Ok(x) => x,
    };
    match parse_leb_u32(input, p1) {
        Err(e) => Err(e),
        Ok((o, p2)) => Ok((MemArg { align: a, offset: o }, p2)),
    }
}

/// Decode an instruction sequence up to and including the `end` sentinel.
pub fn parse_instr_seq_end(input: &[u8], pos: usize) -> (r: Result<(AwwasmInstrSeq, usize), AwwasmError>)
    ensures
        ({
            let sr = spec_parse_instr_seq_end(input@, pos as int);
            match r {
                Ok((q, p)) => sr matches Ok(sv) && sv.0 == spec_instr_seq_view(q) && sv.1
                    == p as int && pos < p <= input@.len(),
                Err(e) => sr matches Err(se) && se == e,
            }
        }),
    decreases input@.len() - pos, 1int,
{
    if pos >= input.len() {
        return Err(AwwasmError::SectionLengthMismatch);
    }
    let b = input[pos];
    if b == WASM_FUNC_SECTION_OPCODE_END {
        let mut t: Vec<u8> = Vec::new();
        t.push(b);
        let q = AwwasmInstrSeq { instrs: Vec::new(), terminator: t };
        proof {
            assert(q.instrs@ =~= Seq::<AwwasmInstruction>::empty());
            assert(q.terminator@ =~= seq![input@[pos as int]]);
        }
        return Ok((q, pos + 1));
    }
    let (i, p1) = match AwwasmInstruction::parse(input, pos) {
        Err(e) => {
            return Err(e);
        },
        Ok(x) => x,
    };
    let (rest, p2) = match parse_instr_seq_end(input, p1) {
        Err(e) => {
            return Err(e);
        },
        Ok(x) => x,
    };
    let AwwasmInstrSeq { instrs, terminator } = rest;
    let mut instrs = instrs;
    let ghost old_instrs = instrs@;
    let ghost gi = i;
    instrs.insert(0, i);
    proof {
        assert(instrs@.subrange(1, instrs@.len() as int) =~= old_instrs);
        assert(instrs@[0] == gi);
        assert(spec_instrs_view(instrs@) =~= seq![spec_instr_view(gi)] + spec_instrs_view(
            old_instrs,
        ));
    }
    Ok((AwwasmInstrSeq { instrs, terminator }, p2))
}

/// Decode a `then` region: an instruction sequence up to and including
/// either the `else` marker or the `end` sentinel.
pub fn parse_instr_seq_else(input: &[u8], pos: usize) -> (r: Result<(AwwasmInstrSeq, usize), AwwasmError>)
    ensures
        ({
            let sr = spec_parse_instr_seq_else(input@, pos as int);
            match r {
                Ok((q, p)) => sr matches Ok(sv) && sv.0 == spec_instr_seq_view(q) && sv.1
                    == p as int && pos < p <= input@.len(),
                Err(e) => sr matches Err(se) && se == e,
            }
        }),
    decreases input@.len() - pos, 1int,
{
    if pos >= input.len() {
        return Err(AwwasmError::SectionLengthMismatch);
    }
    let b = input[pos];
    if b == WASM_FUNC_SECTION_OPCODE_END || b == WASM_FUNC_SECTION_OPCODE_THEN {
        let mut t: Vec<u8> = Vec::new();
        t.push(b);
        let q = AwwasmInstrSeq { instrs: Vec::new(), terminator: t };
        proof {
            assert(q.instrs@ =~= Seq::<AwwasmInstruction>::empty());
            assert(q.terminator@ =~= seq![input@[pos as int]]);
        }
        return Ok((q, pos + 1));
    }
    let (i, p1) = match AwwasmInstruction::parse(input, pos) {
        Err(e) => {
            return Err(e);
        },
        Ok(x) => x,
    };
    let (rest, p2) = match parse_instr_seq_else(input, p1) {
        Err(e) => {
            return Err(e);
        },
        Ok(x) => x,
    };
    let AwwasmInstrSeq { instrs, terminator } = rest;
    let mut instrs = instrs;
    let ghost old_instrs = instrs@;
    let ghost gi = i;
    instrs.insert(0, i);
    proof {
        assert(instrs@.subrange(1, instrs@.len() as int) =~= old_instrs);
        assert(instrs@[0] == gi);
        assert(spec_instrs_view(instrs@) =~= seq![spec_instr_view(gi)] + spec_instrs_view(
            old_instrs,
        ));
    }
    Ok((AwwasmInstrSeq { instrs, terminator }, p2))
}

/// A lazy sequential view over raw instruction bytes.  Each pull decodes
/// one instruction; after a decode failure the stream yields that one
/// failure and then behaves as exhausted.
pub struct InstructionIterator<'a> {
    remaining: &'a [u8],
    pos: usize,
    failed: bool,
}

impl<'a> View for InstructionIterator<'a> {
    type V = (Seq<u8>, int, bool);

    closed spec fn view(&self) -> (Seq<u8>, int, bool) {
        (self.remaining@, self.pos as int, self.failed)
    }
}

impl<'a> InstructionIterator<'a> {
    /// A stream positioned at the start of `input`.
    pub fn new(input: &'a [u8]) -> (r: Self)
        ensures
            r@ == (input@, 0int, false),
    {
        InstructionIterator { remaining: input, pos: 0, failed: false }
    }

    /// Decode the next instruction, if bytes remain and no decode has
    /// failed yet.  On a failure the error is yielded once and the stream
    /// is exhausted thereafter.
    pub fn next(&mut self) -> (r: Option<Result<AwwasmInstruction, AwwasmError>>)
        ensures
            final(self)@.0 == old(self)@.0,
            (old(self)@.2 || old(self)@.1 >= old(self)@.0.len()) ==> r is None && *final(self)
                == *old(self),
            (!old(self)@.2 && old(self)@.1 < old(self)@.0.len()) ==> (match spec_parse_instruction(
                old(self)@.0,
                old(self)@.1,
            ) {
                Ok(sv) => r matches Some(rr) && rr matches Ok(i) && i@ == sv.0 && final(self)@.1
                    == sv.1 && final(self)@.2 == false,
                Err(e) => r matches Some(rr) && rr matches Err(e2) && e2 == e && final(self)@.2
                    == true,
            }),
    {
        if self.failed || self.pos >= self.remaining.len() {
            return None;
        }
        match AwwasmInstruction::parse(self.remaining, self.pos) {
            Ok((i, p)) => {
                self.pos = p;
                Some(Ok(i))
            },
            Err(e) => {
                self.failed = true;
                Some(Err(e))
            },
        }
    }
}

} // verus!
