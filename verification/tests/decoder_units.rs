use awwasm::error::AwwasmError;
use awwasm::instructions::{
    AwwasmInstrSeq, AwwasmInstruction, AwwasmOperands, BlockOperands, BlockValueType, BrOperands,
    BrTableOperands, CallIndirectOperands, CallOperands, F32ConstOperands, F64ConstOperands,
    I32ConstOperands, IfOperands, IndexOperands, InstructionIterator, LoopOperands, MemArg,
    MemoryZeroOperands, WasmOpCode,
};
use awwasm::module::{AwwasmModule, AwwasmModulePreamble};
use awwasm::section::{AwwasmSection, AwwasmSectionHeader, SectionCode, SectionItem};
use awwasm::types::{
    AwwasmCodeSectionItem, AwwasmDataInitExpr, AwwasmDataSegmentHeader, AwwasmImportSectionItem,
    AwwasmMemoryParams, AwwasmName, AwwasmTypeSectionItem, ParamType,
};
use awwasm::varint::{parse_leb_i32, parse_leb_i64, parse_leb_u32};

#[test]
fn leb_u32_basic_and_boundary() {
    // single byte
    assert_eq!(parse_leb_u32(&[0x00], 0), Ok((0, 1)));
    assert_eq!(parse_leb_u32(&[0x7f], 0), Ok((127, 1)));
    // two groups: 0xe5 0x8e 0x26 = 624485
    assert_eq!(parse_leb_u32(&[0xe5, 0x8e, 0x26], 0), Ok((624485, 3)));
    // largest value, exactly at the 32-bit boundary
    assert_eq!(
        parse_leb_u32(&[0xff, 0xff, 0xff, 0xff, 0x0f], 0),
        Ok((u32::MAX, 5))
    );
    // a non-minimal encoding of zero is still a valid varint
    assert_eq!(parse_leb_u32(&[0x80, 0x00], 0), Ok((0, 2)));
}

#[test]
fn leb_u32_malformed() {
    // empty input
    assert_eq!(parse_leb_u32(&[], 0), Err(AwwasmError::MalformedVarint));
    // all continuation bits, buffer ends
    assert_eq!(
        parse_leb_u32(&[0x80, 0x80], 0),
        Err(AwwasmError::MalformedVarint)
    );
    // a sixth group would be needed
    assert_eq!(
        parse_leb_u32(&[0x80, 0x80, 0x80, 0x80, 0x80, 0x01], 0),
        Err(AwwasmError::MalformedVarint)
    );
    // bits beyond the 32-bit boundary set in the fifth group
    assert_eq!(
        parse_leb_u32(&[0xff, 0xff, 0xff, 0xff, 0x1f], 0),
        Err(AwwasmError::MalformedVarint)
    );
}

#[test]
fn leb_i32_signed() {
    assert_eq!(parse_leb_i32(&[0x00], 0), Ok((0, 1)));
    assert_eq!(parse_leb_i32(&[0x2a], 0), Ok((42, 1)));
    assert_eq!(parse_leb_i32(&[0x7f], 0), Ok((-1, 1)));
    assert_eq!(parse_leb_i32(&[0x41], 0), Ok((-63, 1)));
    // -123456 = 0xc0 0xbb 0x78
    assert_eq!(parse_leb_i32(&[0xc0, 0xbb, 0x78], 0), Ok((-123456, 3)));
    // i32::MIN, exactly at the boundary
    assert_eq!(
        parse_leb_i32(&[0x80, 0x80, 0x80, 0x80, 0x78], 0),
        Ok((i32::MIN, 5))
    );
    // the fifth group's sign-fill bits must be consistent
    assert_eq!(
        parse_leb_i32(&[0x80, 0x80, 0x80, 0x80, 0x18], 0),
        Err(AwwasmError::MalformedVarint)
    );
    assert_eq!(parse_leb_i32(&[], 0), Err(AwwasmError::MalformedVarint));
}

#[test]
fn leb_i64_signed() {
    assert_eq!(parse_leb_i64(&[0x7f], 0), Ok((-1, 1)));
    assert_eq!(parse_leb_i64(&[0x3f], 0), Ok((63, 1)));
    // i64::MIN: nine continuation groups then the top bit
    assert_eq!(
        parse_leb_i64(
            &[0x80, 0x80, 0x80, 0x80, 0x80, 0x80, 0x80, 0x80, 0x80, 0x7f],
            0
        ),
        Ok((i64::MIN, 10))
    );
    // the tenth group holds only one bit; anything else is overflow
    assert_eq!(
        parse_leb_i64(
            &[0x80, 0x80, 0x80, 0x80, 0x80, 0x80, 0x80, 0x80, 0x80, 0x02],
            0
        ),
        Err(AwwasmError::MalformedVarint)
    );
}

#[test]
fn preamble_version_other_than_one_is_accepted() {
    let bytes = [0x00, 0x61, 0x73, 0x6d, 0x02, 0x00, 0x00, 0x00];
    let p = AwwasmModulePreamble::new(&bytes).unwrap();
    assert_eq!(p.version, 2);
    assert_eq!(p.magic, vec![0x00, 0x61, 0x73, 0x6d]);
    assert_ne!(p, AwwasmModulePreamble::default());
}

#[test]
fn preamble_bad_magic_fails() {
    let bytes = [0x00, 0x61, 0x73, 0x6e, 0x01, 0x00, 0x00, 0x00];
    assert_eq!(
        AwwasmModulePreamble::new(&bytes),
        Err(AwwasmError::MalformedPreamble)
    );
    // too short for magic plus version
    assert_eq!(
        AwwasmModulePreamble::new(&[0x00, 0x61, 0x73, 0x6d, 0x01]),
        Err(AwwasmError::MalformedPreamble)
    );
}

#[test]
fn unknown_section_kind_fails() {
    let bytes = [0x00, 0x61, 0x73, 0x6d, 0x01, 0x00, 0x00, 0x00, 0x0c, 0x01, 0x00];
    assert_eq!(
        AwwasmModule::new(&bytes),
        Err(AwwasmError::UnknownSectionKind)
    );
}

#[test]
fn section_declared_length_must_be_honoured() {
    // kind Type, declared size 10, entry count 1, but no body bytes remain
    let bytes = [0x00, 0x61, 0x73, 0x6d, 0x01, 0x00, 0x00, 0x00, 0x01, 0x0a, 0x01];
    assert_eq!(
        AwwasmModule::new(&bytes),
        Err(AwwasmError::SectionLengthMismatch)
    );
    // declared size 0 cannot even hold the entry-count varint
    let bytes2 = [0x00, 0x61, 0x73, 0x6d, 0x01, 0x00, 0x00, 0x00, 0x01, 0x00, 0x01];
    assert_eq!(
        AwwasmModule::new(&bytes2),
        Err(AwwasmError::SectionLengthMismatch)
    );
}

#[test]
fn resolve_rejects_leftover_bytes() {
    let mut sec = AwwasmSection {
        section_header: AwwasmSectionHeader {
            section_type: SectionCode::Type,
            section_size: 5,
        },
        entry_count: 1,
        section_body: vec![0x60, 0x00, 0x00, 0xaa],
    };
    assert_eq!(
        sec.resolve().map(|_| ()),
        Err(AwwasmError::SectionLengthMismatch)
    );
    // the section is left as it was
    assert_eq!(sec.section_body, vec![0x60, 0x00, 0x00, 0xaa]);
}

#[test]
fn resolve_empty_body_yields_no_entries() {
    let mut sec = AwwasmSection {
        section_header: AwwasmSectionHeader {
            section_type: SectionCode::Type,
            section_size: 1,
        },
        entry_count: 0,
        section_body: vec![],
    };
    match sec.resolve().unwrap() {
        SectionItem::TypeSectionItems(x) => assert!(x.is_none()),
        _ => panic!("wrong section item kind"),
    }
}

#[test]
fn type_item_tag_and_value_types() {
    // wrong signature tag
    assert_eq!(
        AwwasmTypeSectionItem::parse(&[0x61, 0x00, 0x00], 0),
        Err(AwwasmError::UnsupportedPayload)
    );
    // 0x7d is not a modeled parameter type
    assert_eq!(
        AwwasmTypeSectionItem::parse(&[0x60, 0x01, 0x7d], 0),
        Err(AwwasmError::UnknownValueType)
    );
    // truncated parameter list
    assert_eq!(
        AwwasmTypeSectionItem::parse(&[0x60, 0x01], 0),
        Err(AwwasmError::SectionLengthMismatch)
    );
}

#[test]
fn import_table_and_global_payloads_fail_closed() {
    // module "m", name "n", kind Table
    let table = [0x01, b'm', 0x01, b'n', 0x01];
    assert_eq!(
        AwwasmImportSectionItem::parse(&table, 0).map(|_| ()),
        Err(AwwasmError::UnsupportedPayload)
    );
    // kind Global
    let global = [0x01, b'm', 0x01, b'n', 0x03];
    assert_eq!(
        AwwasmImportSectionItem::parse(&global, 0).map(|_| ()),
        Err(AwwasmError::UnsupportedPayload)
    );
}

#[test]
fn memory_limits_flags_conditioned() {
    let (mp, p) = AwwasmMemoryParams::parse(&[0x00, 0x05], 0).unwrap();
    assert_eq!(
        mp,
        AwwasmMemoryParams {
            flags: 0,
            min: 5,
            max: None
        }
    );
    assert_eq!(p, 2);
    let (mp1, p1) = AwwasmMemoryParams::parse(&[0x01, 0x01, 0x02], 0).unwrap();
    assert_eq!(
        mp1,
        AwwasmMemoryParams {
            flags: 1,
            min: 1,
            max: Some(2)
        }
    );
    assert_eq!(p1, 3);
    // flags outside {0, 1} must fail, not guess
    assert_eq!(
        AwwasmMemoryParams::parse(&[0x02, 0x01, 0x02], 0),
        Err(AwwasmError::UnsupportedPayload)
    );
}

#[test]
fn name_with_zero_length() {
    let (n, p) = AwwasmName::parse(&[0x00], 0).unwrap();
    assert_eq!(n.len, 0);
    assert!(n.bytes.is_empty());
    assert_eq!(p, 1);
}

#[test]
fn data_passive_segment_has_no_offset() {
    // flags 1 (passive): no memidx, no offset expression, then size and bytes
    let (h, p) = AwwasmDataSegmentHeader::parse(&[0x01], 0).unwrap();
    assert_eq!(h.flags, 1);
    assert_eq!(h.memidx, None);
    assert!(h.offset.is_none());
    assert_eq!(p, 1);
}

#[test]
fn data_init_expr_requires_terminator() {
    // i32.const 1 with no end byte
    assert_eq!(
        AwwasmDataInitExpr::parse(&[0x41, 0x01], 0).map(|_| ()),
        Err(AwwasmError::SectionLengthMismatch)
    );
    let (e, p) = AwwasmDataInitExpr::parse(&[0x41, 0x01, 0x0b], 0).unwrap();
    assert_eq!(e.code, vec![0x41, 0x01]);
    assert_eq!(e.end, 0x0b);
    assert_eq!(p, 3);
}

#[test]
fn instruction_unknown_opcode_and_bare_sentinels() {
    assert_eq!(
        AwwasmInstruction::parse(&[0xfe], 0).map(|_| ()),
        Err(AwwasmError::UnknownOpcode)
    );
    // sentinel bytes are not instructions
    assert_eq!(
        AwwasmInstruction::parse(&[0x0b], 0).map(|_| ()),
        Err(AwwasmError::UnknownOpcode)
    );
    assert_eq!(
        AwwasmInstruction::parse(&[0x05], 0).map(|_| ()),
        Err(AwwasmError::UnknownOpcode)
    );
}

#[test]
fn instruction_branch_table_counts() {
    // br_table with 3 targets and a default; consumes all six bytes
    let bytes = [0x0e, 0x03, 0x00, 0x01, 0x02, 0x00];
    let (i, p) = AwwasmInstruction::parse(&bytes, 0).unwrap();
    assert_eq!(p, 6);
    assert_eq!(i.opcode, WasmOpCode::BrTable);
    match i.operands {
        AwwasmOperands::BrTable(bt) => {
            assert_eq!(
                bt,
                BrTableOperands {
                    target_count: 3,
                    targets: vec![0, 1, 2],
                    default: 0
                }
            );
        }
        _ => panic!("wrong operands"),
    }
}

#[test]
fn instruction_if_with_else_branch() {
    // if (void) then i32.const 1 else i32.const 2 end
    let bytes = [0x04, 0x40, 0x41, 0x01, 0x05, 0x41, 0x02, 0x0b];
    let (i, p) = AwwasmInstruction::parse(&bytes, 0).unwrap();
    assert_eq!(p, 8);
    let expected = AwwasmInstruction {
        opcode: WasmOpCode::If,
        operands: AwwasmOperands::If(IfOperands {
            block_type: BlockValueType::VOID,
            then_body: AwwasmInstrSeq {
                instrs: vec![AwwasmInstruction {
                    opcode: WasmOpCode::I32Const,
                    operands: AwwasmOperands::I32Const(I32ConstOperands { value: 1 }),
                }],
                terminator: vec![0x05],
            },
            else_body: Some(AwwasmInstrSeq {
                instrs: vec![AwwasmInstruction {
                    opcode: WasmOpCode::I32Const,
                    operands: AwwasmOperands::I32Const(I32ConstOperands { value: 2 }),
                }],
                terminator: vec![0x0b],
            }),
        }),
    };
    assert_eq!(i, expected);
}

#[test]
fn instruction_if_without_else_branch() {
    let bytes = [0x04, 0x40, 0x0b];
    let (i, p) = AwwasmInstruction::parse(&bytes, 0).unwrap();
    assert_eq!(p, 3);
    match i.operands {
        AwwasmOperands::If(io) => {
            assert!(io.then_body.instrs.is_empty());
            assert_eq!(io.then_body.terminator, vec![0x0b]);
            assert!(io.else_body.is_none());
        }
        _ => panic!("wrong operands"),
    }
}

#[test]
fn instruction_nested_blocks() {
    let bytes = [0x02, 0x40, 0x02, 0x40, 0x0b, 0x0b];
    let (i, p) = AwwasmInstruction::parse(&bytes, 0).unwrap();
    assert_eq!(p, 6);
    let expected = AwwasmInstruction {
        opcode: WasmOpCode::Block,
        operands: AwwasmOperands::Block(BlockOperands {
            block_type: BlockValueType::VOID,
            body: AwwasmInstrSeq {
                instrs: vec![AwwasmInstruction {
                    opcode: WasmOpCode::Block,
                    operands: AwwasmOperands::Block(BlockOperands {
                        block_type: BlockValueType::VOID,
                        body: AwwasmInstrSeq {
                            instrs: vec![],
                            terminator: vec![0x0b],
                        },
                    }),
                }],
                terminator: vec![0x0b],
            },
        }),
    };
    assert_eq!(i, expected);
}

#[test]
fn instruction_block_without_terminator_fails() {
    assert_eq!(
        AwwasmInstruction::parse(&[0x02, 0x40, 0x41, 0x01], 0).map(|_| ()),
        Err(AwwasmError::SectionLengthMismatch)
    );
    // an unrecognized block result type fails the whole instruction
    assert_eq!(
        AwwasmInstruction::parse(&[0x02, 0x33, 0x0b], 0).map(|_| ()),
        Err(AwwasmError::UnknownValueType)
    );
}

#[test]
fn instruction_memory_reserved_byte() {
    let (i, p) = AwwasmInstruction::parse(&[0x3f, 0x00], 0).unwrap();
    assert_eq!(p, 2);
    assert_eq!(
        i.operands,
        AwwasmOperands::MemorySize(MemoryZeroOperands {
            reserved: vec![0x00]
        })
    );
    assert_eq!(
        AwwasmInstruction::parse(&[0x3f, 0x07], 0).map(|_| ()),
        Err(AwwasmError::UnsupportedPayload)
    );
}

#[test]
fn instruction_float_constants_keep_bit_patterns() {
    // 1.0f32 little-endian
    let (i, p) = AwwasmInstruction::parse(&[0x43, 0x00, 0x00, 0x80, 0x3f], 0).unwrap();
    assert_eq!(p, 5);
    assert_eq!(
        i.operands,
        AwwasmOperands::F32Const(F32ConstOperands { value: 0x3f80_0000 })
    );
    assert_eq!(f32::from_bits(0x3f80_0000), 1.0);
    // 1.0f64 little-endian
    let (j, q) = AwwasmInstruction::parse(
        &[0x44, 0x00, 0x00, 0x00, 0x00, 0x00, 0x00, 0xf0, 0x3f],
        0,
    )
    .unwrap();
    assert_eq!(q, 9);
    assert_eq!(
        j.operands,
        AwwasmOperands::F64Const(F64ConstOperands {
            value: 0x3ff0_0000_0000_0000
        })
    );
    assert_eq!(f64::from_bits(0x3ff0_0000_0000_0000), 1.0);
}

#[test]
fn instruction_iterator_yields_then_exhausts() {
    let bytes = [0x41, 0x2a, 0x0f];
    let mut it = InstructionIterator::new(&bytes);
    let first = it.next().unwrap().unwrap();
    assert_eq!(first.opcode, WasmOpCode::I32Const);
    assert_eq!(
        first.operands,
        AwwasmOperands::I32Const(I32ConstOperands { value: 42 })
    );
    let second = it.next().unwrap().unwrap();
    assert_eq!(second.opcode, WasmOpCode::Return);
    assert!(it.next().is_none());
}

#[test]
fn instruction_iterator_yields_one_error_then_stops() {
    // a truncated i32.const: one failure, then exhausted for good
    let bytes = [0x41];
    let mut it = InstructionIterator::new(&bytes);
    assert_eq!(it.next(), Some(Err(AwwasmError::MalformedVarint)));
    assert!(it.next().is_none());
    assert!(it.next().is_none());

    let empty: [u8; 0] = [];
    let mut it2 = InstructionIterator::new(&empty);
    assert!(it2.next().is_none());
}

#[test]
fn code_entry_double_resolve_is_contained() {
    // locals (1 x i32) and (2 x i64), empty code, trailing end byte
    let mut item = AwwasmCodeSectionItem {
        fn_body_size: 6,
        func_body: vec![2, 1, 127, 2, 126, 11],
        parsed_func: None,
    };
    item.resolve().unwrap();
    assert_eq!(item.func_body, vec![11]);
    assert!(item.parsed_func.is_some());
    // the leftover terminator byte is not a function body: a second
    // resolve is rejected rather than fabricating structure
    assert!(item.resolve().is_err());
    assert_eq!(item.func_body, vec![11]);
}

#[test]
fn code_entry_resolve_on_empty_body_skips_decode() {
    // one local declaration and no code bytes at all: the first resolve
    // consumes everything
    let mut item = AwwasmCodeSectionItem {
        fn_body_size: 3,
        func_body: vec![1, 0, 127],
        parsed_func: None,
    };
    item.resolve().unwrap();
    assert!(item.func_body.is_empty());
    assert!(item.parsed_func.is_some());
    // resolving again must not attempt a second structural decode: it
    // succeeds and only clears the previous resolution
    item.resolve().unwrap();
    assert!(item.func_body.is_empty());
    assert!(item.parsed_func.is_none());
}

#[test]
fn instruction_flat_immediates() {
    // br 1
    let (i, p) = AwwasmInstruction::parse(&[0x0c, 0x01], 0).unwrap();
    assert_eq!(p, 2);
    assert_eq!(i.operands, AwwasmOperands::Br(BrOperands { labelidx: 1 }));
    // br_if 0
    let (i, _) = AwwasmInstruction::parse(&[0x0d, 0x00], 0).unwrap();
    assert_eq!(i.operands, AwwasmOperands::BrIf(BrOperands { labelidx: 0 }));
    // call 5
    let (i, _) = AwwasmInstruction::parse(&[0x10, 0x05], 0).unwrap();
    assert_eq!(i.operands, AwwasmOperands::Call(CallOperands { funcidx: 5 }));
    // call_indirect type 2, table 0
    let (i, p) = AwwasmInstruction::parse(&[0x11, 0x02, 0x00], 0).unwrap();
    assert_eq!(p, 3);
    assert_eq!(
        i.operands,
        AwwasmOperands::CallIndirect(CallIndirectOperands {
            typeidx: 2,
            tableidx: 0
        })
    );
    // local.get 3 / local.set 4 / local.tee 5 / global.get 6 / global.set 7
    let (i, _) = AwwasmInstruction::parse(&[0x20, 0x03], 0).unwrap();
    assert_eq!(i.operands, AwwasmOperands::LocalGet(IndexOperands { index: 3 }));
    let (i, _) = AwwasmInstruction::parse(&[0x21, 0x04], 0).unwrap();
    assert_eq!(i.operands, AwwasmOperands::LocalSet(IndexOperands { index: 4 }));
    let (i, _) = AwwasmInstruction::parse(&[0x22, 0x05], 0).unwrap();
    assert_eq!(i.operands, AwwasmOperands::LocalTee(IndexOperands { index: 5 }));
    let (i, _) = AwwasmInstruction::parse(&[0x23, 0x06], 0).unwrap();
    assert_eq!(i.operands, AwwasmOperands::GlobalGet(IndexOperands { index: 6 }));
    let (i, _) = AwwasmInstruction::parse(&[0x24, 0x07], 0).unwrap();
    assert_eq!(i.operands, AwwasmOperands::GlobalSet(IndexOperands { index: 7 }));
    // i32.load with align 2 offset 8
    let (i, p) = AwwasmInstruction::parse(&[0x28, 0x02, 0x08], 0).unwrap();
    assert_eq!(p, 3);
    assert_eq!(
        i.operands,
        AwwasmOperands::I32Load(MemArg { align: 2, offset: 8 })
    );
    // i64.store with align 3 offset 16
    let (i, _) = AwwasmInstruction::parse(&[0x37, 0x03, 0x10], 0).unwrap();
    assert_eq!(
        i.operands,
        AwwasmOperands::I64Store(MemArg { align: 3, offset: 16 })
    );
    // i64.const -2
    let (i, _) = AwwasmInstruction::parse(&[0x42, 0x7e], 0).unwrap();
    assert_eq!(i.opcode, WasmOpCode::I64Const);
    // no-operand opcodes consume just the opcode byte
    for (byte, op) in [
        (0x0fu8, WasmOpCode::Return),
        (0x45, WasmOpCode::I32Eqz),
        (0x46, WasmOpCode::I32Eq),
        (0x47, WasmOpCode::I32Ne),
        (0x6a, WasmOpCode::I32Add),
        (0x6b, WasmOpCode::I32Sub),
        (0x6c, WasmOpCode::I32Mul),
    ] {
        let (i, p) = AwwasmInstruction::parse(&[byte], 0).unwrap();
        assert_eq!(p, 1);
        assert_eq!(i.opcode, op);
    }
    // loop with one body instruction
    let (i, p) = AwwasmInstruction::parse(&[0x03, 0x7f, 0x41, 0x01, 0x0b], 0).unwrap();
    assert_eq!(p, 5);
    match i.operands {
        AwwasmOperands::Loop(LoopOperands { block_type, body }) => {
            assert_eq!(block_type, BlockValueType::I32);
            assert_eq!(body.instrs.len(), 1);
            assert_eq!(body.terminator, vec![0x0b]);
        }
        _ => panic!("wrong operands"),
    }
}

#[test]
fn module_trailing_garbage_fails() {
    // a valid empty module followed by a stray byte that is no section
    let bytes = [0x00, 0x61, 0x73, 0x6d, 0x01, 0x00, 0x00, 0x00, 0xff];
    assert!(AwwasmModule::new(&bytes).is_err());
}
