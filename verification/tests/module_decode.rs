use awwasm::module::{AwwasmModule, AwwasmModulePreamble};
use awwasm::section::{AwwasmSection, AwwasmSectionHeader, SectionCode};
use awwasm::types::{
    AwwasmCodeSectionItem, AwwasmExportKind, AwwasmFuncSectionItem, AwwasmFunction,
    AwwasmFunctionLocals, AwwasmImportKind, AwwasmTypeSectionItem, ParamType,
};

#[test]
fn decode_module_preamble_test() {
    // Generate a wasm module with just preamble.
    let module = wat::parse_str("(module)").unwrap();
    // Decode the preamble and validate.
    let preamble = AwwasmModulePreamble::new(&module).unwrap();
    assert_eq!(preamble, AwwasmModulePreamble::default());
}

#[test]
fn decode_minimal_module_test() {
    // Generate a wasm module with just preamble.
    let module = wat::parse_str("(module)").unwrap();
    // Decode the module and validate.
    let module_parsed = AwwasmModule::new(&module).unwrap();
    assert_eq!(module_parsed, AwwasmModule::default());
}

#[test]
fn decode_minimal_module_with_minimal_fuction_test() {
    // Generate a wasm module with just preamble and an empty function.
    let module = wat::parse_str("(module (func))").unwrap();
    // Decode the module and validate.
    let module_parsed = AwwasmModule::new(&module).unwrap();
    assert_eq!(
        module_parsed,
        AwwasmModule {
            preamble: AwwasmModulePreamble::default(),
            sections: Some(vec![
                AwwasmSection {
                    section_header: AwwasmSectionHeader {
                        section_type: SectionCode::Type,
                        section_size: 4,
                    },
                    entry_count: 1,
                    section_body: vec![96, 0, 0],
                },
                AwwasmSection {
                    section_header: AwwasmSectionHeader {
                        section_type: SectionCode::Function,
                        section_size: 2,
                    },
                    entry_count: 1,
                    section_body: vec![0],
                },
                AwwasmSection {
                    section_header: AwwasmSectionHeader {
                        section_type: SectionCode::Code,
                        section_size: 4,
                    },
                    entry_count: 1,
                    section_body: vec![2, 0, 11],
                },
            ]),
            types: None,
            imports: None,
            exports: None,
            funcs: None,
            code: None,
            memories: None,
            data: None,
        }
    );
}

#[test]
fn decode_function_signature_test() {
    // Generate a wasm module with a function that takes parameters.
    let module = wat::parse_str("(module (func (param i32 i64)))").unwrap();
    // Top level decode the module
    let mut module_parsed = AwwasmModule::new(&module).unwrap();
    // Resolve all sections
    module_parsed.resolve_all_sections().unwrap();
    assert_eq!(
        module_parsed.types,
        Some(vec![AwwasmTypeSectionItem {
            type_magic: vec![96],
            fn_args: vec![ParamType::I32, ParamType::I64],
            fn_rets: vec![],
        }])
    );
    assert_eq!(
        module_parsed.funcs,
        Some(vec![AwwasmFuncSectionItem { type_item_idx: 0 }])
    );
    assert_eq!(
        module_parsed.code,
        Some(vec![AwwasmCodeSectionItem {
            fn_body_size: 2,
            func_body: vec![0, 11],
            parsed_func: None,
        }])
    );
}

#[test]
fn decode_function_local_params_test() {
    // Generate a wasm module with a basic function with some local parameters.
    let module = wat::parse_str(
        "(module
            (func
                (local i32)
                (local i64 i64)
            )
        )",
    )
    .unwrap();
    // Init and top level decode the module
    let mut module_parsed = AwwasmModule::new(&module).unwrap();
    // Resolve all sections
    module_parsed.resolve_all_sections().unwrap();
    assert_eq!(
        module_parsed.types,
        Some(vec![AwwasmTypeSectionItem {
            type_magic: vec![96],
            fn_args: vec![],
            fn_rets: vec![],
        }])
    );
    assert_eq!(
        module_parsed.funcs,
        Some(vec![AwwasmFuncSectionItem { type_item_idx: 0 }])
    );
    assert_eq!(
        module_parsed.code,
        Some(vec![AwwasmCodeSectionItem {
            fn_body_size: 6,
            func_body: vec![2, 1, 127, 2, 126, 11],
            parsed_func: None,
        }])
    );
    module_parsed.code.as_mut().unwrap().iter_mut().for_each(|x| {
        x.resolve().unwrap();
    });
    assert_eq!(
        module_parsed.code,
        Some(vec![AwwasmCodeSectionItem {
            fn_body_size: 6,
            func_body: vec![11],
            parsed_func: Some(AwwasmFunction {
                fn_rets: vec![
                    AwwasmFunctionLocals {
                        type_count: 1,
                        param_type: ParamType::I32,
                    },
                    AwwasmFunctionLocals {
                        type_count: 2,
                        param_type: ParamType::I64,
                    },
                ],
                code: vec![],
            }),
        }])
    );
}

#[test]
fn decode_memory_min_only_test() {
    // (memory 1) => flags = 0, min = 1, no max
    let module = wat::parse_str("(module (memory 1))").unwrap();
    let mut module_parsed = AwwasmModule::new(&module).unwrap();
    module_parsed.resolve_all_sections().unwrap();

    let memories = module_parsed.memories.as_ref().expect("memories should exist");
    assert_eq!(memories.len(), 1);
    let m = &memories[0];
    assert_eq!(m.limits.flags, 0);
    assert_eq!(m.limits.min, 1);
    assert!(m.limits.max.is_none());
}

#[test]
fn decode_memory_min_max_test() {
    // (memory 1 2) => flags = 1, min = 1, max = 2
    let module = wat::parse_str("(module (memory 1 2))").unwrap();
    let mut module_parsed = AwwasmModule::new(&module).unwrap();
    module_parsed.resolve_all_sections().unwrap();

    let memories = module_parsed.memories.as_ref().expect("memories should exist");
    assert_eq!(memories.len(), 1);
    let m = &memories[0];
    assert_eq!(m.limits.flags, 1);
    assert_eq!(m.limits.min, 1);
    assert_eq!(m.limits.max, Some(2));
}

#[test]
fn decode_import_memory_and_function_test() {
    // Import a memory and a function; ensure both decode correctly
    let module = wat::parse_str(
        r#"
            (module
            (import "env" "mem" (memory 1 2))
            (import "env" "add1" (func (param i32) (result i32)))
            )
        "#,
    )
    .unwrap();
    let mut module_parsed = AwwasmModule::new(&module).unwrap();
    module_parsed.resolve_all_sections().unwrap();

    // Validate imports
    let imports = module_parsed.imports.as_ref().expect("imports should exist");
    assert_eq!(imports.len(), 2);

    // memory import
    let i0 = &imports[0];
    assert_eq!(i0.module.bytes, b"env");
    assert_eq!(i0.name.bytes, b"mem");
    assert_eq!(i0.kind, AwwasmImportKind::Memory);
    assert!(i0.func_type_idx.is_none());
    let mp = i0.mem.as_ref().expect("memory params");
    assert_eq!(mp.flags, 1);
    assert_eq!(mp.min, 1);
    assert_eq!(mp.max, Some(2));

    // function import
    let i1 = &imports[1];
    assert_eq!(i1.module.bytes, b"env");
    assert_eq!(i1.name.bytes, b"add1");
    assert_eq!(i1.kind, AwwasmImportKind::Function);
    assert!(i1.mem.is_none());
    // Function imports reference a type index; with this single func type it should be 0
    assert_eq!(i1.func_type_idx, Some(0));

    // validate the generated type section as well
    let types = module_parsed.types.as_ref().expect("types should exist");
    assert_eq!(types.len(), 1);
    assert_eq!(types[0].type_magic, vec![0x60]);
    assert_eq!(types[0].fn_args, vec![ParamType::I32]);
    assert_eq!(types[0].fn_rets, vec![ParamType::I32]);
}

#[test]
fn decode_export_memory_and_function_test() {
    // Define a module with one function and one memory, and export both.
    let module = wat::parse_str(
        r#"
            (module
                (func (param i32) (result i32))
                (memory 1 2)
                (export "mem" (memory 0))
                (export "add1" (func 0))
            )
        "#,
    )
    .unwrap();
    let mut module_parsed = AwwasmModule::new(&module).unwrap();
    module_parsed.resolve_all_sections().unwrap();

    // Validate exports
    let exports = module_parsed.exports.as_ref().expect("exports should exist");
    assert_eq!(exports.len(), 2);

    // First export: memory 0 as "mem"
    let e0 = &exports[0];
    assert_eq!(e0.name.bytes, b"mem");
    assert_eq!(e0.kind, AwwasmExportKind::Memory);
    assert_eq!(e0.index, 0);

    // Second export: func 0 as "add1"
    let e1 = &exports[1];
    assert_eq!(e1.name.bytes, b"add1");
    assert_eq!(e1.kind, AwwasmExportKind::Function);
    assert_eq!(e1.index, 0);

    // validate the type section produced for the function
    let types = module_parsed.types.as_ref().expect("types should exist");
    assert_eq!(types.len(), 1);
    assert_eq!(types[0].type_magic, vec![0x60]);
    assert_eq!(types[0].fn_args, vec![ParamType::I32]);
    assert_eq!(types[0].fn_rets, vec![ParamType::I32]);
}

#[test]
fn decode_data_active_implicit_memidx_test() {
    // Active segment with implicit memidx 0 and offset i32.const 1, bytes "hi"
    let module = wat::parse_str(
        r#"
            (module
            (memory 1)
            (data (i32.const 1) "hi")
            )
        "#,
    )
    .unwrap();
    let mut module_parsed = AwwasmModule::new(&module).unwrap();
    module_parsed.resolve_all_sections().unwrap();

    let data = module_parsed.data.as_ref().expect("data should exist");
    assert_eq!(data.len(), 1);

    let seg = &data[0];
    assert_eq!(seg.header.flags, 0x00); // active, implicit memidx
    assert_eq!(seg.header.memidx, None);
    let offset = seg.header.offset.as_ref().expect("offset expr");
    assert_eq!(offset.end, 0x0b); // end opcode consumed
    assert!(!offset.code.is_empty() && offset.code[0] == 0x41); // i32.const
    assert_eq!(offset.code.last().copied(), Some(0x01)); // value 1 (LEB128)
    assert_eq!(seg.size, 2);
    assert_eq!(seg.data_bytes, b"hi");
}

#[test]
fn decode_data_active_explicit_memidx_test() {
    // Active segment with explicit memidx 1 and offset i32.const 2, bytes "x"
    let module = wat::parse_str(
        r#"
            (module
                (memory 1)
                (memory 1)
                (data 1 (i32.const 2) "x")
            )
        "#,
    )
    .unwrap();
    let mut module_parsed = AwwasmModule::new(&module).unwrap();
    module_parsed.resolve_all_sections().unwrap();

    let data = module_parsed.data.as_ref().expect("data should exist");
    assert_eq!(data.len(), 1);

    let seg = &data[0];
    assert_eq!(seg.header.flags, 0x02); // active with explicit memidx
    assert_eq!(seg.header.memidx, Some(1));
    let offset = seg.header.offset.as_ref().expect("offset expr");
    assert_eq!(offset.end, 0x0b); // end opcode consumed
    assert!(!offset.code.is_empty() && offset.code[0] == 0x41); // i32.const
    assert_eq!(offset.code.last().copied(), Some(0x02)); // value 2 (LEB128)
    assert_eq!(seg.size, 1);
    assert_eq!(seg.data_bytes, b"x");
}
