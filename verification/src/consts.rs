//! Byte-level constants of the module format.
use vstd::prelude::*;

verus! {

/// First byte of the module magic, `\0`.
pub const WASM_MAGIC_BYTE_0: u8 = 0x00;

/// Second byte of the module magic, `a`.
pub const WASM_MAGIC_BYTE_1: u8 = 0x61;

/// Third byte of the module magic, `s`.
pub const WASM_MAGIC_BYTE_2: u8 = 0x73;

/// Fourth byte of the module magic, `m`.
pub const WASM_MAGIC_BYTE_3: u8 = 0x6d;

/// Size in bytes of the magic field of the preamble.
pub const WASM_PREAMBLE_MAGIC_SIZE_BYTES: usize = 4;

/// Size in bytes of the version field of the preamble.
pub const WASM_PREAMBLE_VERSION_SIZE_BYTES: usize = 4;

/// Tag byte that opens every function-signature entry of the Type section.
pub const WASM_TYPE_SECTION_OPCODE_FUNC: u8 = 0x60;

/// The `end` sentinel byte that closes a block, a function body, or an
/// offset-initializer expression.
pub const WASM_FUNC_SECTION_OPCODE_END: u8 = 0x0b;

/// The `else` sentinel byte that may close the `then` region of an `if`.
pub const WASM_FUNC_SECTION_OPCODE_THEN: u8 = 0x05;

/// Reserved zero byte carried by the `memory.size` and `memory.grow` opcodes.
pub const WASM_INSTRUCTION_MEMORY_ZERO: u8 = 0x00;

/// The sequence of the four magic bytes, `\0asm`.
pub open spec fn spec_magic() -> Seq<u8> {
    seq![WASM_MAGIC_BYTE_0, WASM_MAGIC_BYTE_1, WASM_MAGIC_BYTE_2, WASM_MAGIC_BYTE_3]
}

} // verus!
