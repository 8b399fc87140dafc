//! Typed section entries and their structural decoders.
//!
//! Each entry kind has an executable struct, a mathematical model of what a
//! decode of it yields (`spec_parse_*` over `Seq<u8>`), and an executable
//! `parse` proved to agree with the model byte for byte, error for error.
use vstd::prelude::*;

use crate::consts::WASM_FUNC_SECTION_OPCODE_END;
use crate::consts::WASM_TYPE_SECTION_OPCODE_FUNC;
use crate::cursor::read_u8;
use crate::cursor::scan_end;
use crate::cursor::spec_read_u8;
use crate::cursor::spec_scan_end;
use crate::cursor::spec_take;
use crate::cursor::take_bytes;
use crate::error::AwwasmError;
use crate::varint::parse_leb_u32;
use crate::varint::spec_parse_leb_u32;

verus! {

/// A value type of a function signature.  `IUnknown` is a structural
/// default only: no byte decodes to it.
#[derive(Debug, Clone, PartialEq, Eq)]
pub enum ParamType {
    IUnknown,
    I32,
    I64,
}

impl Default for ParamType {
    fn default() -> (r: Self)
        ensures
            r == ParamType::IUnknown,
    {
        ParamType::IUnknown
    }
}

/// The value type a tag byte denotes, if any: `0x7f` is `I32`, `0x7e` is
/// `I64`.
pub open spec fn spec_param_type(b: u8) -> Option<ParamType> {
    if b == 0x7f {
        Some(ParamType::I32)
    } else if b == 0x7e {
        Some(ParamType::I64)
    } else {
        None
    }
}

/// What decoding one value-type tag at `pos` yields.
pub open spec fn spec_parse_param_type(s: Seq<u8>, pos: int) -> Result<(ParamType, int), AwwasmError> {
    match spec_read_u8(s, pos) {
        None => Err(AwwasmError::SectionLengthMismatch),
        Some((b, p)) => match spec_param_type(b) {
            None => Err(AwwasmError::UnknownValueType),
            Some(t) => Ok((t, p)),
        },
    }
}

impl ParamType {
    /// Decode one value-type tag.
    pub fn parse(input: &[u8], pos: usize) -> (r: Result<(ParamType, usize), AwwasmError>)
        ensures
            ({
                let sr = spec_parse_param_type(input@, pos as int);
                match r {
                    Ok((v, p)) => sr matches Ok(sv) && sv.0 == v && sv.1 == p as int && pos < p
                        <= input@.len(),
                    Err(e) => sr matches Err(se) && se == e,
                }
            }),
    {
        match read_u8(input, pos) {
            None => Err(AwwasmError::SectionLengthMismatch),
            Some((b, p)) => {
                if b == 0x7f {
                    Ok((ParamType::I32, p))
                } else if b == 0x7e {
                    Ok((ParamType::I64, p))
                } else {
                    Err(AwwasmError::UnknownValueType)
                }
            },
        }
    }
}

/// What decoding exactly `n` value-type tags at `pos` yields.
pub open spec fn spec_parse_param_types(s: Seq<u8>, pos: int, n: u32) -> Result<
    (Seq<ParamType>, int),
    AwwasmError,
>
    decreases n,
{
    if n == 0 {
        Ok((Seq::<ParamType>::empty(), pos))
    } else {
        match spec_parse_param_type(s, pos) {
            Err(e) => Err(e),
            Ok((t, p1)) => match spec_parse_param_types(s, p1, (n - 1) as u32) {
                Err(e) => Err(e),
                Ok((rest, p2)) => Ok((seq![t] + rest, p2)),
            },
        }
    }
}

/// Decode exactly `n` value-type tags.
pub fn parse_param_types(input: &[u8], pos: usize, n: u32) -> (r: Result<
    (Vec<ParamType>, usize),
    AwwasmError,
>)
    requires
        pos <= input@.len(),
    ensures
        ({
            let sr = spec_parse_param_types(input@, pos as int, n);
            match r {
                Ok((v, p)) => sr matches Ok(sv) && sv.0 == v@ && sv.1 == p as int && pos <= p
                    <= input@.len(),
                Err(e) => sr matches Err(se) && se == e,
            }
        }),
    decreases n,
{
    if n == 0 {
        Ok((Vec::new(), pos))
    } else {
        match ParamType::parse(input, pos) {
            Err(e) => Err(e),
            Ok((t, p1)) => match parse_param_types(input, p1, n - 1) {
                Err(e) => Err(e),
                Ok((mut rest, p2)) => {
                    let ghost old_rest = rest@;
                    let ghost gt = t;
                    rest.insert(0, t);
                    proof {
                        assert(rest@ =~= seq![gt] + old_rest);
                    }
                    Ok((rest, p2))
                },
            },
        }
    }
}

/// One function-signature entry of the Type section: the `0x60` tag, the
/// parameter types, and the result types, both lists varint-length-prefixed.
#[derive(Debug, Clone, PartialEq, Eq)]
pub struct AwwasmTypeSectionItem {
    pub type_magic: Vec<u8>,
    pub fn_args: Vec<ParamType>,
    pub fn_rets: Vec<ParamType>,
}

/// Model of a Type section entry.
pub struct TypeItemV {
    pub type_magic: Seq<u8>,
    pub fn_args: Seq<ParamType>,
    pub fn_rets: Seq<ParamType>,
}

impl View for AwwasmTypeSectionItem {
    type V = TypeItemV;

    open spec fn view(&self) -> TypeItemV {
        TypeItemV { type_magic: self.type_magic@, fn_args: self.fn_args@, fn_rets: self.fn_rets@ }
    }
}

/// What decoding one Type section entry at `pos` yields.  An entry that
/// does not open with the function-signature tag is `UnsupportedPayload`.
pub open spec fn spec_parse_type_item(s: Seq<u8>, pos: int) -> Result<(TypeItemV, int), AwwasmError> {
    match spec_read_u8(s, pos) {
        None => Err(AwwasmError::SectionLengthMismatch),
        Some((tag, p1)) => {
            if tag != WASM_TYPE_SECTION_OPCODE_FUNC {
                Err(AwwasmError::UnsupportedPayload)
            } else {
                match spec_parse_leb_u32(s, p1) {
                    Err(e) => Err(e),
                    Ok((argc, p2)) => match spec_parse_param_types(s, p2, argc) {
                        Err(e) => Err(e),
                        Ok((args, p3)) => match spec_parse_leb_u32(s, p3) {
                            Err(e) => Err(e),
                            Ok((retc, p4)) => match spec_parse_param_types(s, p4, retc) {
                                Err(e) => Err(e),
                                Ok((rets, p5)) => Ok(
                                    (
                                        TypeItemV {
                                            type_magic: seq![WASM_TYPE_SECTION_OPCODE_FUNC],
                                            fn_args: args,
                                            fn_rets: rets,
                                        },
                                        p5,
                                    ),
                                ),
                            },
                        },
                    },
                }
            }
        },
    }
}

impl AwwasmTypeSectionItem {
    /// Decode one Type section entry.
    pub fn parse(input: &[u8], pos: usize) -> (r: Result<
        (AwwasmTypeSectionItem, usize),
        AwwasmError,
    >)
        ensures
            ({
                let sr = spec_parse_type_item(input@, pos as int);
                match r {
                    Ok((v, p)) => sr matches Ok(sv) && sv.0 == v@ && sv.1 == p as int && pos < p
                        <= input@.len(),
                    Err(e) => sr matches Err(se) && se == e,
                }
            }),
    {
        let (tag, p1) = match read_u8(input, pos) {
            None => {
                return Err(AwwasmError::SectionLengthMismatch);
            },
            Some(x) => x,
        };
        if tag != WASM_TYPE_SECTION_OPCODE_FUNC {
            return Err(AwwasmError::UnsupportedPayload);
        }
        let (argc, p2) = match parse_leb_u32(input, p1) {
            Err(e) => {
                return Err(e);
            },
            Ok(x) => x,
        };
        let (args, p3) = match parse_param_types(input, p2, argc) {
            Err(e) => {
                return Err(e);
            },
            Ok(x) => x,
        };
        let (retc, p4) = match parse_leb_u32(input, p3) {
            Err(e) => {
                return Err(e);
            },
            Ok(x) => x,
        };
        let (rets, p5) = match parse_param_types(input, p4, retc) {
            Err(e) => {
                return Err(e);
            },
            Ok(x) => x,
        };
        let mut magic: Vec<u8> = Vec::new();
        magic.push(WASM_TYPE_SECTION_OPCODE_FUNC);
        proof {
            assert(magic@ =~= seq![WASM_TYPE_SECTION_OPCODE_FUNC]);
        }
        Ok((AwwasmTypeSectionItem { type_magic: magic, fn_args: args, fn_rets: rets }, p5))
    }
}

/// One entry of the Function section: the index of the signature, in the
/// Type section, of the function at the same position of the Code section.
#[derive(Debug, Clone, PartialEq, Eq)]
pub struct AwwasmFuncSectionItem {
    pub type_item_idx: u32,
}

/// What decoding one Function section entry at `pos` yields.
pub open spec fn spec_parse_func_item(s: Seq<u8>, pos: int) -> Result<
    (AwwasmFuncSectionItem, int),
    AwwasmError,
> {
    match spec_parse_leb_u32(s, pos) {
        Err(e) => Err(e),
        Ok((idx, p)) => Ok((AwwasmFuncSectionItem { type_item_idx: idx }, p)),
    }
}

impl AwwasmFuncSectionItem {
    /// Decode one Function section entry.
    pub fn parse(input: &[u8], pos: usize) -> (r: Result<
        (AwwasmFuncSectionItem, usize),
        AwwasmError,
    >)
        ensures
            ({
                let sr = spec_parse_func_item(input@, pos as int);
                match r {
                    Ok((v, p)) => sr matches Ok(sv) && sv.0 == v && sv.1 == p as int && pos < p
                        <= input@.len(),
                    Err(e) => sr matches Err(se) && se == e,
                }
            }),
    {
        match parse_leb_u32(input, pos) {
            Err(e) => Err(e),
            Ok((idx, p)) => Ok((AwwasmFuncSectionItem { type_item_idx: idx }, p)),
        }
    }
}

/// Memory limits: a flags varint whose bit 0 says whether a maximum
/// follows, a minimum page count, and the optional maximum page count.
#[derive(Debug, Clone, PartialEq, Eq)]
pub struct AwwasmMemoryParams {
    pub flags: u32,
    pub min: u32,
    pub max: Option<u32>,
}

/// What decoding a memory-limits structure at `pos` yields.  `flags == 0`
/// yields no maximum, `flags == 1` yields the encoded maximum, and any
/// other flags value is `UnsupportedPayload` rather than a guess.
pub open spec fn spec_parse_memory_params(s: Seq<u8>, pos: int) -> Result<
    (AwwasmMemoryParams, int),
    AwwasmError,
> {
    match spec_parse_leb_u32(s, pos) {
        Err(e) => Err(e),
        Ok((flags, p1)) => {
            if flags > 1 {
                Err(AwwasmError::UnsupportedPayload)
            } else {
                match spec_parse_leb_u32(s, p1) {
                    Err(e) => Err(e),
                    Ok((min, p2)) => {
                        if flags == 1 {
                            match spec_parse_leb_u32(s, p2) {
                                Err(e) => Err(e),
                                Ok((mx, p3)) => Ok(
                                    (AwwasmMemoryParams { flags, min, max: Some(mx) }, p3),
                                ),
                            }
                        } else {
                            Ok((AwwasmMemoryParams { flags, min, max: None }, p2))
                        }
                    },
                }
            }
        },
    }
}

impl AwwasmMemoryParams {
    /// Decode a memory-limits structure.
    pub fn parse(input: &[u8], pos: usize) -> (r: Result<
        (AwwasmMemoryParams, usize),
        AwwasmError,
    >)
        ensures
            ({
                let sr = spec_parse_memory_params(input@, pos as int);
                match r {
                    Ok((v, p)) => sr matches Ok(sv) && sv.0 == v && sv.1 == p as int && pos < p
                        <= input@.len(),
                    Err(e) => sr matches Err(se) && se == e,
                }
            }),
    {
        let (flags, p1) = match parse_leb_u32(input, pos) {
            Err(e) => {
                return Err(e);
            },
            Ok(x) => x,
        };
        if flags > 1 {
            return Err(AwwasmError::UnsupportedPayload);
        }
        let (min, p2) = match parse_leb_u32(input, p1) {
            Err(e) => {
                return Err(e);
            },
            Ok(x) => x,
        };
        if flags == 1 {
            match parse_leb_u32(input, p2) {
                Err(e) => Err(e),
                Ok((mx, p3)) => Ok((AwwasmMemoryParams { flags, min, max: Some(mx) }, p3)),
            }
        } else {
            Ok((AwwasmMemoryParams { flags, min, max: None }, p2))
        }
    }
}

/// One entry of the Memory section: a memory-limits structure.
#[derive(Debug, Clone, PartialEq, Eq)]
pub struct AwwasmMemorySectionItem {
    pub limits: AwwasmMemoryParams,
}

/// What decoding one Memory section entry at `pos` yields.
pub open spec fn spec_parse_memory_item(s: Seq<u8>, pos: int) -> Result<
    (AwwasmMemorySectionItem, int),
    AwwasmError,
> {
    match spec_parse_memory_params(s, pos) {
        Err(e) => Err(e),
        Ok((mp, p)) => Ok((AwwasmMemorySectionItem { limits: mp }, p)),
    }
}

impl AwwasmMemorySectionItem {
    /// Decode one Memory section entry.
    pub fn parse(input: &[u8], pos: usize) -> (r: Result<
        (AwwasmMemorySectionItem, usize),
        AwwasmError,
    >)
        ensures
            ({
                let sr = spec_parse_memory_item(input@, pos as int);
                match r {
                    Ok((v, p)) => sr matches Ok(sv) && sv.0 == v && sv.1 == p as int && pos < p
                        <= input@.len(),
                    Err(e) => sr matches Err(se) && se == e,
                }
            }),
    {
        match AwwasmMemoryParams::parse(input, pos) {
            Err(e) => Err(e),
            Ok((mp, p)) => Ok((AwwasmMemorySectionItem { limits: mp }, p)),
        }
    }
}

/// A varint-length-prefixed name.
#[derive(Debug, Clone, PartialEq, Eq)]
pub struct AwwasmName {
    pub len: u32,
    pub bytes: Vec<u8>,
}

/// Model of a length-prefixed name.
pub struct NameV {
    pub len: u32,
    pub bytes: Seq<u8>,
}

impl View for AwwasmName {
    type V = NameV;

    open spec fn view(&self) -> NameV {
        NameV { len: self.len, bytes: self.bytes@ }
    }
}

/// What decoding a length-prefixed name at `pos` yields.
pub open spec fn spec_parse_name(s: Seq<u8>, pos: int) -> Result<(NameV, int), AwwasmError> {
    match spec_parse_leb_u32(s, pos) {
        Err(e) => Err(e),
        Ok((len, p1)) => match spec_take(s, p1, len as int) {
            None => Err(AwwasmError::SectionLengthMismatch),
            Some((bs, p2)) => Ok((NameV { len, bytes: bs }, p2)),
        },
    }
}

impl AwwasmName {
    /// Decode a length-prefixed name.
    pub fn parse(input: &[u8], pos: usize) -> (r: Result<(AwwasmName, usize), AwwasmError>)
        ensures
            ({
                let sr = spec_parse_name(input@, pos as int);
                match r {
                    Ok((v, p)) => sr matches Ok(sv) && sv.0 == v@ && sv.1 == p as int && pos < p
                        <= input@.len(),
                    Err(e) => sr matches Err(se) && se == e,
                }
            }),
    {
        let (len, p1) = match parse_leb_u32(input, pos) {
            Err(e) => {
                return Err(e);
            },
            Ok(x) => x,
        };
        match take_bytes(input, p1, len as usize) {
            None => Err(AwwasmError::SectionLengthMismatch),
            Some((bs, p2)) => Ok((AwwasmName { len, bytes: bs }, p2)),
        }
    }
}

/// One local-variable declaration of a function body: a repeat count and
/// the value type it repeats.
#[derive(Debug, Default, Clone, PartialEq, Eq)]
pub struct AwwasmFunctionLocals {
    pub type_count: u32,
    pub param_type: ParamType,
}

/// What decoding one local-variable declaration at `pos` yields.
pub open spec fn spec_parse_local(s: Seq<u8>, pos: int) -> Result<
    (AwwasmFunctionLocals, int),
    AwwasmError,
> {
    match spec_parse_leb_u32(s, pos) {
        Err(e) => Err(e),
        Ok((cnt, p1)) => match spec_parse_param_type(s, p1) {
            Err(e) => Err(e),
            Ok((t, p2)) => Ok((AwwasmFunctionLocals { type_count: cnt, param_type: t }, p2)),
        },
    }
}

impl AwwasmFunctionLocals {
    /// Decode one local-variable declaration.
    pub fn parse(input: &[u8], pos: usize) -> (r: Result<
        (AwwasmFunctionLocals, usize),
        AwwasmError,
    >)
        ensures
            ({
                let sr = spec_parse_local(input@, pos as int);
                match r {
                    Ok((v, p)) => sr matches Ok(sv) && sv.0 == v && sv.1 == p as int && pos < p
                        <= input@.len(),
                    Err(e) => sr matches Err(se) && se == e,
                }
            }),
    {
        let (cnt, p1) = match parse_leb_u32(input, pos) {
            Err(e) => {
                return Err(e);
            },
            Ok(x) => x,
        };
        match ParamType::parse(input, p1) {
            Err(e) => Err(e),
            Ok((t, p2)) => Ok((AwwasmFunctionLocals { type_count: cnt, param_type: t }, p2)),
        }
    }
}

/// What decoding exactly `n` local-variable declarations at `pos` yields.
pub open spec fn spec_parse_locals(s: Seq<u8>, pos: int, n: u32) -> Result<
    (Seq<AwwasmFunctionLocals>, int),
    AwwasmError,
>
    decreases n,
{
    if n == 0 {
        Ok((Seq::<AwwasmFunctionLocals>::empty(), pos))
    } else {
        match spec_parse_local(s, pos) {
            Err(e) => Err(e),
            Ok((l, p1)) => match spec_parse_locals(s, p1, (n - 1) as u32) {
                Err(e) => Err(e),
                Ok((rest, p2)) => Ok((seq![l] + rest, p2)),
            },
        }
    }
}

/// Decode exactly `n` local-variable declarations.
pub fn parse_locals(input: &[u8], pos: usize, n: u32) -> (r: Result<
    (Vec<AwwasmFunctionLocals>, usize),
    AwwasmError,
>)
    requires
        pos <= input@.len(),
    ensures
        ({
            let sr = spec_parse_locals(input@, pos as int, n);
            match r {
                Ok((v, p)) => sr matches Ok(sv) && sv.0 == v@ && sv.1 == p as int && pos <= p
                    <= input@.len(),
                Err(e) => sr matches Err(se) && se == e,
            }
        }),
    decreases n,
{
    if n == 0 {
        Ok((Vec::new(), pos))
    } else {
        match AwwasmFunctionLocals::parse(input, pos) {
            Err(e) => Err(e),
            Ok((l, p1)) => match parse_locals(input, p1, n - 1) {
                Err(e) => Err(e),
                Ok((mut rest, p2)) => {
                    let ghost old_rest = rest@;
                    let ghost gl = l;
                    rest.insert(0, l);
                    proof {
                        assert(rest@ =~= seq![gl] + old_rest);
                    }
                    Ok((rest, p2))
                },
            },
        }
    }
}

/// A resolved function body: its local-variable declarations followed by
/// the raw instruction-stream bytes up to, and not including, the first
/// `end` sentinel.  The field holding the declarations keeps the name the
/// entry has on the wire side.
#[derive(Debug, Default, Clone, PartialEq, Eq)]
pub struct AwwasmFunction {
    pub fn_rets: Vec<AwwasmFunctionLocals>,
    pub code: Vec<u8>,
}

/// Model of a resolved function body.
pub struct FunctionV {
    pub fn_rets: Seq<AwwasmFunctionLocals>,
    pub code: Seq<u8>,
}

impl View for AwwasmFunction {
    type V = FunctionV;

    open spec fn view(&self) -> FunctionV {
        FunctionV { fn_rets: self.fn_rets@, code: self.code@ }
    }
}

/// What decoding a function body at `pos` yields: a varint-counted list of
/// local declarations, then every byte up to the first `end` sentinel.
/// The sentinel itself is not consumed.
pub open spec fn spec_parse_function(s: Seq<u8>, pos: int) -> Result<(FunctionV, int), AwwasmError> {
    match spec_parse_leb_u32(s, pos) {
        Err(e) => Err(e),
        Ok((n, p1)) => match spec_parse_locals(s, p1, n) {
            Err(e) => Err(e),
            Ok((locals, p2)) => {
                let e = spec_scan_end(s, p2);
                Ok((FunctionV { fn_rets: locals, code: s.subrange(p2, e) }, e))
            },
        },
    }
}

impl AwwasmFunction {
    /// Decode a function body.
    pub fn parse(input: &[u8], pos: usize) -> (r: Result<(AwwasmFunction, usize), AwwasmError>)
        ensures
            ({
                let sr = spec_parse_function(input@, pos as int);
                match r {
                    Ok((v, p)) => sr matches Ok(sv) && sv.0 == v@ && sv.1 == p as int && pos < p
                        <= input@.len(),
                    Err(e) => sr matches Err(se) && se == e,
                }
            }),
    {
        let (n, p1) = match parse_leb_u32(input, pos) {
            Err(e) => {
                return Err(e);
            },
            Ok(x) => x,
        };
        let (locals, p2) = match parse_locals(input, p1, n) {
            Err(e) => {
                return Err(e);
            },
            Ok(x) => x,
        };
        let e = scan_end(input, p2);
        let code_slice = vstd::slice::slice_subrange(input, p2, e);
        let code = vstd::slice::slice_to_vec(code_slice);
        Ok((AwwasmFunction { fn_rets: locals, code }, e))
    }
}

/// One entry of the Code section: a declared body byte length and that
/// many raw body bytes.  `parsed_func` is populated only by `resolve`.
#[derive(Debug, Clone, PartialEq, Eq)]
pub struct AwwasmCodeSectionItem {
    pub fn_body_size: u32,
    pub func_body: Vec<u8>,
    pub parsed_func: Option<AwwasmFunction>,
}

/// Model of a Code section entry.
#[verifier::ext_equal]
pub struct CodeItemV {
    pub fn_body_size: u32,
    pub func_body: Seq<u8>,
    pub parsed_func: Option<FunctionV>,
}

impl View for AwwasmCodeSectionItem {
    type V = CodeItemV;

    open spec fn view(&self) -> CodeItemV {
        CodeItemV {
            fn_body_size: self.fn_body_size,
            func_body: self.func_body@,
            parsed_func: match self.parsed_func {
                None => None,
                Some(f) => Some(f@),
            },
        }
    }
}

/// What decoding one Code section entry at `pos` yields: the declared
/// length and exactly that many raw bytes, not yet resolved.
pub open spec fn spec_parse_code_item(s: Seq<u8>, pos: int) -> Result<(CodeItemV, int), AwwasmError> {
    match spec_parse_leb_u32(s, pos) {
        Err(e) => Err(e),
        Ok((size, p1)) => match spec_take(s, p1, size as int) {
            None => Err(AwwasmError::SectionLengthMismatch),
            Some((body, p2)) => Ok(
                (CodeItemV { fn_body_size: size, func_body: body, parsed_func: None }, p2),
            ),
        },
    }
}

/// What resolving a Code section entry yields.  An entry whose raw body is
/// already empty is left alone, except that any previous resolution is
/// discarded; otherwise the body is decoded as a function and replaced by
/// its own unconsumed trailing bytes, normally just the `end` sentinel.
pub open spec fn spec_resolve_code_item(c: CodeItemV) -> Result<CodeItemV, AwwasmError> {
    if c.func_body.len() == 0 {
        Ok(CodeItemV { fn_body_size: c.fn_body_size, func_body: c.func_body, parsed_func: None })
    } else {
        match spec_parse_function(c.func_body, 0) {
            Err(e) => Err(e),
            Ok((f, p)) => Ok(
                CodeItemV {
                    fn_body_size: c.fn_body_size,
                    func_body: c.func_body.subrange(p, c.func_body.len() as int),
                    parsed_func: Some(f),
                },
            ),
        }
    }
}

impl AwwasmCodeSectionItem {
    /// Decode one Code section entry.
    pub fn parse(input: &[u8], pos: usize) -> (r: Result<
        (AwwasmCodeSectionItem, usize),
        AwwasmError,
    >)
        ensures
            ({
                let sr = spec_parse_code_item(input@, pos as int);
                match r {
                    Ok((v, p)) => sr matches Ok(sv) && sv.0 == v@ && sv.1 == p as int && pos < p
                        <= input@.len(),
                    Err(e) => sr matches Err(se) && se == e,
                }
            }),
    {
        let (size, p1) = match parse_leb_u32(input, pos) {
            Err(e) => {
                return Err(e);
            },
            Ok(x) => x,
        };
        match take_bytes(input, p1, size as usize) {
            None => Err(AwwasmError::SectionLengthMismatch),
            Some((body, p2)) => Ok(
                (AwwasmCodeSectionItem { fn_body_size: size, func_body: body, parsed_func: None }, p2),
            ),
        }
    }

    /// Resolve the raw body into local declarations and instruction bytes,
    /// in place.  A body that is already empty is not decoded again: the
    /// call succeeds and only clears any previous resolution, so resolving
    /// twice cannot misread leftover bytes as a fresh body.
    pub fn resolve(&mut self) -> (r: Result<(), AwwasmError>)
        ensures
            (match r {
                Ok(u) => spec_resolve_code_item(old(self)@) matches Ok(cv) && final(self)@ == cv,
                Err(e) => spec_resolve_code_item(old(self)@) matches Err(se) && se == e
                    && *final(self) == *old(self),
            }),
            old(self)@.func_body.len() == 0 ==> r is Ok
                && final(self)@.func_body == old(self)@.func_body
                && final(self)@.parsed_func is None,
    {
        if self.func_body.len() == 0 {
            self.parsed_func = None;
            return Ok(());
        }
        let (f, p) = match AwwasmFunction::parse(self.func_body.as_slice(), 0) {
            Err(e) => {
                return Err(e);
            },
            Ok(x) => x,
        };
        let rest_slice = vstd::slice::slice_subrange(self.func_body.as_slice(), p, self.func_body.len());
        let rest = vstd::slice::slice_to_vec(rest_slice);
        self.func_body = rest;
        self.parsed_func = Some(f);
        Ok(())
    }
}

/// The kind tag of an Import section entry.
#[derive(Debug, Clone, PartialEq, Eq)]
pub enum AwwasmImportKind {
    Function,
    Table,
    Memory,
    Global,
}

/// The import kind a tag byte denotes, if any.
pub open spec fn spec_import_kind(b: u8) -> Option<AwwasmImportKind> {
    if b == 0x00 {
        Some(AwwasmImportKind::Function)
    } else if b == 0x01 {
        Some(AwwasmImportKind::Table)
    } else if b == 0x02 {
        Some(AwwasmImportKind::Memory)
    } else if b == 0x03 {
        Some(AwwasmImportKind::Global)
    } else {
        None
    }
}

/// One entry of the Import section: two names, a kind, and the payload the
/// kind conditions.  A Function import carries a type index and a Memory
/// import carries memory limits; the two are mutually exclusive.
#[derive(Debug, Clone, PartialEq, Eq)]
pub struct AwwasmImportSectionItem {
    pub module: AwwasmName,
    pub name: AwwasmName,
    pub kind: AwwasmImportKind,
    pub func_type_idx: Option<u32>,
    pub mem: Option<AwwasmMemoryParams>,
}

/// Model of an Import section entry.
#[verifier::ext_equal]
pub struct ImportItemV {
    pub module: NameV,
    pub name: NameV,
    pub kind: AwwasmImportKind,
    pub func_type_idx: Option<u32>,
    pub mem: Option<AwwasmMemoryParams>,
}

impl View for AwwasmImportSectionItem {
    type V = ImportItemV;

    open spec fn view(&self) -> ImportItemV {
        ImportItemV {
            module: self.module@,
            name: self.name@,
            kind: self.kind,
            func_type_idx: self.func_type_idx,
            mem: self.mem,
        }
    }
}

/// What decoding one Import section entry at `pos` yields.  Table and
/// Global imports are recognized at the tag level but their payload layout
/// is not modeled: they fail with `UnsupportedPayload` rather than
/// misaligning every read that follows.
pub open spec fn spec_parse_import_item(s: Seq<u8>, pos: int) -> Result<
    (ImportItemV, int),
    AwwasmError,
> {
    match spec_parse_name(s, pos) {
        Err(e) => Err(e),
        Ok((m, p1)) => match spec_parse_name(s, p1) {
            Err(e) => Err(e),
            Ok((nm, p2)) => match spec_read_u8(s, p2) {
                None => Err(AwwasmError::SectionLengthMismatch),
                Some((kb, p3)) => match spec_import_kind(kb) {
                    None => Err(AwwasmError::UnsupportedPayload),
                    Some(kind) => {
                        if kind == AwwasmImportKind::Function {
                            match spec_parse_leb_u32(s, p3) {
                                Err(e) => Err(e),
                                Ok((idx, p4)) => Ok(
                                    (
                                        ImportItemV {
                                            module: m,
                                            name: nm,
                                            kind,
                                            func_type_idx: Some(idx),
                                            mem: None,
                                        },
                                        p4,
                                    ),
                                ),
                            }
                        } else if kind == AwwasmImportKind::Memory {
                            match spec_parse_memory_params(s, p3) {
                                Err(e) => Err(e),
                                Ok((mp, p4)) => Ok(
                                    (
                                        ImportItemV {
                                            module: m,
                                            name: nm,
                                            kind,
                                            func_type_idx: None,
                                            mem: Some(mp),
                                        },
                                        p4,
                                    ),
                                ),
                            }
                        } else {
                            Err(AwwasmError::UnsupportedPayload)
                        }
                    },
                },
            },
        },
    }
}

impl AwwasmImportSectionItem {
    /// Decode one Import section entry.
    pub fn parse(input: &[u8], pos: usize) -> (r: Result<
        (AwwasmImportSectionItem, usize),
        AwwasmError,
    >)
        ensures
            ({
                let sr = spec_parse_import_item(input@, pos as int);
                match r {
                    Ok((v, p)) => sr matches Ok(sv) && sv.0 == v@ && sv.1 == p as int && pos < p
                        <= input@.len(),
                    Err(e) => sr matches Err(se) && se == e,
                }
            }),
    {
        let (m, p1) = match AwwasmName::parse(input, pos) {
            Err(e) => {
                return Err(e);
            },
            Ok(x) => x,
        };
        let (nm, p2) = match AwwasmName::parse(input, p1) {
            Err(e) => {
                return Err(e);
            },
            Ok(x) => x,
        };
        let (kb, p3) = match read_u8(input, p2) {
            None => {
                return Err(AwwasmError::SectionLengthMismatch);
            },
            Some(x) => x,
        };
        if kb == 0x00 {
            match parse_leb_u32(input, p3) {
                Err(e) => Err(e),
                Ok((idx, p4)) => Ok(
                    (
                        AwwasmImportSectionItem {
                            module: m,
                            name: nm,
                            kind: AwwasmImportKind::Function,
                            func_type_idx: Some(idx),
                            mem: None,
                        },
                        p4,
                    ),
                ),
            }
        } else if kb == 0x02 {
            match AwwasmMemoryParams::parse(input, p3) {
                Err(e) => Err(e),
                Ok((mp, p4)) => Ok(
                    (
                        AwwasmImportSectionItem {
                            module: m,
                            name: nm,
                            kind: AwwasmImportKind::Memory,
                            func_type_idx: None,
                            mem: Some(mp),
                        },
                        p4,
                    ),
                ),
            }
        } else {
            Err(AwwasmError::UnsupportedPayload)
        }
    }
}

/// The kind tag of an Export section entry.
#[derive(Debug, Clone, PartialEq, Eq)]
pub enum AwwasmExportKind {
    Function,
    Table,
    Memory,
    Global,
}

/// The export kind a tag byte denotes, if any.
pub open spec fn spec_export_kind(b: u8) -> Option<AwwasmExportKind> {
    if b == 0x00 {
        Some(AwwasmExportKind::Function)
    } else if b == 0x01 {
        Some(AwwasmExportKind::Table)
    } else if b == 0x02 {
        Some(AwwasmExportKind::Memory)
    } else if b == 0x03 {
        Some(AwwasmExportKind::Global)
    } else {
        None
    }
}

/// One entry of the Export section: a name, a kind, and the index of the
/// exported item.  No payload is conditioned on the kind.
#[derive(Debug, Clone, PartialEq, Eq)]
pub struct AwwasmExportSectionItem {
    pub name: AwwasmName,
    pub kind: AwwasmExportKind,
    pub index: u32,
}

/// Model of an Export section entry.
#[verifier::ext_equal]
pub struct ExportItemV {
    pub name: NameV,
    pub kind: AwwasmExportKind,
    pub index: u32,
}

impl View for AwwasmExportSectionItem {
    type V = ExportItemV;

    open spec fn view(&self) -> ExportItemV {
        ExportItemV { name: self.name@, kind: self.kind, index: self.index }
    }
}

/// What decoding one Export section entry at `pos` yields.
pub open spec fn spec_parse_export_item(s: Seq<u8>, pos: int) -> Result<
    (ExportItemV, int),
    AwwasmError,
> {
    match spec_parse_name(s, pos) {
        Err(e) => Err(e),
        Ok((nm, p1)) => match spec_read_u8(s, p1) {
            None => Err(AwwasmError::SectionLengthMismatch),
            Some((kb, p2)) => match spec_export_kind(kb) {
                None => Err(AwwasmError::UnsupportedPayload),
                Some(kind) => match spec_parse_leb_u32(s, p2) {
                    Err(e) => Err(e),
                    Ok((idx, p3)) => Ok((ExportItemV { name: nm, kind, index: idx }, p3)),
                },
            },
        },
    }
}

impl AwwasmExportSectionItem {
    /// Decode one Export section entry.
    pub fn parse(input: &[u8], pos: usize) -> (r: Result<
        (AwwasmExportSectionItem, usize),
        AwwasmError,
    >)
        ensures
            ({
                let sr = spec_parse_export_item(input@, pos as int);
                match r {
                    Ok((v, p)) => sr matches Ok(sv) && sv.0 == v@ && sv.1 == p as int && pos < p
                        <= input@.len(),
                    Err(e) => sr matches Err(se) && se == e,
                }
            }),
    {
        let (nm, p1) = match AwwasmName::parse(input, pos) {
            Err(e) => {
                return Err(e);
            },
            Ok(x) => x,
        };
        let (kb, p2) = match read_u8(input, p1) {
            None => {
                return Err(AwwasmError::SectionLengthMismatch);
            },
            Some(x) => x,
        };
        let kind = if kb == 0x00 {
            AwwasmExportKind::Function
        } else if kb == 0x01 {
            AwwasmExportKind::Table
        } else if kb == 0x02 {
            AwwasmExportKind::Memory
        } else if kb == 0x03 {
            AwwasmExportKind::Global
        } else {
            return Err(AwwasmError::UnsupportedPayload);
        };
        match parse_leb_u32(input, p2) {
            Err(e) => Err(e),
            Ok((idx, p3)) => Ok((AwwasmExportSectionItem { name: nm, kind, index: idx }, p3)),
        }
    }
}

/// An offset-initializer expression of an active data segment: the raw
/// expression bytes up to the first `end` sentinel, and the sentinel byte
/// itself, which is consumed.
#[derive(Debug, Clone, PartialEq, Eq)]
pub struct AwwasmDataInitExpr {
    pub code: Vec<u8>,
    pub end: u8,
}

/// Model of an offset-initializer expression.
#[verifier::ext_equal]
pub struct DataInitExprV {
    pub code: Seq<u8>,
    pub end: u8,
}

impl View for AwwasmDataInitExpr {
    type V = DataInitExprV;

    open spec fn view(&self) -> DataInitExprV {
        DataInitExprV { code: self.code@, end: self.end }
    }
}

/// What decoding an offset-initializer at `pos` yields: every byte up to
/// the first `end` sentinel, then the sentinel, which must be present.
pub open spec fn spec_parse_data_init_expr(s: Seq<u8>, pos: int) -> Result<
    (DataInitExprV, int),
    AwwasmError,
> {
    let e = spec_scan_end(s, pos);
    match spec_read_u8(s, e) {
        None => Err(AwwasmError::SectionLengthMismatch),
        Some((end, p)) => Ok((DataInitExprV { code: s.subrange(pos, e), end }, p)),
    }
}

impl AwwasmDataInitExpr {
    /// Decode an offset-initializer expression.
    pub fn parse(input: &[u8], pos: usize) -> (r: Result<
        (AwwasmDataInitExpr, usize),
        AwwasmError,
    >)
        ensures
            ({
                let sr = spec_parse_data_init_expr(input@, pos as int);
                match r {
                    Ok((v, p)) => sr matches Ok(sv) && sv.0 == v@ && sv.1 == p as int && pos < p
                        <= input@.len(),
                    Err(e) => sr matches Err(se) && se == e,
                }
            }),
    {
        if pos >= input.len() {
            return Err(AwwasmError::SectionLengthMismatch);
        }
        let e = scan_end(input, pos);
        let (end, p) = match read_u8(input, e) {
            None => {
                return Err(AwwasmError::SectionLengthMismatch);
            },
            Some(x) => x,
        };
        let code_slice = vstd::slice::slice_subrange(input, pos, e);
        let code = vstd::slice::slice_to_vec(code_slice);
        Ok((AwwasmDataInitExpr { code, end }, p))
    }
}

/// The header of a Data section entry: a flags varint, an explicit memory
/// index only when `flags == 2`, and an offset-initializer only when the
/// segment is active (`flags` 0 or 2).
#[derive(Debug, Clone, PartialEq, Eq)]
pub struct AwwasmDataSegmentHeader {
    pub flags: u32,
    pub memidx: Option<u32>,
    pub offset: Option<AwwasmDataInitExpr>,
}

/// Model of a Data section entry header.
#[verifier::ext_equal]
pub struct DataSegmentHeaderV {
    pub flags: u32,
    pub memidx: Option<u32>,
    pub offset: Option<DataInitExprV>,
}

impl View for AwwasmDataSegmentHeader {
    type V = DataSegmentHeaderV;

    open spec fn view(&self) -> DataSegmentHeaderV {
        DataSegmentHeaderV {
            flags: self.flags,
            memidx: self.memidx,
            offset: match self.offset {
                None => None,
                Some(o) => Some(o@),
            },
        }
    }
}

/// What decoding a Data section entry header at `pos` yields.
pub open spec fn spec_parse_data_segment_header(s: Seq<u8>, pos: int) -> Result<
    (DataSegmentHeaderV, int),
    AwwasmError,
> {
    match spec_parse_leb_u32(s, pos) {
        Err(e) => Err(e),
        Ok((flags, p1)) => {
            let midx = if flags == 0x02 {
                spec_parse_leb_u32(s, p1)
            } else {
                Ok((0u32, p1))
            };
            match midx {
                Err(e) => Err(e),
                Ok((mi, p2)) => {
                    let memidx = if flags == 0x02 {
                        Some(mi)
                    } else {
                        None
                    };
                    if flags == 0x00 || flags == 0x02 {
                        match spec_parse_data_init_expr(s, p2) {
                            Err(e) => Err(e),
                            Ok((oe, p3)) => Ok(
                                (DataSegmentHeaderV { flags, memidx, offset: Some(oe) }, p3),
                            ),
                        }
                    } else {
                        Ok((DataSegmentHeaderV { flags, memidx, offset: None }, p2))
                    }
                },
            }
        },
    }
}

impl AwwasmDataSegmentHeader {
    /// Decode a Data section entry header.
    pub fn parse(input: &[u8], pos: usize) -> (r: Result<
        (AwwasmDataSegmentHeader, usize),
        AwwasmError,
    >)
        ensures
            ({
                let sr = spec_parse_data_segment_header(input@, pos as int);
                match r {
                    Ok((v, p)) => sr matches Ok(sv) && sv.0 == v@ && sv.1 == p as int && pos < p
                        <= input@.len(),
                    Err(e) => sr matches Err(se) && se == e,
                }
            }),
    {
        let (flags, p1) = match parse_leb_u32(input, pos) {
            Err(e) => {
                return Err(e);
            },
            Ok(x) => x,
        };
        let (memidx, p2) = if flags == 0x02 {
            match parse_leb_u32(input, p1) {
                Err(e) => {
                    return Err(e);
                },
                Ok((mi, p2)) => (Some(mi), p2),
            }
        } else {
            (None, p1)
        };
        if flags == 0x00 || flags == 0x02 {
            match AwwasmDataInitExpr::parse(input, p2) {
                Err(e) => Err(e),
                Ok((oe, p3)) => Ok(
                    (AwwasmDataSegmentHeader { flags, memidx, offset: Some(oe) }, p3),
                ),
            }
        } else {
            Ok((AwwasmDataSegmentHeader { flags, memidx, offset: None }, p2))
        }
    }
}

/// One entry of the Data section: its header, a declared byte length, and
/// that many raw payload bytes.
#[derive(Debug, Clone, PartialEq, Eq)]
pub struct AwwasmDataSectionItem {
    pub header: AwwasmDataSegmentHeader,
    pub size: u32,
    pub data_bytes: Vec<u8>,
}

/// Model of a Data section entry.
#[verifier::ext_equal]
pub struct DataItemV {
    pub header: DataSegmentHeaderV,
    pub size: u32,
    pub data_bytes: Seq<u8>,
}

impl View for AwwasmDataSectionItem {
    type V = DataItemV;

    open spec fn view(&self) -> DataItemV {
        DataItemV { header: self.header@, size: self.size, data_bytes: self.data_bytes@ }
    }
}

/// What decoding one Data section entry at `pos` yields.
pub open spec fn spec_parse_data_item(s: Seq<u8>, pos: int) -> Result<(DataItemV, int), AwwasmError> {
    match spec_parse_data_segment_header(s, pos) {
        Err(e) => Err(e),
        Ok((h, p1)) => match spec_parse_leb_u32(s, p1) {
            Err(e) => Err(e),
            Ok((size, p2)) => match spec_take(s, p2, size as int) {
                None => Err(AwwasmError::SectionLengthMismatch),
                Some((bs, p3)) => Ok((DataItemV { header: h, size, data_bytes: bs }, p3)),
            },
        },
    }
}

impl AwwasmDataSectionItem {
    /// Decode one Data section entry.
    pub fn parse(input: &[u8], pos: usize) -> (r: Result<
        (AwwasmDataSectionItem, usize),
        AwwasmError,
    >)
        ensures
            ({
                let sr = spec_parse_data_item(input@, pos as int);
                match r {
                    Ok((v, p)) => sr matches Ok(sv) && sv.0 == v@ && sv.1 == p as int && pos < p
                        <= input@.len(),
                    Err(e) => sr matches Err(se) && se == e,
                }
            }),
    {
        let (h, p1) = match AwwasmDataSegmentHeader::parse(input, pos) {
            Err(e) => {
                return Err(e);
            },
            Ok(x) => x,
        };
        let (size, p2) = match parse_leb_u32(input, p1) {
            Err(e) => {
                return Err(e);
            },
            Ok(x) => x,
        };
        match take_bytes(input, p2, size as usize) {
            None => Err(AwwasmError::SectionLengthMismatch),
            Some((bs, p3)) => Ok((AwwasmDataSectionItem { header: h, size, data_bytes: bs }, p3)),
        }
    }
}

} // verus!
