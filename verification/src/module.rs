//! The module preamble and the module assembler.
//!
//! A module is the 8-byte preamble followed by framed sections until the
//! buffer is exhausted; zero sections is valid, and a failing section fails
//! the module decode rather than being skipped.  Resolving all sections
//! populates the typed entry lists from each framed body; `None` in a
//! typed list means "not resolved", never "absent in the binary".
use vstd::prelude::*;

use crate::consts::WASM_MAGIC_BYTE_0;
use crate::consts::WASM_MAGIC_BYTE_1;
use crate::consts::WASM_MAGIC_BYTE_2;
use crate::consts::WASM_MAGIC_BYTE_3;
use crate::consts::spec_magic;
use crate::cursor::read_u32_le;
use crate::cursor::spec_read_u32_le;
use crate::error::AwwasmError;
use crate::section::AwwasmSection;
use crate::section::SectionItem;
use crate::section::SectionItemV;
use crate::section::SectionV;
use crate::section::resolve_section_ref;
use crate::section::spec_parse_section;
use crate::section::spec_resolve_section;
use crate::types::AwwasmCodeSectionItem;
use crate::types::AwwasmDataSectionItem;
use crate::types::AwwasmExportSectionItem;
use crate::types::AwwasmFuncSectionItem;
use crate::types::AwwasmImportSectionItem;
use crate::types::AwwasmMemorySectionItem;
use crate::types::AwwasmTypeSectionItem;
use crate::types::CodeItemV;
use crate::types::DataItemV;
use crate::types::ExportItemV;
use crate::types::ImportItemV;
use crate::types::TypeItemV;

verus! {

/// The module preamble: the four magic bytes and the format version.
#[derive(Debug, Clone, PartialEq, Eq)]
pub struct AwwasmModulePreamble {
    pub magic: Vec<u8>,
    pub version: u32,
}

/// Model of the preamble.
#[verifier::ext_equal]
pub struct PreambleV {
    pub magic: Seq<u8>,
    pub version: u32,
}

impl View for AwwasmModulePreamble {
    type V = PreambleV;

    open spec fn view(&self) -> PreambleV {
        PreambleV { magic: self.magic@, version: self.version }
    }
}

/// What decoding the preamble at `pos` yields.  Anything but the four
/// magic bytes is a hard `MalformedPreamble` failure; the version is read
/// as a little-endian 32-bit integer and any value of it is structurally
/// valid.
pub open spec fn spec_parse_preamble(s: Seq<u8>, pos: int) -> Result<(PreambleV, int), AwwasmError> {
    if pos < 0 || pos + 8 > s.len() {
        Err(AwwasmError::MalformedPreamble)
    } else if s[pos] != WASM_MAGIC_BYTE_0 || s[pos + 1] != WASM_MAGIC_BYTE_1 || s[pos + 2]
        != WASM_MAGIC_BYTE_2 || s[pos + 3] != WASM_MAGIC_BYTE_3 {
        Err(AwwasmError::MalformedPreamble)
    } else {
        match spec_read_u32_le(s, pos + 4) {
            None => Err(AwwasmError::MalformedPreamble),
            Some((v, p)) => Ok((PreambleV { magic: spec_magic(), version: v }, p)),
        }
    }
}

impl AwwasmModulePreamble {
    /// Decode the preamble.
    pub fn parse(input: &[u8], pos: usize) -> (r: Result<
        (AwwasmModulePreamble, usize),
        AwwasmError,
    >)
        ensures
            ({
                let sr = spec_parse_preamble(input@, pos as int);
                match r {
                    Ok((v, p)) => sr matches Ok(sv) && sv.0 == v@ && sv.1 == p as int && pos < p
                        <= input@.len(),
                    Err(e) => sr matches Err(se) && se == e,
                }
            }),
    {
        if input.len() < 8 || pos > input.len() - 8 {
            return Err(AwwasmError::MalformedPreamble);
        }
        if input[pos] != WASM_MAGIC_BYTE_0 || input[pos + 1] != WASM_MAGIC_BYTE_1 || input[pos + 2]
            != WASM_MAGIC_BYTE_2 || input[pos + 3] != WASM_MAGIC_BYTE_3 {
            return Err(AwwasmError::MalformedPreamble);
        }
        let (version, p) = match read_u32_le(input, pos + 4) {
            None => {
                return Err(AwwasmError::MalformedPreamble);
            },
            Some(x) => x,
        };
        let mut magic: Vec<u8> = Vec::new();
        magic.push(WASM_MAGIC_BYTE_0);
        magic.push(WASM_MAGIC_BYTE_1);
        magic.push(WASM_MAGIC_BYTE_2);
        magic.push(WASM_MAGIC_BYTE_3);
        proof {
            assert(magic@ =~= spec_magic());
        }
        Ok((AwwasmModulePreamble { magic, version }, p))
    }

    /// Decode the preamble from the front of a module buffer.
    pub fn new(input: &[u8]) -> (r: Result<AwwasmModulePreamble, AwwasmError>)
        ensures
            (match r {
                Ok(p) => spec_parse_preamble(input@, 0) matches Ok(sv) && sv.0 == p@,
                Err(e) => spec_parse_preamble(input@, 0) matches Err(se) && se == e,
            }),
    {
        match AwwasmModulePreamble::parse(input, 0) {
            Err(e) => Err(e),
            Ok((p, _rest)) => Ok(p),
        }
    }
}

impl Default for AwwasmModulePreamble {
    /// The preamble of a minimal module: the magic bytes and version 1.
    fn default() -> (r: Self)
        ensures
            r@.magic == spec_magic(),
            r@.version == 1,
    {
        let mut magic: Vec<u8> = Vec::new();
        magic.push(WASM_MAGIC_BYTE_0);
        magic.push(WASM_MAGIC_BYTE_1);
        magic.push(WASM_MAGIC_BYTE_2);
        magic.push(WASM_MAGIC_BYTE_3);
        proof {
            assert(magic@ =~= spec_magic());
        }
        AwwasmModulePreamble { magic, version: 1 }
    }
}

/// A decoded module: the preamble, the framed sections, and one typed
/// entry list per section kind, each populated only by
/// `resolve_all_sections`.
#[derive(Debug, Clone, PartialEq, Eq)]
pub struct AwwasmModule {
    pub preamble: AwwasmModulePreamble,
    pub sections: Option<Vec<AwwasmSection>>,
    pub types: Option<Vec<AwwasmTypeSectionItem>>,
    pub imports: Option<Vec<AwwasmImportSectionItem>>,
    pub exports: Option<Vec<AwwasmExportSectionItem>>,
    pub funcs: Option<Vec<AwwasmFuncSectionItem>>,
    pub code: Option<Vec<AwwasmCodeSectionItem>>,
    pub memories: Option<Vec<AwwasmMemorySectionItem>>,
    pub data: Option<Vec<AwwasmDataSectionItem>>,
}

/// Model of a decoded module.
#[verifier::ext_equal]
pub struct ModuleV {
    pub preamble: PreambleV,
    pub sections: Option<Seq<SectionV>>,
    pub types: Option<Seq<TypeItemV>>,
    pub imports: Option<Seq<ImportItemV>>,
    pub exports: Option<Seq<ExportItemV>>,
    pub funcs: Option<Seq<AwwasmFuncSectionItem>>,
    pub code: Option<Seq<CodeItemV>>,
    pub memories: Option<Seq<AwwasmMemorySectionItem>>,
    pub data: Option<Seq<DataItemV>>,
}

impl View for AwwasmModule {
    type V = ModuleV;

    open spec fn view(&self) -> ModuleV {
        ModuleV {
            preamble: self.preamble@,
            sections: match self.sections {
                None => None,
                Some(v) => Some(v@.map_values(|x: AwwasmSection| x@)),
            },
            types: match self.types {
                None => None,
                Some(v) => Some(v@.map_values(|x: AwwasmTypeSectionItem| x@)),
            },
            imports: match self.imports {
                None => None,
                Some(v) => Some(v@.map_values(|x: AwwasmImportSectionItem| x@)),
            },
            exports: match self.exports {
                None => None,
                Some(v) => Some(v@.map_values(|x: AwwasmExportSectionItem| x@)),
            },
            funcs: match self.funcs {
                None => None,
                Some(v) => Some(v@),
            },
            code: match self.code {
                None => None,
                Some(v) => Some(v@.map_values(|x: AwwasmCodeSectionItem| x@)),
            },
            memories: match self.memories {
                None => None,
                Some(v) => Some(v@),
            },
            data: match self.data {
                None => None,
                Some(v) => Some(v@.map_values(|x: AwwasmDataSectionItem| x@)),
            },
        }
    }
}

/// What decoding framed sections from `pos` to the end of the buffer
/// yields.  Zero sections is valid; a failing section fails the list.
pub open spec fn spec_parse_sections(s: Seq<u8>, pos: int) -> Result<(Seq<SectionV>, int), AwwasmError>
    decreases s.len() - pos,
{
    if pos < 0 {
        Err(AwwasmError::SectionLengthMismatch)
    } else if pos >= s.len() {
        Ok((Seq::<SectionV>::empty(), pos))
    } else {
        match spec_parse_section(s, pos) {
            Err(e) => Err(e),
            Ok((sec, p)) => {
                if p <= pos || p > s.len() {
                    Err(AwwasmError::SectionLengthMismatch)
                } else {
                    match spec_parse_sections(s, p) {
                        Err(e) => Err(e),
                        Ok((rest, p2)) => Ok((seq![sec] + rest, p2)),
                    }
                }
            },
        }
    }
}

/// Decode framed sections until the buffer is exhausted.
pub fn parse_sections(input: &[u8], pos: usize) -> (r: Result<(Vec<AwwasmSection>, usize), AwwasmError>)
    ensures
        ({
            let sr = spec_parse_sections(input@, pos as int);
            match r {
                Ok((v, p)) => sr matches Ok(sv) && sv.0 == v@.map_values(|x: AwwasmSection| x@)
                    && sv.1 == p as int && pos <= p && (pos as int <= input@.len() ==> p as int
                    <= input@.len()),
                Err(e) => sr matches Err(se) && se == e,
            }
        }),
    decreases input@.len() - pos,
{
    if pos >= input.len() {
        let v: Vec<AwwasmSection> = Vec::new();
        proof {
            assert(v@.map_values(|x: AwwasmSection| x@) =~= Seq::<SectionV>::empty());
        }
        return Ok((v, pos));
    }
    let (sec, p) = match AwwasmSection::parse(input, pos) {
        Err(e) => {
            return Err(e);
        },
        Ok(x) => x,
    };
    let (mut rest, p2) = match parse_sections(input, p) {
        Err(e) => {
            return Err(e);
        },
        Ok(x) => x,
    };
    let ghost old_rest = rest@;
    let ghost gs = sec;
    rest.insert(0, sec);
    proof {
        assert(rest@.map_values(|x: AwwasmSection| x@) =~= seq![gs@] + old_rest.map_values(
            |x: AwwasmSection| x@,
        ));
    }
    Ok((rest, p2))
}

/// What decoding a whole module buffer at `pos` yields: the preamble, and
/// the framed section list when any bytes follow the preamble.  All typed
/// lists start unresolved.
pub open spec fn spec_parse_module(s: Seq<u8>, pos: int) -> Result<(ModuleV, int), AwwasmError> {
    match spec_parse_preamble(s, pos) {
        Err(e) => Err(e),
        Ok((pre, p1)) => {
            if p1 >= s.len() {
                Ok(
                    (
                        ModuleV {
                            preamble: pre,
                            sections: None,
                            types: None,
                            imports: None,
                            exports: None,
                            funcs: None,
                            code: None,
                            memories: None,
                            data: None,
                        },
                        p1,
                    ),
                )
            } else {
                match spec_parse_sections(s, p1) {
                    Err(e) => Err(e),
                    Ok((secs, p2)) => Ok(
                        (
                            ModuleV {
                                preamble: pre,
                                sections: Some(secs),
                                types: None,
                                imports: None,
                                exports: None,
                                funcs: None,
                                code: None,
                                memories: None,
                                data: None,
                            },
                            p2,
                        ),
                    ),
                }
            }
        },
    }
}

impl AwwasmModule {
    /// Decode a whole module buffer into its preamble and framed sections.
    pub fn parse(input: &[u8], pos: usize) -> (r: Result<(AwwasmModule, usize), AwwasmError>)
        ensures
            ({
                let sr = spec_parse_module(input@, pos as int);
                match r {
                    Ok((m, p)) => sr matches Ok(sv) && sv.0 == m@ && sv.1 == p as int && pos < p
                        <= input@.len(),
                    Err(e) => sr matches Err(se) && se == e,
                }
            }),
    {
        let (pre, p1) = match AwwasmModulePreamble::parse(input, pos) {
            Err(e) => {
                return Err(e);
            },
            Ok(x) => x,
        };
        if p1 >= input.len() {
            return Ok(
                (
                    AwwasmModule {
                        preamble: pre,
                        sections: None,
                        types: None,
                        imports: None,
                        exports: None,
                        funcs: None,
                        code: None,
                        memories: None,
                        data: None,
                    },
                    p1,
                ),
            );
        }
        let (secs, p2) = match parse_sections(input, p1) {
            Err(e) => {
                return Err(e);
            },
            Ok(x) => x,
        };
        Ok(
            (
                AwwasmModule {
                    preamble: pre,
                    sections: Some(secs),
                    types: None,
                    imports: None,
                    exports: None,
                    funcs: None,
                    code: None,
                    memories: None,
                    data: None,
                },
                p2,
            ),
        )
    }

    /// Decode a complete module buffer.
    pub fn new(input: &[u8]) -> (r: Result<AwwasmModule, AwwasmError>)
        ensures
            (match r {
                Ok(m) => spec_parse_module(input@, 0) matches Ok(sv) && sv.0 == m@,
                Err(e) => spec_parse_module(input@, 0) matches Err(se) && se == e,
            }),
    {
        match AwwasmModule::parse(input, 0) {
            Err(e) => Err(e),
            Ok((m, _rest)) => Ok(m),
        }
    }
}

impl Default for AwwasmModule {
    /// A module holding only the default preamble, nothing framed and
    /// nothing resolved.
    fn default() -> (r: Self)
        ensures
            r@.preamble.magic == spec_magic(),
            r@.preamble.version == 1,
            r@.sections is None,
            r@.types is None,
            r@.imports is None,
            r@.exports is None,
            r@.funcs is None,
            r@.code is None,
            r@.memories is None,
            r@.data is None,
    {
        AwwasmModule {
            preamble: AwwasmModulePreamble::default(),
            sections: None,
            types: None,
            imports: None,
            exports: None,
            funcs: None,
            code: None,
            memories: None,
            data: None,
        }
    }
}

/// The module with one resolved section's entries attached to the typed
/// list of that section's kind.
pub open spec fn spec_assign_item(m: ModuleV, item: SectionItemV) -> ModuleV {
    match item {
        SectionItemV::TypeSectionItems(x) => ModuleV {
            preamble: m.preamble,
            sections: m.sections,
            types: x,
            imports: m.imports,
            exports: m.exports,
            funcs: m.funcs,
            code: m.code,
            memories: m.memories,
            data: m.data,
        },
        SectionItemV::ImportSectionItems(x) => ModuleV {
            preamble: m.preamble,
            sections: m.sections,
            types: m.types,
            imports: x,
            exports: m.exports,
            funcs: m.funcs,
            code: m.code,
            memories: m.memories,
            data: m.data,
        },
        SectionItemV::FunctionSectionItems(x) => ModuleV {
            preamble: m.preamble,
            sections: m.sections,
            types: m.types,
            imports: m.imports,
            exports: m.exports,
            funcs: x,
            code: m.code,
            memories: m.memories,
            data: m.data,
        },
        SectionItemV::CodeSectionItems(x) => ModuleV {
            preamble: m.preamble,
            sections: m.sections,
            types: m.types,
            imports: m.imports,
            exports: m.exports,
            funcs: m.funcs,
            code: x,
            memories: m.memories,
            data: m.data,
        },
        SectionItemV::MemorySectionItems(x) => ModuleV {
            preamble: m.preamble,
            sections: m.sections,
            types: m.types,
            imports: m.imports,
            exports: m.exports,
            funcs: m.funcs,
            code: m.code,
            memories: x,
            data: m.data,
        },
        SectionItemV::ExportSectionItems(x) => ModuleV {
            preamble: m.preamble,
            sections: m.sections,
            types: m.types,
            imports: m.imports,
            exports: x,
            funcs: m.funcs,
            code: m.code,
            memories: m.memories,
            data: m.data,
        },
        SectionItemV::DataSectionItems(x) => ModuleV {
            preamble: m.preamble,
            sections: m.sections,
            types: m.types,
            imports: m.imports,
            exports: m.exports,
            funcs: m.funcs,
            code: m.code,
            memories: m.memories,
            data: x,
        },
    }
}

/// What resolving each framed section from index `i` on yields: the typed
/// entries of each, in section order, or the first failure.
pub open spec fn spec_resolve_items_from(secs: Seq<SectionV>, i: int) -> Result<
    Seq<SectionItemV>,
    AwwasmError,
>
    decreases secs.len() - i,
{
    if i < 0 {
        Err(AwwasmError::SectionLengthMismatch)
    } else if i >= secs.len() {
        Ok(Seq::<SectionItemV>::empty())
    } else {
        match spec_resolve_section(secs[i]) {
            Err(e) => Err(e),
            Ok(item) => match spec_resolve_items_from(secs, i + 1) {
                Err(e) => Err(e),
                Ok(rest) => Ok(seq![item] + rest),
            },
        }
    }
}

/// The module after attaching each resolved item from index `j` on, in
/// order, so a later section of the same kind overwrites an earlier one.
pub open spec fn spec_assign_items(m: ModuleV, items: Seq<SectionItemV>, j: int) -> ModuleV
    decreases items.len() - j,
{
    if j < 0 || j >= items.len() {
        m
    } else {
        spec_assign_items(spec_assign_item(m, items[j]), items, j + 1)
    }
}

/// What resolving every framed section of a module yields: each section's
/// typed entries attached to the list of its kind, the framed sections
/// themselves untouched.  A module with no framed sections is unchanged.
pub open spec fn spec_resolve_all(m: ModuleV) -> Result<ModuleV, AwwasmError> {
    match m.sections {
        None => Ok(m),
        Some(secs) => match spec_resolve_items_from(secs, 0) {
            Err(e) => Err(e),
            Ok(items) => Ok(spec_assign_items(m, items, 0)),
        },
    }
}

impl AwwasmModule {
    /// Resolve every framed section and attach the typed entries to this
    /// module.  On any failure nothing at all is changed; with no framed
    /// sections there is nothing to do.
    #[verifier::loop_isolation(false)]
    #[verifier::rlimit(100)]
    #[verifier::spinoff_prover]
    pub fn resolve_all_sections(&mut self) -> (r: Result<(), AwwasmError>)
        ensures
            (match r {
                Ok(u) => spec_resolve_all(old(self)@) matches Ok(mv) && final(self)@ == mv,
                Err(e) => spec_resolve_all(old(self)@) matches Err(se) && se == e
                    && *final(self) == *old(self),
            }),
    {
        let n: usize = match &self.sections {
            None => {
                return Ok(());
            },
            Some(secs) => secs.len(),
        };
        let ghost m0 = self@;
        let ghost osv = match self@.sections {
            Some(sv) => sv,
            None => Seq::<SectionV>::empty(),
        };
        let mut items: Vec<SectionItem> = Vec::new();
        let mut i: usize = 0;
        while i < n
            invariant
                *self == *old(self),
                i <= n,
                items@.len() == i as int,
                (match spec_resolve_items_from(osv, i as int) {
                    Ok(rest) => spec_resolve_items_from(osv, 0) == Ok::<
                        Seq<SectionItemV>,
                        AwwasmError,
                    >(items@.map_values(|x: SectionItem| x@) + rest),
                    Err(e) => spec_resolve_items_from(osv, 0) == Err::<
                        Seq<SectionItemV>,
                        AwwasmError,
                    >(e),
                }),
            decreases n - i,
        {
            let item = {
                let secs = self.sections.as_ref().unwrap();
                let sec = &secs[i];
                proof {
                    assert(osv[i as int] == sec@);
                }
                match resolve_section_ref(sec) {
                    Err(e) => {
                        proof {
                            assert(spec_resolve_items_from(osv, i as int) == Err::<
                                Seq<SectionItemV>,
                                AwwasmError,
                            >(e));
                        }
                        return Err(e);
                    },
                    Ok(it) => it,
                }
            };
            let ghost old_items = items@;
            items.push(item);
            i = i + 1;
            proof {
                let f = |x: SectionItem| x@;
                assert(items@.map_values(f) =~= old_items.map_values(f) + seq![f(item)]);
                match spec_resolve_items_from(osv, i as int) {
                    Ok(rest) => {
                        assert(old_items.map_values(f) + (seq![f(item)] + rest) =~= items@.map_values(
                            f,
                        ) + rest);
                    },
                    Err(_) => {},
                }
            }
        }
        let ghost oiv = items@.map_values(|x: SectionItem| x@);
        let ghost total = items@.len() as int;
        proof {
            assert(spec_resolve_items_from(osv, n as int) matches Ok(rest) ==> (oiv + rest
                =~= oiv));
        }
        while items.len() > 0
            invariant
                self.preamble == old(self).preamble,
                self.sections == old(self).sections,
                items@.len() <= total,
                oiv.subrange(total - items@.len(), total) =~= items@.map_values(
                    |x: SectionItem| x@,
                ),
                spec_assign_items(m0, oiv, 0) == spec_assign_items(self@, oiv, total
                    - items@.len()),
            decreases items@.len(),
        {
            let ghost j = total - items@.len();
            let ghost pre_m = self@;
            let ghost pre_items = items@;
            let item = items.remove(0);
            proof {
                let f = |x: SectionItem| x@;
                assert(pre_items.map_values(f)[0] == f(pre_items[0]));
                assert(oiv.subrange(j, total)[0] == oiv[j]);
                assert(item@ == oiv[j]);
                assert(items@ =~= pre_items.subrange(1, pre_items.len() as int));
            }
            match item {
                SectionItem::TypeSectionItems(x) => {
                    self.types = x;
                },
                SectionItem::ImportSectionItems(x) => {
                    self.imports = x;
                },
                SectionItem::FunctionSectionItems(x) => {
                    self.funcs = x;
                },
                SectionItem::CodeSectionItems(x) => {
                    self.code = x;
                },
                SectionItem::MemorySectionItems(x) => {
                    self.memories = x;
                },
                SectionItem::ExportSectionItems(x) => {
                    self.exports = x;
                },
                SectionItem::DataSectionItems(x) => {
                    self.data = x;
                },
            }
            proof {
                let f = |x: SectionItem| x@;
                assert(self@ =~= spec_assign_item(pre_m, oiv[j]));
                assert forall|k: int| 0 <= k < items@.len() implies items@.map_values(f)[k]
                    == oiv.subrange(j + 1, total)[k] by {
                    assert(items@.map_values(f)[k] == f(items@[k]));
                    assert(items@[k] == pre_items[k + 1]);
                    assert(pre_items.map_values(f)[k + 1] == f(pre_items[k + 1]));
                    assert(pre_items.map_values(f)[k + 1] == oiv.subrange(j, total)[k + 1]);
                    assert(oiv.subrange(j, total)[k + 1] == oiv[j + 1 + k]);
                }
                assert(oiv.subrange(total - items@.len(), total) =~= items@.map_values(f));
            }
        }
        Ok(())
    }
}

} // verus!
