//! Section framing and on-demand resolution of section bodies.
//!
//! A section is framed as a one-byte kind tag, a declared byte length, an
//! entry count, and an opaque body of exactly `declared length` minus the
//! encoded size of the entry count.  Resolution turns the opaque body into
//! exactly `entry count` typed entries; bytes left over after the last
//! entry mean the declared length was wrong and fail the resolve.
use vstd::prelude::*;

use crate::cursor::read_u8;
use crate::cursor::spec_read_u8;
use crate::cursor::spec_take;
use crate::cursor::take_bytes;
use crate::error::AwwasmError;
use crate::types::AwwasmCodeSectionItem;
use crate::types::AwwasmDataSectionItem;
use crate::types::AwwasmExportSectionItem;
use crate::types::AwwasmFuncSectionItem;
use crate::types::AwwasmImportSectionItem;
use crate::types::AwwasmMemorySectionItem;
use crate::types::AwwasmTypeSectionItem;
use crate::types::CodeItemV;
use crate::types::DataItemV;
use crate::types::ExportItemV;
use crate::types::ImportItemV;
use crate::types::TypeItemV;
use crate::types::spec_parse_code_item;
use crate::types::spec_parse_data_item;
use crate::types::spec_parse_export_item;
use crate::types::spec_parse_func_item;
use crate::types::spec_parse_import_item;
use crate::types::spec_parse_memory_item;
use crate::types::spec_parse_type_item;
use crate::varint::parse_leb_u32;
use crate::varint::spec_parse_leb_u32;

verus! {

/// The closed set of section kinds the decoder models.  A kind tag outside
/// this set is a decode failure, never a silent skip.
#[derive(Debug, Clone, PartialEq, Eq)]
pub enum SectionCode {
    Type,
    Import,
    Function,
    Memory,
    Export,
    Code,
    Data,
}

/// The section kind a tag byte denotes, if any.
pub open spec fn spec_section_code(b: u8) -> Option<SectionCode> {
    if b == 0x01 {
        Some(SectionCode::Type)
    } else if b == 0x02 {
        Some(SectionCode::Import)
    } else if b == 0x03 {
        Some(SectionCode::Function)
    } else if b == 0x05 {
        Some(SectionCode::Memory)
    } else if b == 0x07 {
        Some(SectionCode::Export)
    } else if b == 0x0a {
        Some(SectionCode::Code)
    } else if b == 0x0b {
        Some(SectionCode::Data)
    } else {
        None
    }
}

/// A section header: the kind tag and the declared byte length of what
/// follows it.
#[derive(Debug, Clone, PartialEq, Eq)]
pub struct AwwasmSectionHeader {
    pub section_type: SectionCode,
    pub section_size: u32,
}

/// What decoding a section header at `pos` yields.
pub open spec fn spec_parse_section_header(s: Seq<u8>, pos: int) -> Result<
    (AwwasmSectionHeader, int),
    AwwasmError,
> {
    match spec_read_u8(s, pos) {
        None => Err(AwwasmError::SectionLengthMismatch),
        Some((kb, p1)) => match spec_section_code(kb) {
            None => Err(AwwasmError::UnknownSectionKind),
            Some(code) => match spec_parse_leb_u32(s, p1) {
                Err(e) => Err(e),
                Ok((size, p2)) => Ok(
                    (AwwasmSectionHeader { section_type: code, section_size: size }, p2),
                ),
            },
        },
    }
}

impl AwwasmSectionHeader {
    /// Decode a section header.
    pub fn parse(input: &[u8], pos: usize) -> (r: Result<
        (AwwasmSectionHeader, usize),
        AwwasmError,
    >)
        ensures
            ({
                let sr = spec_parse_section_header(input@, pos as int);
                match r {
                    Ok((v, p)) => sr matches Ok(sv) && sv.0 == v && sv.1 == p as int && pos < p
                        <= input@.len(),
                    Err(e) => sr matches Err(se) && se == e,
                }
            }),
    {
        let (kb, p1) = match read_u8(input, pos) {
            None => {
                return Err(AwwasmError::SectionLengthMismatch);
            },
            Some(x) => x,
        };
        let code = if kb == 0x01 {
            SectionCode::Type
        } else if kb == 0x02 {
            SectionCode::Import
        } else if kb == 0x03 {
            SectionCode::Function
        } else if kb == 0x05 {
            SectionCode::Memory
        } else if kb == 0x07 {
            SectionCode::Export
        } else if kb == 0x0a {
            SectionCode::Code
        } else if kb == 0x0b {
            SectionCode::Data
        } else {
            return Err(AwwasmError::UnknownSectionKind);
        };
        match parse_leb_u32(input, p1) {
            Err(e) => Err(e),
            Ok((size, p2)) => Ok((AwwasmSectionHeader { section_type: code, section_size: size }, p2)),
        }
    }
}

/// A framed but unresolved section: its header, its entry count, and the
/// opaque body bytes, exactly `section_size` minus the encoded size of the
/// entry-count varint of them.
#[derive(Debug, Clone, PartialEq, Eq)]
pub struct AwwasmSection {
    pub section_header: AwwasmSectionHeader,
    pub entry_count: u32,
    pub section_body: Vec<u8>,
}

/// Model of a framed section.
#[verifier::ext_equal]
pub struct SectionV {
    pub section_header: AwwasmSectionHeader,
    pub entry_count: u32,
    pub section_body: Seq<u8>,
}

impl View for AwwasmSection {
    type V = SectionV;

    open spec fn view(&self) -> SectionV {
        SectionV {
            section_header: self.section_header,
            entry_count: self.entry_count,
            section_body: self.section_body@,
        }
    }
}

/// What decoding one framed section at `pos` yields.  The body is exactly
/// `section_size` minus the encoded byte length of the entry-count varint;
/// a count field longer than the declared size, or a body running past the
/// buffer, is a `SectionLengthMismatch`.
pub open spec fn spec_parse_section(s: Seq<u8>, pos: int) -> Result<(SectionV, int), AwwasmError> {
    match spec_parse_section_header(s, pos) {
        Err(e) => Err(e),
        Ok((h, p1)) => match spec_parse_leb_u32(s, p1) {
            Err(e) => Err(e),
            Ok((cnt, p2)) => {
                let cnt_len = p2 - p1;
                if cnt_len > h.section_size {
                    Err(AwwasmError::SectionLengthMismatch)
                } else {
                    match spec_take(s, p2, h.section_size - cnt_len) {
                        None => Err(AwwasmError::SectionLengthMismatch),
                        Some((body, p3)) => Ok(
                            (
                                SectionV {
                                    section_header: h,
                                    entry_count: cnt,
                                    section_body: body,
                                },
                                p3,
                            ),
                        ),
                    }
                }
            },
        },
    }
}

impl AwwasmSection {
    /// Decode one framed section.
    pub fn parse(input: &[u8], pos: usize) -> (r: Result<(AwwasmSection, usize), AwwasmError>)
        ensures
            ({
                let sr = spec_parse_section(input@, pos as int);
                match r {
                    Ok((v, p)) => sr matches Ok(sv) && sv.0 == v@ && sv.1 == p as int && pos < p
                        <= input@.len(),
                    Err(e) => sr matches Err(se) && se == e,
                }
            }),
    {
        let (h, p1) = match AwwasmSectionHeader::parse(input, pos) {
            Err(e) => {
                return Err(e);
            },
            Ok(x) => x,
        };
        let (cnt, p2) = match parse_leb_u32(input, p1) {
            Err(e) => {
                return Err(e);
            },
            Ok(x) => x,
        };
        let cnt_len = p2 - p1;
        if cnt_len > h.section_size as usize {
            return Err(AwwasmError::SectionLengthMismatch);
        }
        match take_bytes(input, p2, h.section_size as usize - cnt_len) {
            None => Err(AwwasmError::SectionLengthMismatch),
            Some((body, p3)) => Ok(
                (AwwasmSection { section_header: h, entry_count: cnt, section_body: body }, p3),
            ),
        }
    }
}

/// The typed entries of one resolved section.  `None` records a section
/// whose body was empty, as distinct from one that decoded to entries.
pub enum SectionItem {
    TypeSectionItems(Option<Vec<AwwasmTypeSectionItem>>),
    ImportSectionItems(Option<Vec<AwwasmImportSectionItem>>),
    FunctionSectionItems(Option<Vec<AwwasmFuncSectionItem>>),
    CodeSectionItems(Option<Vec<AwwasmCodeSectionItem>>),
    MemorySectionItems(Option<Vec<AwwasmMemorySectionItem>>),
    ExportSectionItems(Option<Vec<AwwasmExportSectionItem>>),
    DataSectionItems(Option<Vec<AwwasmDataSectionItem>>),
}

/// Model of the typed entries of one resolved section.
pub enum SectionItemV {
    TypeSectionItems(Option<Seq<TypeItemV>>),
    ImportSectionItems(Option<Seq<ImportItemV>>),
    FunctionSectionItems(Option<Seq<AwwasmFuncSectionItem>>),
    CodeSectionItems(Option<Seq<CodeItemV>>),
    MemorySectionItems(Option<Seq<AwwasmMemorySectionItem>>),
    ExportSectionItems(Option<Seq<ExportItemV>>),
    DataSectionItems(Option<Seq<DataItemV>>),
}

impl View for SectionItem {
    type V = SectionItemV;

    open spec fn view(&self) -> SectionItemV {
        match self {
            SectionItem::TypeSectionItems(o) => SectionItemV::TypeSectionItems(
                match o {
                    None => None,
                    Some(v) => Some(v@.map_values(|x: AwwasmTypeSectionItem| x@)),
                },
            ),
            SectionItem::ImportSectionItems(o) => SectionItemV::ImportSectionItems(
                match o {
                    None => None,
                    Some(v) => Some(v@.map_values(|x: AwwasmImportSectionItem| x@)),
                },
            ),
            SectionItem::FunctionSectionItems(o) => SectionItemV::FunctionSectionItems(
                match o {
                    None => None,
                    Some(v) => Some(v@),
                },
            ),
            SectionItem::CodeSectionItems(o) => SectionItemV::CodeSectionItems(
                match o {
                    None => None,
                    Some(v) => Some(v@.map_values(|x: AwwasmCodeSectionItem| x@)),
                },
            ),
            SectionItem::MemorySectionItems(o) => SectionItemV::MemorySectionItems(
                match o {
                    None => None,
                    Some(v) => Some(v@),
                },
            ),
            SectionItem::ExportSectionItems(o) => SectionItemV::ExportSectionItems(
                match o {
                    None => None,
                    Some(v) => Some(v@.map_values(|x: AwwasmExportSectionItem| x@)),
                },
            ),
            SectionItem::DataSectionItems(o) => SectionItemV::DataSectionItems(
                match o {
                    None => None,
                    Some(v) => Some(v@.map_values(|x: AwwasmDataSectionItem| x@)),
                },
            ),
        }
    }
}

/// What decoding exactly `n` Type entries at `pos` yields.
pub open spec fn spec_parse_type_items(s: Seq<u8>, pos: int, n: u32) -> Result<
    (Seq<TypeItemV>, int),
    AwwasmError,
>
    decreases n,
{
    if n == 0 {
        Ok((Seq::<TypeItemV>::empty(), pos))
    } else {
        match spec_parse_type_item(s, pos) {
            Err(e) => Err(e),
            Ok((v, p1)) => match spec_parse_type_items(s, p1, (n - 1) as u32) {
                Err(e) => Err(e),
                Ok((rest, p2)) => Ok((seq![v] + rest, p2)),
            },
        }
    }
}

/// Decode exactly `n` Type entries.
pub fn parse_type_items(input: &[u8], pos: usize, n: u32) -> (r: Result<
    (Vec<AwwasmTypeSectionItem>, usize),
    AwwasmError,
>)
    requires
        pos <= input@.len(),
    ensures
        ({
            let sr = spec_parse_type_items(input@, pos as int, n);
            match r {
                Ok((v, p)) => sr matches Ok(sv) && sv.0 == v@.map_values(
                    |x: AwwasmTypeSectionItem| x@,
                ) && sv.1 == p as int && pos <= p <= input@.len(),
                Err(e) => sr matches Err(se) && se == e,
            }
        }),
    decreases n,
{
    if n == 0 {
        Ok((Vec::new(), pos))
    } else {
        match AwwasmTypeSectionItem::parse(input, pos) {
            Err(e) => Err(e),
            Ok((v, p1)) => match parse_type_items(input, p1, n - 1) {
                Err(e) => Err(e),
                Ok((mut rest, p2)) => {
                    let ghost old_rest = rest@;
                    let ghost gv = v;
                    rest.insert(0, v);
                    proof {
                        assert(rest@.map_values(|x: AwwasmTypeSectionItem| x@) =~= seq![gv@]
                            + old_rest.map_values(|x: AwwasmTypeSectionItem| x@));
                    }
                    Ok((rest, p2))
                },
            },
        }
    }
}

/// What decoding exactly `n` Import entries at `pos` yields.
pub open spec fn spec_parse_import_items(s: Seq<u8>, pos: int, n: u32) -> Result<
    (Seq<ImportItemV>, int),
    AwwasmError,
>
    decreases n,
{
    if n == 0 {
        Ok((Seq::<ImportItemV>::empty(), pos))
    } else {
        match spec_parse_import_item(s, pos) {
            Err(e) => Err(e),
            Ok((v, p1)) => match spec_parse_import_items(s, p1, (n - 1) as u32) {
                Err(e) => Err(e),
                Ok((rest, p2)) => Ok((seq![v] + rest, p2)),
            },
        }
    }
}

/// Decode exactly `n` Import entries.
pub fn parse_import_items(input: &[u8], pos: usize, n: u32) -> (r: Result<
    (Vec<AwwasmImportSectionItem>, usize),
    AwwasmError,
>)
    requires
        pos <= input@.len(),
    ensures
        ({
            let sr = spec_parse_import_items(input@, pos as int, n);
            match r {
                Ok((v, p)) => sr matches Ok(sv) && sv.0 == v@.map_values(
                    |x: AwwasmImportSectionItem| x@,
                ) && sv.1 == p as int && pos <= p <= input@.len(),
                Err(e) => sr matches Err(se) && se == e,
            }
        }),
    decreases n,
{
    if n == 0 {
        Ok((Vec::new(), pos))
    } else {
        match AwwasmImportSectionItem::parse(input, pos) {
            Err(e) => Err(e),
            Ok((v, p1)) => match parse_import_items(input, p1, n - 1) {
                Err(e) => Err(e),
                Ok((mut rest, p2)) => {
                    let ghost old_rest = rest@;
                    let ghost gv = v;
                    rest.insert(0, v);
                    proof {
                        assert(rest@.map_values(|x: AwwasmImportSectionItem| x@) =~= seq![gv@]
                            + old_rest.map_values(|x: AwwasmImportSectionItem| x@));
                    }
                    Ok((rest, p2))
                },
            },
        }
    }
}

/// What decoding exactly `n` Function entries at `pos` yields.
pub open spec fn spec_parse_func_items(s: Seq<u8>, pos: int, n: u32) -> Result<
    (Seq<AwwasmFuncSectionItem>, int),
    AwwasmError,
>
    decreases n,
{
    if n == 0 {
        Ok((Seq::<AwwasmFuncSectionItem>::empty(), pos))
    } else {
        match spec_parse_func_item(s, pos) {
            Err(e) => Err(e),
            Ok((v, p1)) => match spec_parse_func_items(s, p1, (n - 1) as u32) {
                Err(e) => Err(e),
                Ok((rest, p2)) => Ok((seq![v] + rest, p2)),
            },
        }
    }
}

/// Decode exactly `n` Function entries.
pub fn parse_func_items(input: &[u8], pos: usize, n: u32) -> (r: Result<
    (Vec<AwwasmFuncSectionItem>, usize),
    AwwasmError,
>)
    requires
        pos <= input@.len(),
    ensures
        ({
            let sr = spec_parse_func_items(input@, pos as int, n);
            match r {
                Ok((v, p)) => sr matches Ok(sv) && sv.0 == v@ && sv.1 == p as int && pos <= p
                    <= input@.len(),
                Err(e) => sr matches Err(se) && se == e,
            }
        }),
    decreases n,
{
    if n == 0 {
        Ok((Vec::new(), pos))
    } else {
        match AwwasmFuncSectionItem::parse(input, pos) {
            Err(e) => Err(e),
            Ok((v, p1)) => match parse_func_items(input, p1, n - 1) {
                Err(e) => Err(e),
                Ok((mut rest, p2)) => {
                    let ghost old_rest = rest@;
                    let ghost gv = v;
                    rest.insert(0, v);
                    proof {
                        assert(rest@ =~= seq![gv] + old_rest);
                    }
                    Ok((rest, p2))
                },
            },
        }
    }
}

/// What decoding exactly `n` Code entries at `pos` yields.
pub open spec fn spec_parse_code_items(s: Seq<u8>, pos: int, n: u32) -> Result<
    (Seq<CodeItemV>, int),
    AwwasmError,
>
    decreases n,
{
    if n == 0 {
        Ok((Seq::<CodeItemV>::empty(), pos))
    } else {
        match spec_parse_code_item(s, pos) {
            Err(e) => Err(e),
            Ok((v, p1)) => match spec_parse_code_items(s, p1, (n - 1) as u32) {
                Err(e) => Err(e),
                Ok((rest, p2)) => Ok((seq![v] + rest, p2)),
            },
        }
    }
}

/// Decode exactly `n` Code entries.
pub fn parse_code_items(input: &[u8], pos: usize, n: u32) -> (r: Result<
    (Vec<AwwasmCodeSectionItem>, usize),
    AwwasmError,
>)
    requires
        pos <= input@.len(),
    ensures
        ({
            let sr = spec_parse_code_items(input@, pos as int, n);
            match r {
                Ok((v, p)) => sr matches Ok(sv) && sv.0 == v@.map_values(
                    |x: AwwasmCodeSectionItem| x@,
                ) && sv.1 == p as int && pos <= p <= input@.len(),
                Err(e) => sr matches Err(se) && se == e,
            }
        }),
    decreases n,
{
    if n == 0 {
        Ok((Vec::new(), pos))
    } else {
        match AwwasmCodeSectionItem::parse(input, pos) {
            Err(e) => Err(e),
            Ok((v, p1)) => match parse_code_items(input, p1, n - 1) {
                Err(e) => Err(e),
                Ok((mut rest, p2)) => {
                    let ghost old_rest = rest@;
                    let ghost gv = v;
                    rest.insert(0, v);
                    proof {
                        assert(rest@.map_values(|x: AwwasmCodeSectionItem| x@) =~= seq![gv@]
                            + old_rest.map_values(|x: AwwasmCodeSectionItem| x@));
                    }
                    Ok((rest, p2))
                },
            },
        }
    }
}

/// What decoding exactly `n` Memory entries at `pos` yields.
pub open spec fn spec_parse_memory_items(s: Seq<u8>, pos: int, n: u32) -> Result<
    (Seq<AwwasmMemorySectionItem>, int),
    AwwasmError,
>
    decreases n,
{
    if n == 0 {
        Ok((Seq::<AwwasmMemorySectionItem>::empty(), pos))
    } else {
        match spec_parse_memory_item(s, pos) {
            Err(e) => Err(e),
            Ok((v, p1)) => match spec_parse_memory_items(s, p1, (n - 1) as u32) {
                Err(e) => Err(e),
                Ok((rest, p2)) => Ok((seq![v] + rest, p2)),
            },
        }
    }
}

/// Decode exactly `n` Memory entries.
pub fn parse_memory_items(input: &[u8], pos: usize, n: u32) -> (r: Result<
    (Vec<AwwasmMemorySectionItem>, usize),
    AwwasmError,
>)
    requires
        pos <= input@.len(),
    ensures
        ({
            let sr = spec_parse_memory_items(input@, pos as int, n);
            match r {
                Ok((v, p)) => sr matches Ok(sv) && sv.0 == v@ && sv.1 == p as int && pos <= p
                    <= input@.len(),
                Err(e) => sr matches Err(se) && se == e,
            }
        }),
    decreases n,
{
    if n == 0 {
        Ok((Vec::new(), pos))
    } else {
        match AwwasmMemorySectionItem::parse(input, pos) {
            Err(e) => Err(e),
            Ok((v, p1)) => match parse_memory_items(input, p1, n - 1) {
                Err(e) => Err(e),
                Ok((mut rest, p2)) => {
                    let ghost old_rest = rest@;
                    let ghost gv = v;
                    rest.insert(0, v);
                    proof {
                        assert(rest@ =~= seq![gv] + old_rest);
                    }
                    Ok((rest, p2))
                },
            },
        }
    }
}

/// What decoding exactly `n` Export entries at `pos` yields.
pub open spec fn spec_parse_export_items(s: Seq<u8>, pos: int, n: u32) -> Result<
    (Seq<ExportItemV>, int),
    AwwasmError,
>
    decreases n,
{
    if n == 0 {
        Ok((Seq::<ExportItemV>::empty(), pos))
    } else {
        match spec_parse_export_item(s, pos) {
            Err(e) => Err(e),
            Ok((v, p1)) => match spec_parse_export_items(s, p1, (n - 1) as u32) {
                Err(e) => Err(e),
                Ok((rest, p2)) => Ok((seq![v] + rest, p2)),
            },
        }
    }
}

/// Decode exactly `n` Export entries.
pub fn parse_export_items(input: &[u8], pos: usize, n: u32) -> (r: Result<
    (Vec<AwwasmExportSectionItem>, usize),
    AwwasmError,
>)
    requires
        pos <= input@.len(),
    ensures
        ({
            let sr = spec_parse_export_items(input@, pos as int, n);
            match r {
                Ok((v, p)) => sr matches Ok(sv) && sv.0 == v@.map_values(
                    |x: AwwasmExportSectionItem| x@,
                ) && sv.1 == p as int && pos <= p <= input@.len(),
                Err(e) => sr matches Err(se) && se == e,
            }
        }),
    decreases n,
{
    if n == 0 {
        Ok((Vec::new(), pos))
    } else {
        match AwwasmExportSectionItem::parse(input, pos) {
            Err(e) => Err(e),
            Ok((v, p1)) => match parse_export_items(input, p1, n - 1) {
                Err(e) => Err(e),
                Ok((mut rest, p2)) => {
                    let ghost old_rest = rest@;
                    let ghost gv = v;
                    rest.insert(0, v);
                    proof {
                        assert(rest@.map_values(|x: AwwasmExportSectionItem| x@) =~= seq![gv@]
                            + old_rest.map_values(|x: AwwasmExportSectionItem| x@));
                    }
                    Ok((rest, p2))
                },
            },
        }
    }
}

/// What decoding exactly `n` Data entries at `pos` yields.
pub open spec fn spec_parse_data_items(s: Seq<u8>, pos: int, n: u32) -> Result<
    (Seq<DataItemV>, int),
    AwwasmError,
>
    decreases n,
{
    if n == 0 {
        Ok((Seq::<DataItemV>::empty(), pos))
    } else {
        match spec_parse_data_item(s, pos) {
            Err(e) => Err(e),
            Ok((v, p1)) => match spec_parse_data_items(s, p1, (n - 1) as u32) {
                Err(e) => Err(e),
                Ok((rest, p2)) => Ok((seq![v] + rest, p2)),
            },
        }
    }
}

/// Decode exactly `n` Data entries.
pub fn parse_data_items(input: &[u8], pos: usize, n: u32) -> (r: Result<
    (Vec<AwwasmDataSectionItem>, usize),
    AwwasmError,
>)
    requires
        pos <= input@.len(),
    ensures
        ({
            let sr = spec_parse_data_items(input@, pos as int, n);
            match r {
                Ok((v, p)) => sr matches Ok(sv) && sv.0 == v@.map_values(
                    |x: AwwasmDataSectionItem| x@,
                ) && sv.1 == p as int && pos <= p <= input@.len(),
                Err(e) => sr matches Err(se) && se == e,
            }
        }),
    decreases n,
{
    if n == 0 {
        Ok((Vec::new(), pos))
    } else {
        match AwwasmDataSectionItem::parse(input, pos) {
            Err(e) => Err(e),
            Ok((v, p1)) => match parse_data_items(input, p1, n - 1) {
                Err(e) => Err(e),
                Ok((mut rest, p2)) => {
                    let ghost old_rest = rest@;
                    let ghost gv = v;
                    rest.insert(0, v);
                    proof {
                        assert(rest@.map_values(|x: AwwasmDataSectionItem| x@) =~= seq![gv@]
                            + old_rest.map_values(|x: AwwasmDataSectionItem| x@));
                    }
                    Ok((rest, p2))
                },
            },
        }
    }
}

/// What resolving a framed section yields.  An empty body resolves to no
/// entry list at all; otherwise the body must hold exactly `entry_count`
/// entries with nothing left over.
pub open spec fn spec_resolve_section(sec: SectionV) -> Result<SectionItemV, AwwasmError> {
    match sec.section_header.section_type {
        SectionCode::Type => {
            if sec.section_body.len() == 0 {
                Ok(SectionItemV::TypeSectionItems(None))
            } else {
                match spec_parse_type_items(sec.section_body, 0, sec.entry_count) {
                    Err(e) => Err(e),
                    Ok((items, p)) => {
                        if p == sec.section_body.len() {
                            Ok(SectionItemV::TypeSectionItems(Some(items)))
                        } else {
                            Err(AwwasmError::SectionLengthMismatch)
                        }
                    },
                }
            }
        },
        SectionCode::Import => {
            if sec.section_body.len() == 0 {
                Ok(SectionItemV::ImportSectionItems(None))
            } else {
                match spec_parse_import_items(sec.section_body, 0, sec.entry_count) {
                    Err(e) => Err(e),
                    Ok((items, p)) => {
                        if p == sec.section_body.len() {
                            Ok(SectionItemV::ImportSectionItems(Some(items)))
                        } else {
                            Err(AwwasmError::SectionLengthMismatch)
                        }
                    },
                }
            }
        },
        SectionCode::Function => {
            if sec.section_body.len() == 0 {
                Ok(SectionItemV::FunctionSectionItems(None))
            } else {
                match spec_parse_func_items(sec.section_body, 0, sec.entry_count) {
                    Err(e) => Err(e),
                    Ok((items, p)) => {
                        if p == sec.section_body.len() {
                            Ok(SectionItemV::FunctionSectionItems(Some(items)))
                        } else {
                            Err(AwwasmError::SectionLengthMismatch)
                        }
                    },
                }
            }
        },
        SectionCode::Code => {
            if sec.section_body.len() == 0 {
                Ok(SectionItemV::CodeSectionItems(None))
            } else {
                match spec_parse_code_items(sec.section_body, 0, sec.entry_count) {
                    Err(e) => Err(e),
                    Ok((items, p)) => {
                        if p == sec.section_body.len() {
                            Ok(SectionItemV::CodeSectionItems(Some(items)))
                        } else {
                            Err(AwwasmError::SectionLengthMismatch)
                        }
                    },
                }
            }
        },
        SectionCode::Memory => {
            if sec.section_body.len() == 0 {
                Ok(SectionItemV::MemorySectionItems(None))
            } else {
                match spec_parse_memory_items(sec.section_body, 0, sec.entry_count) {
                    Err(e) => Err(e),
                    Ok((items, p)) => {
                        if p == sec.section_body.len() {
                            Ok(SectionItemV::MemorySectionItems(Some(items)))
                        } else {
                            Err(AwwasmError::SectionLengthMismatch)
                        }
                    },
                }
            }
        },
        SectionCode::Export => {
            if sec.section_body.len() == 0 {
                Ok(SectionItemV::ExportSectionItems(None))
            } else {
                match spec_parse_export_items(sec.section_body, 0, sec.entry_count) {
                    Err(e) => Err(e),
                    Ok((items, p)) => {
                        if p == sec.section_body.len() {
                            Ok(SectionItemV::ExportSectionItems(Some(items)))
                        } else {
                            Err(AwwasmError::SectionLengthMismatch)
                        }
                    },
                }
            }
        },
        SectionCode::Data => {
            if sec.section_body.len() == 0 {
                Ok(SectionItemV::DataSectionItems(None))
            } else {
                match spec_parse_data_items(sec.section_body, 0, sec.entry_count) {
                    Err(e) => Err(e),
                    Ok((items, p)) => {
                        if p == sec.section_body.len() {
                            Ok(SectionItemV::DataSectionItems(Some(items)))
                        } else {
                            Err(AwwasmError::SectionLengthMismatch)
                        }
                    },
                }
            }
        },
    }
}

impl AwwasmSection {
    /// Resolve the opaque body into this section's typed entries.  The
    /// section itself is left exactly as it was, so resolving it again
    /// yields the same entries; the receiver stays `&mut` for callers
    /// that sequence resolution as a state change.
    pub fn resolve(&mut self) -> (r: Result<SectionItem, AwwasmError>)
        ensures
            *final(self) == *old(self),
            (match r {
                Ok(item) => spec_resolve_section(old(self)@) matches Ok(iv) && item@ == iv,
                Err(e) => spec_resolve_section(old(self)@) matches Err(se) && se == e,
            }),
    {
        resolve_section_ref(self)
    }
}

/// Resolve a framed section's body into its typed entries, reading the
/// section without changing it.
pub fn resolve_section_ref(sec: &AwwasmSection) -> (r: Result<SectionItem, AwwasmError>)
    ensures
        (match r {
            Ok(item) => spec_resolve_section(sec@) matches Ok(iv) && item@ == iv,
            Err(e) => spec_resolve_section(sec@) matches Err(se) && se == e,
        }),
{
    {
        match &sec.section_header.section_type {
            SectionCode::Type => {
                if sec.section_body.len() == 0 {
                    return Ok(SectionItem::TypeSectionItems(None));
                }
                let (items, p) = match parse_type_items(
                    sec.section_body.as_slice(),
                    0,
                    sec.entry_count,
                ) {
                    Err(e) => {
                        return Err(e);
                    },
                    Ok(x) => x,
                };
                if p != sec.section_body.len() {
                    return Err(AwwasmError::SectionLengthMismatch);
                }
                Ok(SectionItem::TypeSectionItems(Some(items)))
            },
            SectionCode::Import => {
                if sec.section_body.len() == 0 {
                    return Ok(SectionItem::ImportSectionItems(None));
                }
                let (items, p) = match parse_import_items(
                    sec.section_body.as_slice(),
                    0,
                    sec.entry_count,
                ) {
                    Err(e) => {
                        return Err(e);
                    },
                    Ok(x) => x,
                };
                if p != sec.section_body.len() {
                    return Err(AwwasmError::SectionLengthMismatch);
                }
                Ok(SectionItem::ImportSectionItems(Some(items)))
            },
            SectionCode::Function => {
                if sec.section_body.len() == 0 {
                    return Ok(SectionItem::FunctionSectionItems(None));
                }
                let (items, p) = match parse_func_items(
                    sec.section_body.as_slice(),
                    0,
                    sec.entry_count,
                ) {
                    Err(e) => {
                        return Err(e);
                    },
                    Ok(x) => x,
                };
                if p != sec.section_body.len() {
                    return Err(AwwasmError::SectionLengthMismatch);
                }
                Ok(SectionItem::FunctionSectionItems(Some(items)))
            },
            SectionCode::Code => {
                if sec.section_body.len() == 0 {
                    return Ok(SectionItem::CodeSectionItems(None));
                }
                let (items, p) = match parse_code_items(
                    sec.section_body.as_slice(),
                    0,
                    sec.entry_count,
                ) {
                    Err(e) => {
                        return Err(e);
                    },
                    Ok(x) => x,
                };
                if p != sec.section_body.len() {
                    return Err(AwwasmError::SectionLengthMismatch);
                }
                Ok(SectionItem::CodeSectionItems(Some(items)))
            },
            SectionCode::Memory => {
                if sec.section_body.len() == 0 {
                    return Ok(SectionItem::MemorySectionItems(None));
                }
                let (items, p) = match parse_memory_items(
                    sec.section_body.as_slice(),
                    0,
                    sec.entry_count,
                ) {
                    Err(e) => {
                        return Err(e);
                    },
                    Ok(x) => x,
                };
                if p != sec.section_body.len() {
                    return Err(AwwasmError::SectionLengthMismatch);
                }
                Ok(SectionItem::MemorySectionItems(Some(items)))
            },
            SectionCode::Export => {
                if sec.section_body.len() == 0 {
                    return Ok(SectionItem::ExportSectionItems(None));
                }
                let (items, p) = match parse_export_items(
                    sec.section_body.as_slice(),
                    0,
                    sec.entry_count,
                ) {
                    Err(e) => {
                        return Err(e);
                    },
                    Ok(x) => x,
                };
                if p != sec.section_body.len() {
                    return Err(AwwasmError::SectionLengthMismatch);
                }
                Ok(SectionItem::ExportSectionItems(Some(items)))
            },
            SectionCode::Data => {
                if sec.section_body.len() == 0 {
                    return Ok(SectionItem::DataSectionItems(None));
                }
                let (items, p) = match parse_data_items(
                    sec.section_body.as_slice(),
                    0,
                    sec.entry_count,
                ) {
                    Err(e) => {
                        return Err(e);
                    },
                    Ok(x) => x,
                };
                if p != sec.section_body.len() {
                    return Err(AwwasmError::SectionLengthMismatch);
                }
                Ok(SectionItem::DataSectionItems(Some(items)))
            },
        }
    }
}

} // verus!
