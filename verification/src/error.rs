//! The closed set of decode failures.
use vstd::prelude::*;

verus! {

/// A decode failure.  Every failure is terminal for the region being
/// decoded: a failing section aborts that section's resolution and a failing
/// instruction aborts that body's decode; nothing is retried or defaulted.
///
/// Reads that would run past the end of the enclosing region (a truncated
/// fixed-width field, a byte-take longer than what remains, a missing
/// sentinel) are reported as `SectionLengthMismatch`, since the region's
/// declared length is then inconsistent with what its contents need.
#[derive(Debug, Clone, Copy, PartialEq, Eq, Structural)]
pub enum AwwasmError {
    /// The module does not start with the magic bytes, or is too short to
    /// hold the preamble.
    MalformedPreamble,
    /// A section header carries a kind tag outside the modeled set.
    UnknownSectionKind,
    /// A declared byte length is inconsistent with the bytes actually
    /// consumed or available.
    SectionLengthMismatch,
    /// An instruction opcode byte outside the modeled set.
    UnknownOpcode,
    /// A value-type or block-result-type tag outside the modeled set.
    UnknownValueType,
    /// A variable-length integer is truncated or does not fit its width.
    MalformedVarint,
    /// A recognized tag whose payload shape is not implemented, such as a
    /// Table or Global import, or a limits flag outside the modeled set.
    UnsupportedPayload,
}

} // verus!
