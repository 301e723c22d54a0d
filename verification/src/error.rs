use vstd::prelude::*;

verus! {

/// The failure conditions of the tool, one variant per condition.
///
/// `NothingToUndo` is the one expected, quiet condition: an undo was asked
/// for a dependency that has no patch entry. All other variants are genuine
/// failures that a caller reports to the user.
#[derive(Debug, Clone, Copy, PartialEq, Eq, Structural)]
pub enum RhackError {
    /// No managed directory could be determined from any source.
    ConfigResolution,
    /// The manifest file could not be read.
    ManifestRead,
    /// The manifest text is not a valid structured document, or its patch
    /// region is not shaped like a table.
    ManifestParse,
    /// The manifest file could not be written back.
    ManifestWrite,
    /// The published source of a dependency could not be located.
    VendorResolution,
    /// The local copy of a dependency's source could not be completed.
    VendorCopy,
    /// An undo was requested for a dependency that is not patched.
    NothingToUndo,
    /// The host build tool could not be run, or its output was unusable.
    Subprocess,
}

} // verus!
