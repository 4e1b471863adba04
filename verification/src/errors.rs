use vstd::prelude::*;

verus! {

/// Why a store mutation was refused.
#[derive(Clone, Copy, PartialEq, Eq, Structural, Debug)]
pub enum StoreError {
    /// The identifier is absent from the store.
    NotFound,
    /// The mutation would violate a protection invariant of a preset entry.
    PermissionDenied,
    /// The identifier names no known preset.
    UnknownPreset,
    /// The input lies outside the accepted range.
    Validation,
    /// The response matched no recognized shape.
    ParseFailure,
}

} // verus!
