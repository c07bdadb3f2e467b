//! Field-layout reporting for record types with a fixed, sequential layout.
//!
//! A record processed by the build-time generator is pinned to a C-style
//! sequential field layout, and this crate computes, for each field in
//! declaration order, its byte size, its byte offset within the record and
//! the textual name of its declared type.  The arithmetic is the standard
//! padding walk: each field is placed at the next multiple of its alignment,
//! and the cursor then advances by the field's size.

use vstd::prelude::*;

pub mod cache;
pub mod eligibility;
pub mod layout;

pub use cache::LayoutCache;
pub use eligibility::check_definition;
pub use eligibility::DefinitionKind;
pub use eligibility::LayoutError;
pub use layout::compute_layout;
pub use layout::try_compute_layout;
pub use layout::Alignment;
pub use layout::FieldSpec;

verus! {

/// Capability implemented for every record type processed by the build-time
/// generator: exposes the record's full, ordered field layout.  The returned
/// slice is computed once per process and served from a cache thereafter.
pub trait AlignmentExporter {
    /// Get the layout of the record's fields, in declaration order.
    fn get_alignment() -> &'static [Alignment];
}

} // verus!
