//! Eligibility of a definition for layout export.
//!
//! The build-time generator accepts only record definitions with named
//! fields.  Applied to anything else it must stop the build with a
//! diagnostic instead of emitting code; the decision itself is made here.

use vstd::prelude::*;

verus! {

/// The kind of definition the build-time marker was applied to.
#[derive(Debug, Clone, Copy, PartialEq, Eq)]
pub enum DefinitionKind {
    /// A struct whose fields are all named.
    NamedFieldStruct,
    /// A struct with positional fields only.
    TupleStruct,
    /// A struct with no fields at all.
    UnitStruct,
    /// An enumerated type.
    EnumDefinition,
    /// A union.
    UnionDefinition,
}

/// The generator's one error: the marker was applied to something other
/// than a struct with named fields.  It is raised at build time and stops
/// the build; no code is emitted for the offending definition.
#[derive(Debug, Clone, Copy, PartialEq, Eq)]
pub enum LayoutError {
    /// The marked definition is not a struct with named fields.
    IneligibleDefinition,
}

impl LayoutError {
    /// The diagnostic shown to the developer when the build stops.
    pub fn message(&self) -> (m: &'static str)
        ensures
            m@ == "export_alignment can only be used on structs"@,
    {
        "export_alignment can only be used on structs"
    }
}

/// Decide whether the marked definition may be processed: exactly the
/// structs with named fields are accepted, everything else is rejected.
pub fn check_definition(kind: &DefinitionKind) -> (r: Result<(), LayoutError>)
    ensures
        r is Ok <==> kind is NamedFieldStruct,
        r is Err ==> (r matches Err(e) && e is IneligibleDefinition),
{
    match kind {
        DefinitionKind::NamedFieldStruct => Ok(()),
        _ => Err(LayoutError::IneligibleDefinition),
    }
}

} // verus!
