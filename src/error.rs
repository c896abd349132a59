use vstd::prelude::*;

verus! {

/// Errors of the virtualization core.
#[derive(Clone, Copy, Debug, PartialEq, Eq, Structural)]
pub enum HvError {
    /// The processor lacks a required feature or reports an unexpected capability.
    Unsupported,
    /// Virtualization is already enabled on this processor.
    AlreadyEnabled,
    /// Virtualization is not enabled on this processor.
    NotEnabled,
    /// A host control register fails its fixed-bit checks, or an instruction failed.
    BadState,
    /// A capability constraint is violated while setting up controls.
    InvalidVmcsConfig,
    /// The interface was used wrongly, or an input is malformed.
    InvalidInput,
    /// A frame could not be allocated.
    NoMemory,
    /// The guest page-table walk found no mapping.
    NotMapped,
    /// The guest page-table walk ended in a huge page where a table was expected.
    MappedToHugePage,
    /// A guest memory read crossed an unmapped page.
    BadAddress,
}

} // verus!
