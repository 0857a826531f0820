use vstd::prelude::*;

verus! {

/// Errors of the per-core control plane.
#[derive(Debug, Clone, Copy, PartialEq, Eq, Structural)]
pub enum HvError {
    /// Inserting a region that overlaps an existing one.
    MappingConflict,
    /// Deleting a region that does not exist.
    MappingAbsent,
    /// The virtualization engine could not be set up on this hardware.
    EngineConstructionFailed,
    /// The virtualization engine rejected an operation.
    EngineOperationFailed,
    /// The engine came back from a switch that must not return to its caller.
    EngineReturned,
    /// The core id is not below the number of cores the boot-time table holds.
    InvalidCpuId,
}

/// Result of a control-plane operation.
pub type HvResult = Result<(), HvError>;

} // verus!
