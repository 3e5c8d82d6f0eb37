//! Where resource memory lives, and how resources get it.

use crate::error::DriverError;
use vstd::prelude::*;

verus! {

/// The kind of memory that an allocation asks for.
#[derive(Clone, Copy, Debug, PartialEq, Eq, Hash, Structural)]
pub enum MemoryLocation {
    /// Mappable memory that suits uploads.
    CpuToGpu,
    /// Device memory that need not be mappable.
    GpuOnly,
    /// Mappable, cached memory that suits readback.
    GpuToCpu,
}

/// What is made for a buffer or an image, in order.
#[derive(Clone, Copy, Debug, PartialEq, Eq, Structural)]
pub enum ResourceStage {
    /// The native object.
    Handle,
    /// Its memory.
    Memory,
    /// The binding of the memory to the object.
    Binding,
}

/// What is undone where a buffer or an image cannot be made.
#[derive(Clone, Copy, Debug, PartialEq, Eq, Structural)]
pub enum ResourceCleanup {
    /// The memory is freed.
    FreeMemory,
    /// The native object is destroyed.
    DestroyHandle,
}

/// What is undone, in order, where making a buffer or an image fails at some stage.
pub open spec fn undone(stage: ResourceStage) -> Seq<ResourceCleanup> {
    match stage {
        ResourceStage::Handle => seq![],
        ResourceStage::Memory => seq![ResourceCleanup::DestroyHandle],
        ResourceStage::Binding => seq![
            ResourceCleanup::FreeMemory,
            ResourceCleanup::DestroyHandle,
        ],
    }
}

/// What was made before a stage is undone there, and nothing else, the last of it first: one step
/// for each of the stages that came before.
pub proof fn what_was_made_is_undone(stage: ResourceStage)
    ensures
        undone(stage).contains(ResourceCleanup::DestroyHandle) <==> stage != ResourceStage::Handle,
        undone(stage).contains(ResourceCleanup::FreeMemory) <==> stage == ResourceStage::Binding,
        undone(stage).no_duplicates(),
        undone(stage).len() > 0 ==> undone(stage).last() == ResourceCleanup::DestroyHandle,
{
    let steps = undone(stage);
    if steps.len() > 0 {
        assert(steps[steps.len() - 1] == ResourceCleanup::DestroyHandle);
    }
    if steps.len() > 1 {
        assert(steps[0] == ResourceCleanup::FreeMemory);
    }
}

/// What is undone, in order, where making a buffer or an image fails at some stage, and the error
/// that is reported, given the one that the allocator's stands for.
pub fn creation_failed(stage: ResourceStage, allocation: DriverError) -> (failed: (
    Vec<ResourceCleanup>,
    DriverError,
))
    ensures
        failed.0@ == undone(stage),
        failed.1 == (match stage {
            ResourceStage::Handle => DriverError::Unsupported,
            ResourceStage::Memory => allocation,
            ResourceStage::Binding => DriverError::OutOfMemory,
        }),
{
    let mut steps: Vec<ResourceCleanup> = Vec::new();
    match stage {
        ResourceStage::Handle => (steps, DriverError::Unsupported),
        ResourceStage::Memory => {
            steps.push(ResourceCleanup::DestroyHandle);
            (steps, allocation)
        },
        ResourceStage::Binding => {
            steps.push(ResourceCleanup::FreeMemory);
            steps.push(ResourceCleanup::DestroyHandle);
            (steps, DriverError::OutOfMemory)
        },
    }
}

} // verus!
