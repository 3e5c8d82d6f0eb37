//! Shader groups of ray tracing pipelines, and the handles that the driver gives out for them.

use crate::device::has_nul;
use crate::error::DriverError;
use crate::pipeline::{module_steps, push_modules, PipelineTeardown};
use crate::vk;
use vstd::prelude::*;
use vstd::slice::slice_subrange;

verus! {

/// What a device allows of ray tracing pipelines.
#[derive(Clone, Copy, Debug, PartialEq, Eq, Structural)]
pub struct RayTracingPipelineProperties {
    /// The deepest recursion of rays.
    pub max_ray_recursion_depth: u32,
    /// The size of the handle of a shader group, in bytes.
    pub shader_group_handle_size: u32,
}

/// A shader group as the driver takes it.
#[derive(Clone, Copy, Debug, PartialEq, Eq, Structural)]
pub struct ShaderGroupRecord {
    /// The type of the group.
    pub ty: i32,
    /// The ray generation, miss, or callable shader.
    pub general_shader: u32,
    /// The closest hit shader.
    pub closest_hit_shader: u32,
    /// The any-hit shader.
    pub any_hit_shader: u32,
    /// The intersection shader.
    pub intersection_shader: u32,
}

/// The deepest recursion that a pipeline is made for: no deeper than the device allows.
pub fn recursion_depth(wanted: u32, limit: u32) -> (depth: u32)
    ensures
        depth == if wanted <= limit {
            wanted
        } else {
            limit
        },
{
    if wanted <= limit {
        wanted
    } else {
        limit
    }
}

/// The states of a ray tracing pipeline that commands set.
pub fn dynamic_states(dynamic_stack_size: bool) -> (states: Vec<i32>)
    ensures
        states@ == (if dynamic_stack_size {
            seq![vk::DYNAMIC_STATE_RAY_TRACING_PIPELINE_STACK_SIZE_KHR]
        } else {
            seq![]
        }),
{
    let mut states: Vec<i32> = Vec::new();
    if dynamic_stack_size {
        states.push(vk::DYNAMIC_STATE_RAY_TRACING_PIPELINE_STACK_SIZE_KHR);
    }
    states
}

/// Says whether the driver can take the entry names of some shaders.
pub fn check_entry_names(names: &Vec<String>) -> (checked: Result<(), DriverError>)
    ensures
        checked == (if exists|i: int|
            0 <= i < names@.len() && (#[trigger] names@[i])@.contains('\0') {
            Err::<(), DriverError>(DriverError::InvalidData)
        } else {
            Ok(())
        }),
{
    let mut index: usize = 0;
    while index < names.len()
        invariant
            index <= names@.len(),
            forall|i: int| 0 <= i < index ==> !(#[trigger] names@[i])@.contains('\0'),
        decreases names@.len() - index,
    {
        if has_nul(names[index].as_str()) {
            assert(names@[index as int]@.contains('\0'));
            return Err(DriverError::InvalidData);
        }
        index += 1;
    }
    Ok(())
}

/// What is destroyed, in order, where a shader module cannot be made.
pub fn module_failed(layout: u64, modules: &Vec<u64>) -> (steps: Vec<PipelineTeardown>)
    ensures
        steps@ == seq![PipelineTeardown::Layout(layout)] + module_steps(modules@),
{
    let mut steps: Vec<PipelineTeardown> = Vec::new();
    steps.push(PipelineTeardown::Layout(layout));
    push_modules(&mut steps, modules);
    steps
}

/// The steps that destroy some pipelines.
pub open spec fn pipeline_steps(pipelines: Seq<u64>) -> Seq<PipelineTeardown> {
    pipelines.map_values(|pipeline: u64| PipelineTeardown::Pipeline(pipeline))
}

/// What is destroyed, in order, once the driver has answered whether the pipeline could be made:
/// the shader modules, and where it failed also what was made of it and its layout.
pub fn after_pipelines(
    modules: &Vec<u64>,
    failed: Option<&Vec<u64>>,
    layout: u64,
) -> (steps: Vec<PipelineTeardown>)
    ensures
        steps@ == module_steps(modules@) + (match failed {
            Some(pipelines) => pipeline_steps(pipelines@).push(PipelineTeardown::Layout(layout)),
            None => seq![],
        }),
{
    let mut steps: Vec<PipelineTeardown> = Vec::new();
    push_modules(&mut steps, modules);
    assert(steps@ =~= module_steps(modules@));
    if let Some(pipelines) = failed {
        let mut index: usize = 0;
        while index < pipelines.len()
            invariant
                index <= pipelines@.len(),
                steps@ == module_steps(modules@) + pipeline_steps(pipelines@.take(index as int)),
            decreases pipelines@.len() - index,
        {
            steps.push(PipelineTeardown::Pipeline(pipelines[index]));
            index += 1;
            assert(steps@ =~= module_steps(modules@) + pipeline_steps(
                pipelines@.take(index as int),
            ));
        }
        assert(pipelines@.take(index as int) =~= pipelines@);
        steps.push(PipelineTeardown::Layout(layout));
    }
    steps
}

/// The handle of a shader group among the handles of all groups of a pipeline.
pub open spec fn group_bytes(handles: Seq<u8>, size: nat, group: nat) -> Seq<u8> {
    handles.subrange((group * size) as int, (group * size + size) as int)
}

/// Returns the handle of a shader group among the handles of all groups of a pipeline.
pub fn group_handle<'a>(handles: &'a Vec<u8>, size: u32, group: usize) -> (handle: &'a [u8])
    requires
        group * size + size <= handles@.len(),
    ensures
        handle@ == group_bytes(handles@, size as nat, group as nat),
{
    let total: usize = handles.len();
    assert(0 <= group * size && size <= total) by (nonlinear_arith)
        requires
            group * size + size <= total,
    ;
    let size: usize = size as usize;
    let start: usize = group * size;
    let end: usize = start + size;
    slice_subrange(handles.as_slice(), start, end)
}

/// The size of the handles of some shader groups, in bytes.
pub fn handles_size(groups: usize, size: u32) -> (bytes: usize)
    requires
        groups * size <= usize::MAX,
        size <= usize::MAX,
    ensures
        bytes == groups * size,
{
    groups * (size as usize)
}

/// Each byte of the handles belongs to the handle of a group.
pub proof fn group_handles_cover(handles: Seq<u8>, size: nat, groups: nat, place: nat)
    requires
        size > 0,
        handles.len() == groups * size,
        place < handles.len(),
    ensures
        place / size < groups,
        group_bytes(handles, size, place / size).len() == size,
        handles[place as int] == group_bytes(handles, size, place / size)[(place % size) as int],
{
    let group = place / size;
    assert(place == group * size + place % size && place % size < size) by (nonlinear_arith)
        requires
            size > 0,
            group == place / size,
    ;
    assert(group < groups) by (nonlinear_arith)
        requires
            size > 0,
            group == place / size,
            place < groups * size,
    ;
    assert(group * size + size <= groups * size) by (nonlinear_arith)
        requires
            group < groups,
    ;
}

/// The handles of two groups share no byte.
pub proof fn group_handles_are_disjoint(size: nat, first: nat, one: nat, second: nat, other: nat)
    requires
        one < size,
        other < size,
        first != second,
    ensures
        first * size + one != second * size + other,
{
    assert(first * size + one != second * size + other) by (nonlinear_arith)
        requires
            one < size,
            other < size,
            first != second,
    ;
}

/// The index of a shader as the driver takes it: a shader that is not there is unused.
pub open spec fn shader_index(shader: Option<u32>) -> u32 {
    match shader {
        Some(index) => index,
        None => vk::SHADER_UNUSED_KHR,
    }
}

/// An index stands for itself, and the largest number for no shader.
pub proof fn absent_shaders_are_unused(index: u32)
    ensures
        shader_index(Some(index)) == index,
        shader_index(None) == 0xffff_ffff,
{
}

/// Each pipeline is destroyed, in order.
pub proof fn pipelines_are_destroyed_in_order(pipelines: Seq<u64>, pipeline: u64)
    ensures
        pipeline_steps(pipelines.push(pipeline)) == pipeline_steps(pipelines).push(
            PipelineTeardown::Pipeline(pipeline),
        ),
        pipeline_steps(Seq::empty()) == Seq::<PipelineTeardown>::empty(),
{
    assert(pipeline_steps(pipelines.push(pipeline)) =~= pipeline_steps(pipelines).push(
        PipelineTeardown::Pipeline(pipeline),
    ));
    assert(pipeline_steps(Seq::empty()) =~= Seq::<PipelineTeardown>::empty());
}

} // verus!
