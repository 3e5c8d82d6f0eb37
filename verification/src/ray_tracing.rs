//! Ray tracing pipeline types.

use crate::descriptor_set::{DescriptorSetPipeline, PipelineDescriptorInfo};
use crate::error::DriverError;
use crate::handles::{first_handle, first_nonzero};
use crate::pipeline::{
    layout_name, present, present_ranges, set_name_text, set_names, PipelineTeardown,
    PushConstantRange,
};
use crate::shader_group::{
    dynamic_states, group_bytes, group_handle, recursion_depth, shader_index,
    RayTracingPipelineProperties, ShaderGroupRecord,
};
use crate::vk;
use vstd::prelude::*;

verus! {

/// Information used to create a [`RayTracingPipeline`].
#[derive(Clone, Copy, Debug, PartialEq, Eq, Hash, Structural)]
pub struct RayTracingPipelineInfo {
    /// The number of descriptors to allocate for a given binding when using bindless (unbounded)
    /// syntax.
    ///
    /// The default is `8192`.
    pub bindless_descriptor_count: u32,
    /// Allow setting the stack size dynamically for a ray tracing pipeline.
    ///
    /// When set, you must manually set the stack size during ray tracing commands.
    pub dynamic_stack_size: bool,
    /// The maximum recursion depth of shaders executed by this pipeline.
    ///
    /// The default is `16`.
    pub max_ray_recursion_depth: u32,
}

/// Builds a [`RayTracingPipelineInfo`]; what is not set takes its default.
#[derive(Clone, Copy, Debug)]
pub struct RayTracingPipelineInfoBuilder {
    /// See [`RayTracingPipelineInfo::bindless_descriptor_count`].
    pub bindless_descriptor_count: Option<u32>,
    /// See [`RayTracingPipelineInfo::dynamic_stack_size`].
    pub dynamic_stack_size: Option<bool>,
    /// See [`RayTracingPipelineInfo::max_ray_recursion_depth`].
    pub max_ray_recursion_depth: Option<u32>,
}

impl RayTracingPipelineInfo {
    /// The builder in which every field is set to this value's.
    pub open spec fn as_builder(self) -> RayTracingPipelineInfoBuilder {
        RayTracingPipelineInfoBuilder {
            bindless_descriptor_count: Some(self.bindless_descriptor_count),
            dynamic_stack_size: Some(self.dynamic_stack_size),
            max_ray_recursion_depth: Some(self.max_ray_recursion_depth),
        }
    }

    /// Creates a default `RayTracingPipelineInfoBuilder`.
    pub fn builder() -> (builder: RayTracingPipelineInfoBuilder)
        ensures
            builder == RayTracingPipelineInfoBuilder::unset(),
    {
        RayTracingPipelineInfoBuilder::default()
    }

    /// Converts a `RayTracingPipelineInfo` into a `RayTracingPipelineInfoBuilder`.
    pub fn into_builder(self) -> (builder: RayTracingPipelineInfoBuilder)
        ensures
            builder == self.as_builder(),
    {
        RayTracingPipelineInfoBuilder {
            bindless_descriptor_count: Some(self.bindless_descriptor_count),
            dynamic_stack_size: Some(self.dynamic_stack_size),
            max_ray_recursion_depth: Some(self.max_ray_recursion_depth),
        }
    }
}

impl RayTracingPipelineInfoBuilder {
    /// The builder in which nothing is set.
    pub open spec fn unset() -> Self {
        RayTracingPipelineInfoBuilder {
            bindless_descriptor_count: None,
            dynamic_stack_size: None,
            max_ray_recursion_depth: None,
        }
    }

    /// The value that the builder describes.
    pub open spec fn built(self) -> RayTracingPipelineInfo {
        RayTracingPipelineInfo {
            bindless_descriptor_count: self.bindless_descriptor_count.unwrap_or(8192),
            dynamic_stack_size: self.dynamic_stack_size.unwrap_or(false),
            max_ray_recursion_depth: self.max_ray_recursion_depth.unwrap_or(16),
        }
    }

    /// Sets [`RayTracingPipelineInfo::bindless_descriptor_count`].
    pub fn bindless_descriptor_count(self, bindless_descriptor_count: u32) -> (builder: Self)
        ensures
            builder == (RayTracingPipelineInfoBuilder {
                bindless_descriptor_count: Some(bindless_descriptor_count),
                ..self
            }),
    {
        RayTracingPipelineInfoBuilder {
            bindless_descriptor_count: Some(bindless_descriptor_count),
            ..self
        }
    }

    /// Sets [`RayTracingPipelineInfo::dynamic_stack_size`].
    pub fn dynamic_stack_size(self, dynamic_stack_size: bool) -> (builder: Self)
        ensures
            builder == (RayTracingPipelineInfoBuilder {
                dynamic_stack_size: Some(dynamic_stack_size),
                ..self
            }),
    {
        RayTracingPipelineInfoBuilder { dynamic_stack_size: Some(dynamic_stack_size), ..self }
    }

    /// Sets [`RayTracingPipelineInfo::max_ray_recursion_depth`].
    pub fn max_ray_recursion_depth(self, max_ray_recursion_depth: u32) -> (builder: Self)
        ensures
            builder == (RayTracingPipelineInfoBuilder {
                max_ray_recursion_depth: Some(max_ray_recursion_depth),
                ..self
            }),
    {
        RayTracingPipelineInfoBuilder {
            max_ray_recursion_depth: Some(max_ray_recursion_depth),
            ..self
        }
    }

    /// Builds a new `RayTracingPipelineInfo`.
    pub fn build(self) -> (info: RayTracingPipelineInfo)
        ensures
            info == self.built(),
    {
        RayTracingPipelineInfo {
            bindless_descriptor_count: self.bindless_descriptor_count.unwrap_or(8192),
            dynamic_stack_size: self.dynamic_stack_size.unwrap_or(false),
            max_ray_recursion_depth: self.max_ray_recursion_depth.unwrap_or(16),
        }
    }
}

impl Default for RayTracingPipelineInfoBuilder {
    fn default() -> (builder: Self)
        ensures
            builder == RayTracingPipelineInfoBuilder::unset(),
    {
        RayTracingPipelineInfoBuilder {
            bindless_descriptor_count: None,
            dynamic_stack_size: None,
            max_ray_recursion_depth: None,
        }
    }
}

impl From<RayTracingPipelineInfoBuilder> for RayTracingPipelineInfo {
    fn from(builder: RayTracingPipelineInfoBuilder) -> (info: Self) {
        builder.build()
    }
}

impl vstd::std_specs::convert::FromSpecImpl<RayTracingPipelineInfoBuilder> for RayTracingPipelineInfo {
    open spec fn obeys_from_spec() -> bool {
        true
    }

    open spec fn from_spec(builder: RayTracingPipelineInfoBuilder) -> Self {
        builder.built()
    }
}

impl Default for RayTracingPipelineInfo {
    fn default() -> (info: Self)
        ensures
            info == RayTracingPipelineInfoBuilder::unset().built(),
    {
        RayTracingPipelineInfoBuilder::default().build()
    }
}

/// Building what a value was converted into gives the value back.
pub proof fn ray_tracing_pipeline_info_round_trip(info: RayTracingPipelineInfo)
    ensures
        info.as_builder().built() == info,
{
}

/// Describes a type of ray tracing shader group, which is a collection of shaders which run in the
/// specified mode.
#[derive(Clone, Copy, Debug, PartialEq, Eq, Structural)]
pub enum RayTracingShaderGroupType {
    /// A shader group with a general shader.
    General,
    /// A shader group with an intersection shader, and optional closest-hit and any-hit shaders.
    ProceduralHitGroup,
    /// A shader group with a closest-hit shader and optional any-hit shader.
    TrianglesHitGroup,
}

impl RayTracingShaderGroupType {
    /// The number of the type.
    pub open spec fn number(self) -> i32 {
        match self {
            RayTracingShaderGroupType::General => vk::RAY_TRACING_SHADER_GROUP_TYPE_GENERAL,
            RayTracingShaderGroupType::ProceduralHitGroup => {
                vk::RAY_TRACING_SHADER_GROUP_TYPE_PROCEDURAL_HIT_GROUP
            },
            RayTracingShaderGroupType::TrianglesHitGroup => {
                vk::RAY_TRACING_SHADER_GROUP_TYPE_TRIANGLES_HIT_GROUP
            },
        }
    }
}

impl From<RayTracingShaderGroupType> for i32 {
    fn from(ty: RayTracingShaderGroupType) -> (number: Self) {
        match ty {
            RayTracingShaderGroupType::General => vk::RAY_TRACING_SHADER_GROUP_TYPE_GENERAL,
            RayTracingShaderGroupType::ProceduralHitGroup => {
                vk::RAY_TRACING_SHADER_GROUP_TYPE_PROCEDURAL_HIT_GROUP
            },
            RayTracingShaderGroupType::TrianglesHitGroup => {
                vk::RAY_TRACING_SHADER_GROUP_TYPE_TRIANGLES_HIT_GROUP
            },
        }
    }
}

impl vstd::std_specs::convert::FromSpecImpl<RayTracingShaderGroupType> for i32 {
    open spec fn obeys_from_spec() -> bool {
        true
    }

    open spec fn from_spec(ty: RayTracingShaderGroupType) -> Self {
        ty.number()
    }
}

/// Describes the set of shader stages to be included in each shader group in the ray tracing
/// pipeline.
#[derive(Clone, Copy, Debug, PartialEq, Eq, Structural)]
pub struct RayTracingShaderGroup {
    /// The optional index of the any-hit shader in the group if the shader group has type of
    /// [`RayTracingShaderGroupType::TrianglesHitGroup`] or
    /// [`RayTracingShaderGroupType::ProceduralHitGroup`].
    pub any_hit_shader: Option<u32>,
    /// The optional index of the closest hit shader in the group if the shader group has type of
    /// [`RayTracingShaderGroupType::TrianglesHitGroup`] or
    /// [`RayTracingShaderGroupType::ProceduralHitGroup`].
    pub closest_hit_shader: Option<u32>,
    /// The index of the ray generation, miss, or callable shader in the group if the shader group
    /// has type of [`RayTracingShaderGroupType::General`].
    pub general_shader: Option<u32>,
    /// The index of the intersection shader in the group if the shader group has type of
    /// [`RayTracingShaderGroupType::ProceduralHitGroup`].
    pub intersection_shader: Option<u32>,
    /// The type of hit group specified in this structure.
    pub ty: RayTracingShaderGroupType,
}

impl RayTracingShaderGroup {
    /// A group of some type, with some shaders.
    fn new(
        ty: RayTracingShaderGroupType,
        general_shader: Option<u32>,
        intersection_shader: Option<u32>,
        closest_hit_shader: Option<u32>,
        any_hit_shader: Option<u32>,
    ) -> (group: Self)
        ensures
            group == (RayTracingShaderGroup {
                any_hit_shader,
                closest_hit_shader,
                general_shader,
                intersection_shader,
                ty,
            }),
    {
        RayTracingShaderGroup {
            any_hit_shader,
            closest_hit_shader,
            general_shader,
            intersection_shader,
            ty,
        }
    }

    /// Creates a new general-type shader group with the given general shader.
    pub fn new_general(general_shader: Option<u32>) -> (group: Self)
        ensures
            group == (RayTracingShaderGroup {
                any_hit_shader: None,
                closest_hit_shader: None,
                general_shader,
                intersection_shader: None,
                ty: RayTracingShaderGroupType::General,
            }),
    {
        RayTracingShaderGroup::new(RayTracingShaderGroupType::General, general_shader, None, None, None)
    }

    /// Creates a new procedural-type shader group with the given intersection shader, and optional
    /// closest-hit and any-hit shaders.
    pub fn new_procedural(
        intersection_shader: u32,
        closest_hit_shader: Option<u32>,
        any_hit_shader: Option<u32>,
    ) -> (group: Self)
        ensures
            group == (RayTracingShaderGroup {
                any_hit_shader,
                closest_hit_shader,
                general_shader: None,
                intersection_shader: Some(intersection_shader),
                ty: RayTracingShaderGroupType::ProceduralHitGroup,
            }),
    {
        RayTracingShaderGroup::new(
            RayTracingShaderGroupType::ProceduralHitGroup,
            None,
            Some(intersection_shader),
            closest_hit_shader,
            any_hit_shader,
        )
    }

    /// Creates a new triangles-type shader group with the given closest-hit shader and optional
    /// any-hit shader.
    pub fn new_triangles(closest_hit_shader: u32, any_hit_shader: Option<u32>) -> (group: Self)
        ensures
            group == (RayTracingShaderGroup {
                any_hit_shader,
                closest_hit_shader: Some(closest_hit_shader),
                general_shader: None,
                intersection_shader: None,
                ty: RayTracingShaderGroupType::TrianglesHitGroup,
            }),
    {
        RayTracingShaderGroup::new(
            RayTracingShaderGroupType::TrianglesHitGroup,
            None,
            None,
            Some(closest_hit_shader),
            any_hit_shader,
        )
    }

    /// The group as the driver takes it.
    pub open spec fn record(self) -> ShaderGroupRecord {
        ShaderGroupRecord {
            ty: self.ty.number(),
            general_shader: shader_index(self.general_shader),
            closest_hit_shader: shader_index(self.closest_hit_shader),
            any_hit_shader: shader_index(self.any_hit_shader),
            intersection_shader: shader_index(self.intersection_shader),
        }
    }
}

impl From<RayTracingShaderGroup> for ShaderGroupRecord {
    fn from(group: RayTracingShaderGroup) -> (record: Self) {
        ShaderGroupRecord {
            ty: i32::from(group.ty),
            general_shader: group.general_shader.unwrap_or(vk::SHADER_UNUSED_KHR),
            closest_hit_shader: group.closest_hit_shader.unwrap_or(vk::SHADER_UNUSED_KHR),
            any_hit_shader: group.any_hit_shader.unwrap_or(vk::SHADER_UNUSED_KHR),
            intersection_shader: group.intersection_shader.unwrap_or(vk::SHADER_UNUSED_KHR),
        }
    }
}

impl vstd::std_specs::convert::FromSpecImpl<RayTracingShaderGroup> for ShaderGroupRecord {
    open spec fn obeys_from_spec() -> bool {
        true
    }

    open spec fn from_spec(group: RayTracingShaderGroup) -> Self {
        group.record()
    }
}

/// Some groups as the driver takes them.
pub open spec fn records(groups: Seq<RayTracingShaderGroup>) -> Seq<ShaderGroupRecord> {
    Seq::new(groups.len(), |i: int| groups[i].record())
}

/// What a ray tracing pipeline is made from, apart from its shader modules.
#[derive(Debug)]
pub struct RayTracingPipelinePlan {
    /// The shader groups.
    pub groups: Vec<ShaderGroupRecord>,
    /// The push constants of the pipeline's layout.
    pub push_constants: Vec<PushConstantRange>,
    /// The deepest recursion of rays.
    pub max_ray_recursion_depth: u32,
    /// The states that commands set.
    pub dynamic_states: Vec<i32>,
    /// The size of the handle of a shader group, in bytes.
    pub shader_group_handle_size: u32,
}

/// A ray tracing pipeline object.
#[derive(Debug)]
pub struct RayTracingPipeline {
    /// The descriptor set layouts of the pipeline.
    pub descriptor_info: PipelineDescriptorInfo,
    /// The device which owns this ray tracing pipeline.
    pub device: u64,
    /// The native Vulkan pipeline handle of this ray tracing pipeline.
    pub handle: u64,
    /// The information used to create this object.
    pub info: RayTracingPipelineInfo,
    /// The layout of the pipeline.
    pub layout: u64,
    /// The size of the handle of a shader group, in bytes.
    pub shader_group_handle_size: u32,
    /// The handles of the shader groups, one after another.
    pub shader_group_handles: Vec<u8>,
}

impl RayTracingPipeline {
    /// What a pipeline is made from; a device without ray tracing makes none.
    pub fn plan(
        properties: Option<RayTracingPipelineProperties>,
        info: RayTracingPipelineInfo,
        push_constants: &Vec<Option<PushConstantRange>>,
        groups: &Vec<RayTracingShaderGroup>,
    ) -> (plan: Result<RayTracingPipelinePlan, DriverError>)
        ensures
            match properties {
                None => plan == Err::<RayTracingPipelinePlan, DriverError>(DriverError::Unsupported),
                Some(properties) => {
                    &&& plan matches Ok(plan)
                    &&& plan.groups@ == records(groups@)
                    &&& plan.push_constants@ == present(push_constants@)
                    &&& plan.max_ray_recursion_depth == if info.max_ray_recursion_depth
                        <= properties.max_ray_recursion_depth {
                        info.max_ray_recursion_depth
                    } else {
                        properties.max_ray_recursion_depth
                    }
                    &&& plan.dynamic_states@ == (if info.dynamic_stack_size {
                        seq![vk::DYNAMIC_STATE_RAY_TRACING_PIPELINE_STACK_SIZE_KHR]
                    } else {
                        seq![]
                    })
                    &&& plan.shader_group_handle_size == properties.shader_group_handle_size
                },
            },
    {
        let properties = match properties {
            Some(properties) => properties,
            None => return Err(DriverError::Unsupported),
        };
        let mut taken: Vec<ShaderGroupRecord> = Vec::new();
        let mut index: usize = 0;
        while index < groups.len()
            invariant
                index <= groups@.len(),
                taken@ == records(groups@).take(index as int),
            decreases groups@.len() - index,
        {
            taken.push(ShaderGroupRecord::from(groups[index]));
            index += 1;
            assert(taken@ =~= records(groups@).take(index as int));
        }
        assert(taken@ =~= records(groups@));
        Ok(
            RayTracingPipelinePlan {
                groups: taken,
                push_constants: present_ranges(push_constants),
                max_ray_recursion_depth: recursion_depth(
                    info.max_ray_recursion_depth,
                    properties.max_ray_recursion_depth,
                ),
                dynamic_states: dynamic_states(info.dynamic_stack_size),
                shader_group_handle_size: properties.shader_group_handle_size,
            },
        )
    }

    /// The handle of the pipeline among those that the driver made.
    pub fn made(handles: &Vec<u64>) -> (handle: Result<u64, DriverError>)
        ensures
            handle == (match first_nonzero(handles@) {
                Some(handle) => Ok::<u64, DriverError>(handle),
                None => Err(DriverError::Unsupported),
            }),
    {
        match first_handle(handles) {
            Some(handle) => Ok(handle),
            None => Err(DriverError::Unsupported),
        }
    }

    /// Returns a handle to a shader group of this pipeline.
    ///
    /// This can be used to construct a shader binding table.
    pub fn group_handle(&self, idx: usize) -> (handle: &[u8])
        requires
            idx * self.shader_group_handle_size + self.shader_group_handle_size
                <= self.shader_group_handles@.len(),
        ensures
            handle@ == group_bytes(
                self.shader_group_handles@,
                self.shader_group_handle_size as nat,
                idx as nat,
            ),
    {
        group_handle(&self.shader_group_handles, self.shader_group_handle_size, idx)
    }

    /// The native Vulkan pipeline handle of this ray tracing pipeline.
    pub fn handle(&self) -> (handle: u64)
        ensures
            handle == self.handle,
    {
        self.handle
    }

    /// Gets the information used to create this object.
    pub fn info(&self) -> (info: RayTracingPipelineInfo)
        ensures
            info == self.info,
    {
        self.info
    }

    /// The names that the pipeline's layout and its descriptor set layouts get with the
    /// pipeline's own.
    pub fn debug_names(&self, name: &str) -> (names: (String, Vec<(u64, String)>))
        ensures
            names.0@ == name@ + " (layout)"@,
            names.1@.len() == self.descriptor_info.layouts@.len(),
            forall|i: int|
                0 <= i < names.1@.len() ==> (#[trigger] names.1@[i]).0
                    == self.descriptor_info.layouts@[i].1.handle && names.1@[i].1@ == set_name_text(
                    name@,
                    self.descriptor_info.layouts@[i].0,
                ),
    {
        (layout_name(name), set_names(&self.descriptor_info, name))
    }

    /// What is destroyed with the pipeline, in order; nothing while a panic unwinds.
    pub fn teardown(&self, panicking: bool) -> (steps: Vec<PipelineTeardown>)
        ensures
            steps@ == (if panicking {
                seq![]
            } else {
                seq![
                    PipelineTeardown::Name(self.handle),
                    PipelineTeardown::Pipeline(self.handle),
                    PipelineTeardown::Layout(self.layout),
                ]
            }),
    {
        let mut steps: Vec<PipelineTeardown> = Vec::new();
        if !panicking {
            steps.push(PipelineTeardown::Name(self.handle));
            steps.push(PipelineTeardown::Pipeline(self.handle));
            steps.push(PipelineTeardown::Layout(self.layout));
        }
        steps
    }
}

impl DescriptorSetPipeline for RayTracingPipeline {
    open spec fn descriptors(&self) -> PipelineDescriptorInfo {
        self.descriptor_info
    }

    open spec fn device_id(&self) -> u64 {
        self.device
    }

    fn descriptor_info(&self) -> (info: &PipelineDescriptorInfo) {
        &self.descriptor_info
    }

    fn device(&self) -> (device: u64) {
        self.device
    }
}

/// General groups, groups of triangles and groups of procedures are numbered in this order.
pub proof fn group_types_are_numbered(ty: RayTracingShaderGroupType)
    ensures
        ty == RayTracingShaderGroupType::General <==> ty.number() == 0,
        ty == RayTracingShaderGroupType::TrianglesHitGroup <==> ty.number() == 1,
        ty == RayTracingShaderGroupType::ProceduralHitGroup <==> ty.number() == 2,
{
}

/// What is changed of a group is changed of its record, and nothing else.
pub proof fn changes_of_groups_are_recorded(
    group: RayTracingShaderGroup,
    ty: RayTracingShaderGroupType,
    shader: u32,
)
    ensures
        (RayTracingShaderGroup { ty, ..group }).record() == (ShaderGroupRecord {
            ty: ty.number(),
            ..group.record()
        }),
        (RayTracingShaderGroup { general_shader: Some(shader), ..group }).record() == (
        ShaderGroupRecord { general_shader: shader, ..group.record() }),
        (RayTracingShaderGroup { closest_hit_shader: Some(shader), ..group }).record() == (
        ShaderGroupRecord { closest_hit_shader: shader, ..group.record() }),
        (RayTracingShaderGroup { any_hit_shader: Some(shader), ..group }).record() == (
        ShaderGroupRecord { any_hit_shader: shader, ..group.record() }),
        (RayTracingShaderGroup { intersection_shader: Some(shader), ..group }).record() == (
        ShaderGroupRecord { intersection_shader: shader, ..group.record() }),
        (RayTracingShaderGroup { general_shader: None, ..group }).record() == (
        ShaderGroupRecord { general_shader: u32::MAX, ..group.record() }),
        (RayTracingShaderGroup { closest_hit_shader: None, ..group }).record() == (
        ShaderGroupRecord { closest_hit_shader: u32::MAX, ..group.record() }),
        (RayTracingShaderGroup { any_hit_shader: None, ..group }).record() == (
        ShaderGroupRecord { any_hit_shader: u32::MAX, ..group.record() }),
        (RayTracingShaderGroup { intersection_shader: None, ..group }).record() == (
        ShaderGroupRecord { intersection_shader: u32::MAX, ..group.record() }),
{
}

/// Groups are recorded one by one, in order.
pub proof fn groups_are_recorded_in_order(groups: Seq<RayTracingShaderGroup>, group: RayTracingShaderGroup)
    ensures
        records(groups.push(group)) == records(groups).push(group.record()),
        records(Seq::empty()) == Seq::<ShaderGroupRecord>::empty(),
{
    assert(records(groups.push(group)) =~= records(groups).push(group.record()));
    assert(records(Seq::empty()) =~= Seq::<ShaderGroupRecord>::empty());
}

/// A field that was set is built as it was set, whatever else was, and one that was not set has its
/// default.
pub proof fn ray_tracing_pipeline_info_fields_are_built_apart(builder: RayTracingPipelineInfoBuilder)
    ensures
        ({
            let built = builder.built();
            &&& builder.bindless_descriptor_count matches Some(value)
                ==> built.bindless_descriptor_count == value
            &&& builder.dynamic_stack_size matches Some(value) ==> built.dynamic_stack_size == value
            &&& builder.max_ray_recursion_depth matches Some(value)
                ==> built.max_ray_recursion_depth == value
            &&& builder.bindless_descriptor_count is None ==> built.bindless_descriptor_count
                == 8192
            &&& builder.dynamic_stack_size is None ==> !built.dynamic_stack_size
            &&& builder.max_ray_recursion_depth is None ==> built.max_ray_recursion_depth == 16
        }),
{
}

} // verus!
