//! Ray tracing pipeline types that keep their own debugging names.

use crate::descriptor_set::PipelineDescriptorInfo;
use crate::error::DriverError;
use crate::pipeline::{
    present, present_ranges, PipelineName, PipelineTeardown, PushConstantRange,
};
use crate::shader_group::{
    dynamic_states, group_bytes, group_handle, recursion_depth, shader_index,
    RayTracingPipelineProperties, ShaderGroupRecord,
};
use crate::vk;
use vstd::prelude::*;

verus! {

/// Information used to create a [`RayTracePipeline`].
#[derive(Clone, Copy, Debug, PartialEq, Eq, Hash, Structural)]
pub struct RayTracePipelineInfo {
    /// The number of descriptors to allocate for a given binding when using bindless (unbounded)
    /// syntax.
    ///
    /// The default is `8192`.
    pub bindless_descriptor_count: u32,
    /// Allow setting the stack size dynamically for a ray tracing pipeline.
    ///
    /// When set, you must manually set the stack size during ray tracing commands.
    pub dynamic_stack_size: bool,
    /// The maximum recursion depth of shaders executed by this pipeline.
    ///
    /// The default is `16`.
    pub max_ray_recursion_depth: u32,
}

/// Builds a [`RayTracePipelineInfo`]; what is not set takes its default.
#[derive(Clone, Copy, Debug)]
pub struct RayTracePipelineInfoBuilder {
    /// See [`RayTracePipelineInfo::bindless_descriptor_count`].
    pub bindless_descriptor_count: Option<u32>,
    /// See [`RayTracePipelineInfo::dynamic_stack_size`].
    pub dynamic_stack_size: Option<bool>,
    /// See [`RayTracePipelineInfo::max_ray_recursion_depth`].
    pub max_ray_recursion_depth: Option<u32>,
}

impl RayTracePipelineInfo {
    /// The builder in which every field is set to this value's.
    pub open spec fn as_builder(self) -> RayTracePipelineInfoBuilder {
        RayTracePipelineInfoBuilder {
            bindless_descriptor_count: Some(self.bindless_descriptor_count),
            dynamic_stack_size: Some(self.dynamic_stack_size),
            max_ray_recursion_depth: Some(self.max_ray_recursion_depth),
        }
    }

    /// Creates a default `RayTracePipelineInfoBuilder`.
    pub fn builder() -> (builder: RayTracePipelineInfoBuilder)
        ensures
            builder == RayTracePipelineInfoBuilder::unset(),
    {
        RayTracePipelineInfoBuilder::default()
    }

    /// Converts a `RayTracePipelineInfo` into a `RayTracePipelineInfoBuilder`.
    pub fn into_builder(self) -> (builder: RayTracePipelineInfoBuilder)
        ensures
            builder == self.as_builder(),
    {
        RayTracePipelineInfoBuilder {
            bindless_descriptor_count: Some(self.bindless_descriptor_count),
            dynamic_stack_size: Some(self.dynamic_stack_size),
            max_ray_recursion_depth: Some(self.max_ray_recursion_depth),
        }
    }
}

impl RayTracePipelineInfo {
    /// Converts a `RayTracePipelineInfo` into a `RayTracePipelineInfoBuilder`, as [`RayTracePipelineInfo::into_builder`] does.
    pub fn to_builder(self) -> (builder: RayTracePipelineInfoBuilder)
        ensures
            builder == self.as_builder(),
    {
        self.into_builder()
    }
}

impl RayTracePipelineInfoBuilder {
    /// The builder in which nothing is set.
    pub open spec fn unset() -> Self {
        RayTracePipelineInfoBuilder {
            bindless_descriptor_count: None,
            dynamic_stack_size: None,
            max_ray_recursion_depth: None,
        }
    }

    /// The value that the builder describes.
    pub open spec fn built(self) -> RayTracePipelineInfo {
        RayTracePipelineInfo {
            bindless_descriptor_count: self.bindless_descriptor_count.unwrap_or(8192),
            dynamic_stack_size: self.dynamic_stack_size.unwrap_or(false),
            max_ray_recursion_depth: self.max_ray_recursion_depth.unwrap_or(16),
        }
    }

    /// Sets [`RayTracePipelineInfo::bindless_descriptor_count`].
    pub fn bindless_descriptor_count(self, bindless_descriptor_count: u32) -> (builder: Self)
        ensures
            builder == (RayTracePipelineInfoBuilder {
                bindless_descriptor_count: Some(bindless_descriptor_count),
                ..self
            }),
    {
        RayTracePipelineInfoBuilder {
            bindless_descriptor_count: Some(bindless_descriptor_count),
            ..self
        }
    }

    /// Sets [`RayTracePipelineInfo::dynamic_stack_size`].
    pub fn dynamic_stack_size(self, dynamic_stack_size: bool) -> (builder: Self)
        ensures
            builder == (RayTracePipelineInfoBuilder {
                dynamic_stack_size: Some(dynamic_stack_size),
                ..self
            }),
    {
        RayTracePipelineInfoBuilder { dynamic_stack_size: Some(dynamic_stack_size), ..self }
    }

    /// Sets [`RayTracePipelineInfo::max_ray_recursion_depth`].
    pub fn max_ray_recursion_depth(self, max_ray_recursion_depth: u32) -> (builder: Self)
        ensures
            builder == (RayTracePipelineInfoBuilder {
                max_ray_recursion_depth: Some(max_ray_recursion_depth),
                ..self
            }),
    {
        RayTracePipelineInfoBuilder {
            max_ray_recursion_depth: Some(max_ray_recursion_depth),
            ..self
        }
    }

    /// Builds a new `RayTracePipelineInfo`.
    pub fn build(self) -> (info: RayTracePipelineInfo)
        ensures
            info == self.built(),
    {
        RayTracePipelineInfo {
            bindless_descriptor_count: self.bindless_descriptor_count.unwrap_or(8192),
            dynamic_stack_size: self.dynamic_stack_size.unwrap_or(false),
            max_ray_recursion_depth: self.max_ray_recursion_depth.unwrap_or(16),
        }
    }
}

impl Default for RayTracePipelineInfoBuilder {
    fn default() -> (builder: Self)
        ensures
            builder == RayTracePipelineInfoBuilder::unset(),
    {
        RayTracePipelineInfoBuilder {
            bindless_descriptor_count: None,
            dynamic_stack_size: None,
            max_ray_recursion_depth: None,
        }
    }
}

impl From<RayTracePipelineInfoBuilder> for RayTracePipelineInfo {
    fn from(builder: RayTracePipelineInfoBuilder) -> (info: Self) {
        builder.build()
    }
}

impl vstd::std_specs::convert::FromSpecImpl<RayTracePipelineInfoBuilder> for RayTracePipelineInfo {
    open spec fn obeys_from_spec() -> bool {
        true
    }

    open spec fn from_spec(builder: RayTracePipelineInfoBuilder) -> Self {
        builder.built()
    }
}

impl Default for RayTracePipelineInfo {
    fn default() -> (info: Self)
        ensures
            info == RayTracePipelineInfoBuilder::unset().built(),
    {
        RayTracePipelineInfoBuilder::default().build()
    }
}

/// Building what a value was converted into gives the value back.
pub proof fn ray_trace_pipeline_info_round_trip(info: RayTracePipelineInfo)
    ensures
        info.as_builder().built() == info,
{
}

/// Describes a type of ray tracing shader group, which is a collection of shaders which run in the
/// specified mode.
#[derive(Clone, Copy, Debug, PartialEq, Eq, Structural)]
pub enum RayTraceShaderGroupType {
    /// A shader group with a general shader.
    General,
    /// A shader group with an intersection shader, and optional closest-hit and any-hit shaders.
    ProceduralHitGroup,
    /// A shader group with a closest-hit shader and optional any-hit shader.
    TrianglesHitGroup,
}

impl RayTraceShaderGroupType {
    /// The number of the type.
    pub open spec fn number(self) -> i32 {
        match self {
            RayTraceShaderGroupType::General => vk::RAY_TRACING_SHADER_GROUP_TYPE_GENERAL,
            RayTraceShaderGroupType::ProceduralHitGroup => {
                vk::RAY_TRACING_SHADER_GROUP_TYPE_PROCEDURAL_HIT_GROUP
            },
            RayTraceShaderGroupType::TrianglesHitGroup => {
                vk::RAY_TRACING_SHADER_GROUP_TYPE_TRIANGLES_HIT_GROUP
            },
        }
    }
}

impl From<RayTraceShaderGroupType> for i32 {
    fn from(ty: RayTraceShaderGroupType) -> (number: Self) {
        match ty {
            RayTraceShaderGroupType::General => vk::RAY_TRACING_SHADER_GROUP_TYPE_GENERAL,
            RayTraceShaderGroupType::ProceduralHitGroup => {
                vk::RAY_TRACING_SHADER_GROUP_TYPE_PROCEDURAL_HIT_GROUP
            },
            RayTraceShaderGroupType::TrianglesHitGroup => {
                vk::RAY_TRACING_SHADER_GROUP_TYPE_TRIANGLES_HIT_GROUP
            },
        }
    }
}

impl vstd::std_specs::convert::FromSpecImpl<RayTraceShaderGroupType> for i32 {
    open spec fn obeys_from_spec() -> bool {
        true
    }

    open spec fn from_spec(ty: RayTraceShaderGroupType) -> Self {
        ty.number()
    }
}

/// Describes the set of shader stages to be included in each shader group in the ray tracing
/// pipeline.
#[derive(Clone, Copy, Debug, PartialEq, Eq, Structural)]
pub struct RayTraceShaderGroup {
    /// The optional index of the any-hit shader in the group if the shader group has type of
    /// [`RayTraceShaderGroupType::TrianglesHitGroup`] or
    /// [`RayTraceShaderGroupType::ProceduralHitGroup`].
    pub any_hit_shader: Option<u32>,
    /// The optional index of the closest hit shader in the group if the shader group has type of
    /// [`RayTraceShaderGroupType::TrianglesHitGroup`] or
    /// [`RayTraceShaderGroupType::ProceduralHitGroup`].
    pub closest_hit_shader: Option<u32>,
    /// The index of the ray generation, miss, or callable shader in the group if the shader group
    /// has type of [`RayTraceShaderGroupType::General`].
    pub general_shader: Option<u32>,
    /// The index of the intersection shader in the group if the shader group has type of
    /// [`RayTraceShaderGroupType::ProceduralHitGroup`].
    pub intersection_shader: Option<u32>,
    /// The type of hit group specified in this structure.
    pub ty: RayTraceShaderGroupType,
}

impl RayTraceShaderGroup {
    /// A group of some type, with some shaders.
    fn new(
        ty: RayTraceShaderGroupType,
        general_shader: Option<u32>,
        intersection_shader: Option<u32>,
        closest_hit_shader: Option<u32>,
        any_hit_shader: Option<u32>,
    ) -> (group: Self)
        ensures
            group == (RayTraceShaderGroup {
                any_hit_shader,
                closest_hit_shader,
                general_shader,
                intersection_shader,
                ty,
            }),
    {
        RayTraceShaderGroup {
            any_hit_shader,
            closest_hit_shader,
            general_shader,
            intersection_shader,
            ty,
        }
    }

    /// Creates a new general-type shader group with the given general shader.
    pub fn new_general(general_shader: Option<u32>) -> (group: Self)
        ensures
            group == (RayTraceShaderGroup {
                any_hit_shader: None,
                closest_hit_shader: None,
                general_shader,
                intersection_shader: None,
                ty: RayTraceShaderGroupType::General,
            }),
    {
        RayTraceShaderGroup::new(RayTraceShaderGroupType::General, general_shader, None, None, None)
    }

    /// Creates a new procedural-type shader group with the given intersection shader, and optional
    /// closest-hit and any-hit shaders.
    pub fn new_procedural(
        intersection_shader: u32,
        closest_hit_shader: Option<u32>,
        any_hit_shader: Option<u32>,
    ) -> (group: Self)
        ensures
            group == (RayTraceShaderGroup {
                any_hit_shader,
                closest_hit_shader,
                general_shader: None,
                intersection_shader: Some(intersection_shader),
                ty: RayTraceShaderGroupType::ProceduralHitGroup,
            }),
    {
        RayTraceShaderGroup::new(
            RayTraceShaderGroupType::ProceduralHitGroup,
            None,
            Some(intersection_shader),
            closest_hit_shader,
            any_hit_shader,
        )
    }

    /// Creates a new triangles-type shader group with the given closest-hit shader and optional
    /// any-hit shader.
    pub fn new_triangles(closest_hit_shader: u32, any_hit_shader: Option<u32>) -> (group: Self)
        ensures
            group == (RayTraceShaderGroup {
                any_hit_shader,
                closest_hit_shader: Some(closest_hit_shader),
                general_shader: None,
                intersection_shader: None,
                ty: RayTraceShaderGroupType::TrianglesHitGroup,
            }),
    {
        RayTraceShaderGroup::new(
            RayTraceShaderGroupType::TrianglesHitGroup,
            None,
            None,
            Some(closest_hit_shader),
            any_hit_shader,
        )
    }

    /// The group as the driver takes it.
    pub open spec fn record(self) -> ShaderGroupRecord {
        ShaderGroupRecord {
            ty: self.ty.number(),
            general_shader: shader_index(self.general_shader),
            closest_hit_shader: shader_index(self.closest_hit_shader),
            any_hit_shader: shader_index(self.any_hit_shader),
            intersection_shader: shader_index(self.intersection_shader),
        }
    }
}

impl From<RayTraceShaderGroup> for ShaderGroupRecord {
    fn from(group: RayTraceShaderGroup) -> (record: Self) {
        ShaderGroupRecord {
            ty: i32::from(group.ty),
            general_shader: group.general_shader.unwrap_or(vk::SHADER_UNUSED_KHR),
            closest_hit_shader: group.closest_hit_shader.unwrap_or(vk::SHADER_UNUSED_KHR),
            any_hit_shader: group.any_hit_shader.unwrap_or(vk::SHADER_UNUSED_KHR),
            intersection_shader: group.intersection_shader.unwrap_or(vk::SHADER_UNUSED_KHR),
        }
    }
}

impl vstd::std_specs::convert::FromSpecImpl<RayTraceShaderGroup> for ShaderGroupRecord {
    open spec fn obeys_from_spec() -> bool {
        true
    }

    open spec fn from_spec(group: RayTraceShaderGroup) -> Self {
        group.record()
    }
}

/// Some groups as the driver takes them.
pub open spec fn records(groups: Seq<RayTraceShaderGroup>) -> Seq<ShaderGroupRecord> {
    Seq::new(groups.len(), |i: int| groups[i].record())
}

/// What a ray tracing pipeline is made from, apart from its shader modules.
#[derive(Debug)]
pub struct RayTracePipelinePlan {
    /// The shader groups.
    pub groups: Vec<ShaderGroupRecord>,
    /// The push constants of the pipeline's layout.
    pub push_constants: Vec<PushConstantRange>,
    /// The deepest recursion of rays.
    pub max_ray_recursion_depth: u32,
    /// The states that commands set.
    pub dynamic_states: Vec<i32>,
    /// The size of the handle of a shader group, in bytes.
    pub shader_group_handle_size: u32,
}

/// A ray tracing pipeline object.
#[derive(Debug)]
pub struct RayTracePipeline {
    /// The descriptor set layouts of the pipeline.
    pub descriptor_info: PipelineDescriptorInfo,
    /// The device which owns this ray tracing pipeline.
    pub device: u64,
    /// The native Vulkan pipeline handle of this ray tracing pipeline.
    pub handle: u64,
    /// The information used to create this object.
    pub info: RayTracePipelineInfo,
    /// The layout of the pipeline.
    pub layout: u64,
    /// The debugging name.
    pub name: PipelineName,
    /// The size of the handle of a shader group, in bytes.
    pub shader_group_handle_size: u32,
    /// The handles of the shader groups, one after another.
    pub shader_group_handles: Vec<u8>,
}

impl RayTracePipeline {
    /// What a pipeline is made from; a device without ray tracing makes none.
    pub fn plan(
        properties: Option<RayTracingPipelineProperties>,
        info: RayTracePipelineInfo,
        push_constants: &Vec<Option<PushConstantRange>>,
        groups: &Vec<RayTraceShaderGroup>,
    ) -> (plan: Result<RayTracePipelinePlan, DriverError>)
        ensures
            match properties {
                None => plan == Err::<RayTracePipelinePlan, DriverError>(DriverError::Unsupported),
                Some(properties) => {
                    &&& plan matches Ok(plan)
                    &&& plan.groups@ == records(groups@)
                    &&& plan.push_constants@ == present(push_constants@)
                    &&& plan.max_ray_recursion_depth == if info.max_ray_recursion_depth
                        <= properties.max_ray_recursion_depth {
                        info.max_ray_recursion_depth
                    } else {
                        properties.max_ray_recursion_depth
                    }
                    &&& plan.dynamic_states@ == (if info.dynamic_stack_size {
                        seq![vk::DYNAMIC_STATE_RAY_TRACING_PIPELINE_STACK_SIZE_KHR]
                    } else {
                        seq![]
                    })
                    &&& plan.shader_group_handle_size == properties.shader_group_handle_size
                },
            },
    {
        let properties = match properties {
            Some(properties) => properties,
            None => return Err(DriverError::Unsupported),
        };
        let mut taken: Vec<ShaderGroupRecord> = Vec::new();
        let mut index: usize = 0;
        while index < groups.len()
            invariant
                index <= groups@.len(),
                taken@ == records(groups@).take(index as int),
            decreases groups@.len() - index,
        {
            taken.push(ShaderGroupRecord::from(groups[index]));
            index += 1;
            assert(taken@ =~= records(groups@).take(index as int));
        }
        assert(taken@ =~= records(groups@));
        Ok(
            RayTracePipelinePlan {
                groups: taken,
                push_constants: present_ranges(push_constants),
                max_ray_recursion_depth: recursion_depth(
                    info.max_ray_recursion_depth,
                    properties.max_ray_recursion_depth,
                ),
                dynamic_states: dynamic_states(info.dynamic_stack_size),
                shader_group_handle_size: properties.shader_group_handle_size,
            },
        )
    }

    /// The handle of the pipeline among those that the driver made.
    pub fn made(handles: &Vec<u64>) -> (handle: u64)
        requires
            handles@.len() > 0,
        ensures
            handle == handles@[0],
    {
        handles[0]
    }

    /// Returns a handle to a shader group of this pipeline.
    ///
    /// This can be used to construct a shader binding table.
    pub fn group_handle(&self, idx: usize) -> (handle: &[u8])
        requires
            idx * self.shader_group_handle_size + self.shader_group_handle_size
                <= self.shader_group_handles@.len(),
        ensures
            handle@ == group_bytes(
                self.shader_group_handles@,
                self.shader_group_handle_size as nat,
                idx as nat,
            ),
    {
        group_handle(&self.shader_group_handles, self.shader_group_handle_size, idx)
    }

    /// The native Vulkan pipeline handle of this ray tracing pipeline.
    pub fn handle(&self) -> (handle: u64)
        ensures
            handle == self.handle,
    {
        self.handle
    }

    /// Gets the information used to create this object.
    pub fn info(&self) -> (info: RayTracePipelineInfo)
        ensures
            info == self.info,
    {
        self.info
    }

    /// Gets the debugging name assigned to this pipeline, if one has been set.
    pub fn debug_name(&self) -> (name: Option<&str>)
        ensures
            name is Some == self.name@ is Some,
            name matches Some(name) ==> self.name@ == Some(name@),
    {
        self.name.get()
    }

    /// Gets the debugging name assigned to this pipeline, if one has been set.
    pub fn name(&self) -> (name: Option<&str>)
        ensures
            name is Some == self.name@ is Some,
            name matches Some(name) ==> self.name@ == Some(name@),
    {
        self.name.get()
    }

    /// Sets the debugging name assigned to this pipeline.
    ///
    /// The pipeline name may only be assigned once. Subsequent calls will not update the
    /// previously set name value.
    pub fn set_debug_name(&mut self, name: String)
        ensures
            final(self).name.spec_debug() == old(self).name.spec_debug(),
            final(self).name@ == (if old(self).name.spec_debug() && old(self).name@ is None {
                Some(name@)
            } else {
                old(self).name@
            }),
            *final(self) == (RayTracePipeline { name: final(self).name, ..*old(self) }),
    {
        self.name.set(name);
    }

    /// The device which owns this ray tracing pipeline.
    pub fn device(&self) -> (device: u64)
        ensures
            device == self.device,
    {
        self.device
    }

    /// Sets the debugging name assigned to a pipeline, as [`RayTracePipeline::with_debug_name`] does.
    pub fn with_name(this: Self, name: String) -> (pipeline: Self)
        ensures
            pipeline.name.spec_debug() == this.name.spec_debug(),
            pipeline.name@ == (if this.name.spec_debug() && this.name@ is None {
                Some(name@)
            } else {
                this.name@
            }),
            pipeline == (RayTracePipeline { name: pipeline.name, ..this }),
    {
        this.with_debug_name(name)
    }

    /// Sets the debugging name assigned to this pipeline.
    ///
    /// The pipeline name may only be assigned once. Subsequent calls will not update the
    /// previously set name value.
    pub fn with_debug_name(self, name: String) -> (pipeline: Self)
        ensures
            pipeline.name.spec_debug() == self.name.spec_debug(),
            pipeline.name@ == (if self.name.spec_debug() && self.name@ is None {
                Some(name@)
            } else {
                self.name@
            }),
            pipeline == (RayTracePipeline { name: pipeline.name, ..self }),
    {
        let mut pipeline = self;
        pipeline.set_debug_name(name);
        pipeline
    }

    /// What is destroyed with the pipeline, in order; nothing while a panic unwinds.
    pub fn teardown(&self, panicking: bool) -> (steps: Vec<PipelineTeardown>)
        ensures
            steps@ == (if panicking {
                seq![]
            } else {
                seq![
                    PipelineTeardown::Pipeline(self.handle),
                    PipelineTeardown::Layout(self.layout),
                ]
            }),
    {
        let mut steps: Vec<PipelineTeardown> = Vec::new();
        if !panicking {
            steps.push(PipelineTeardown::Pipeline(self.handle));
            steps.push(PipelineTeardown::Layout(self.layout));
        }
        steps
    }
}

/// General groups, groups of triangles and groups of procedures are numbered in this order.
pub proof fn group_types_are_numbered(ty: RayTraceShaderGroupType)
    ensures
        ty == RayTraceShaderGroupType::General <==> ty.number() == 0,
        ty == RayTraceShaderGroupType::TrianglesHitGroup <==> ty.number() == 1,
        ty == RayTraceShaderGroupType::ProceduralHitGroup <==> ty.number() == 2,
{
}

/// What is changed of a group is changed of its record, and nothing else.
pub proof fn changes_of_groups_are_recorded(
    group: RayTraceShaderGroup,
    ty: RayTraceShaderGroupType,
    shader: u32,
)
    ensures
        (RayTraceShaderGroup { ty, ..group }).record() == (ShaderGroupRecord {
            ty: ty.number(),
            ..group.record()
        }),
        (RayTraceShaderGroup { general_shader: Some(shader), ..group }).record() == (
        ShaderGroupRecord { general_shader: shader, ..group.record() }),
        (RayTraceShaderGroup { closest_hit_shader: Some(shader), ..group }).record() == (
        ShaderGroupRecord { closest_hit_shader: shader, ..group.record() }),
        (RayTraceShaderGroup { any_hit_shader: Some(shader), ..group }).record() == (
        ShaderGroupRecord { any_hit_shader: shader, ..group.record() }),
        (RayTraceShaderGroup { intersection_shader: Some(shader), ..group }).record() == (
        ShaderGroupRecord { intersection_shader: shader, ..group.record() }),
        (RayTraceShaderGroup { general_shader: None, ..group }).record() == (
        ShaderGroupRecord { general_shader: u32::MAX, ..group.record() }),
        (RayTraceShaderGroup { closest_hit_shader: None, ..group }).record() == (
        ShaderGroupRecord { closest_hit_shader: u32::MAX, ..group.record() }),
        (RayTraceShaderGroup { any_hit_shader: None, ..group }).record() == (
        ShaderGroupRecord { any_hit_shader: u32::MAX, ..group.record() }),
        (RayTraceShaderGroup { intersection_shader: None, ..group }).record() == (
        ShaderGroupRecord { intersection_shader: u32::MAX, ..group.record() }),
{
}

/// Groups are recorded one by one, in order.
pub proof fn groups_are_recorded_in_order(groups: Seq<RayTraceShaderGroup>, group: RayTraceShaderGroup)
    ensures
        records(groups.push(group)) == records(groups).push(group.record()),
        records(Seq::empty()) == Seq::<ShaderGroupRecord>::empty(),
{
    assert(records(groups.push(group)) =~= records(groups).push(group.record()));
    assert(records(Seq::empty()) =~= Seq::<ShaderGroupRecord>::empty());
}

/// A field that was set is built as it was set, whatever else was, and one that was not set has its
/// default.
pub proof fn ray_trace_pipeline_info_fields_are_built_apart(builder: RayTracePipelineInfoBuilder)
    ensures
        ({
            let built = builder.built();
            &&& builder.bindless_descriptor_count matches Some(value)
                ==> built.bindless_descriptor_count == value
            &&& builder.dynamic_stack_size matches Some(value) ==> built.dynamic_stack_size == value
            &&& builder.max_ray_recursion_depth matches Some(value)
                ==> built.max_ray_recursion_depth == value
            &&& builder.bindless_descriptor_count is None ==> built.bindless_descriptor_count
                == 8192
            &&& builder.dynamic_stack_size is None ==> !built.dynamic_stack_size
            &&& builder.max_ray_recursion_depth is None ==> built.max_ray_recursion_depth == 16
        }),
{
}

} // verus!
