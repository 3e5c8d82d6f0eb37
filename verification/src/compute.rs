//! Compute pipeline types.

use crate::descriptor_set::{DescriptorSetPipeline, PipelineDescriptorInfo};
use crate::error::DriverError;
use crate::handles::{first_handle, first_nonzero};
use crate::pipeline::{
    accept_shader_module, layout_name, set_name_text, set_names, PipelineTeardown,
    PushConstantRange,
};
use vstd::prelude::*;

verus! {

/// Information used to create a [`ComputePipeline`].
#[derive(Clone, Copy, Debug, PartialEq, Eq, Hash, Structural)]
pub struct ComputePipelineInfo {
    /// The number of descriptors to allocate for a given binding when using bindless (unbounded)
    /// syntax.
    ///
    /// The default is `8192`.
    pub bindless_descriptor_count: u32,
}

/// Builds a [`ComputePipelineInfo`]; what is not set takes its default.
#[derive(Clone, Copy, Debug)]
pub struct ComputePipelineInfoBuilder {
    /// See [`ComputePipelineInfo::bindless_descriptor_count`].
    pub bindless_descriptor_count: Option<u32>,
}

impl ComputePipelineInfo {
    /// The builder in which every field is set to this value's.
    pub open spec fn as_builder(self) -> ComputePipelineInfoBuilder {
        ComputePipelineInfoBuilder {
            bindless_descriptor_count: Some(self.bindless_descriptor_count),
        }
    }

    /// Creates a default `ComputePipelineInfoBuilder`.
    pub fn builder() -> (builder: ComputePipelineInfoBuilder)
        ensures
            builder == ComputePipelineInfoBuilder::unset(),
    {
        ComputePipelineInfoBuilder::default()
    }

    /// Converts a `ComputePipelineInfo` into a `ComputePipelineInfoBuilder`.
    pub fn into_builder(self) -> (builder: ComputePipelineInfoBuilder)
        ensures
            builder == self.as_builder(),
    {
        ComputePipelineInfoBuilder {
            bindless_descriptor_count: Some(self.bindless_descriptor_count),
        }
    }
}

impl ComputePipelineInfoBuilder {
    /// The builder in which nothing is set.
    pub open spec fn unset() -> Self {
        ComputePipelineInfoBuilder {
            bindless_descriptor_count: None,
        }
    }

    /// The value that the builder describes.
    pub open spec fn built(self) -> ComputePipelineInfo {
        ComputePipelineInfo {
            bindless_descriptor_count: self.bindless_descriptor_count.unwrap_or(8192),
        }
    }

    /// Sets [`ComputePipelineInfo::bindless_descriptor_count`].
    pub fn bindless_descriptor_count(self, bindless_descriptor_count: u32) -> (builder: Self)
        ensures
            builder == (ComputePipelineInfoBuilder {
                bindless_descriptor_count: Some(bindless_descriptor_count),
                ..self
            }),
    {
        ComputePipelineInfoBuilder {
            bindless_descriptor_count: Some(bindless_descriptor_count),
            ..self
        }
    }

    /// Builds a new `ComputePipelineInfo`.
    pub fn build(self) -> (info: ComputePipelineInfo)
        ensures
            info == self.built(),
    {
        ComputePipelineInfo {
            bindless_descriptor_count: self.bindless_descriptor_count.unwrap_or(8192),
        }
    }
}

impl Default for ComputePipelineInfoBuilder {
    fn default() -> (builder: Self)
        ensures
            builder == ComputePipelineInfoBuilder::unset(),
    {
        ComputePipelineInfoBuilder {
            bindless_descriptor_count: None,
        }
    }
}

impl From<ComputePipelineInfoBuilder> for ComputePipelineInfo {
    fn from(builder: ComputePipelineInfoBuilder) -> (info: Self) {
        builder.build()
    }
}

impl vstd::std_specs::convert::FromSpecImpl<ComputePipelineInfoBuilder> for ComputePipelineInfo {
    open spec fn obeys_from_spec() -> bool {
        true
    }

    open spec fn from_spec(builder: ComputePipelineInfoBuilder) -> Self {
        builder.built()
    }
}

impl Default for ComputePipelineInfo {
    fn default() -> (info: Self)
        ensures
            info == ComputePipelineInfoBuilder::unset().built(),
    {
        ComputePipelineInfoBuilder::default().build()
    }
}

/// Building what a value was converted into gives the value back.
pub proof fn compute_pipeline_info_round_trip(info: ComputePipelineInfo)
    ensures
        info.as_builder().built() == info,
{
}

/// How far making a compute pipeline has come.
#[derive(Clone, Copy, Debug, PartialEq, Eq, Structural)]
pub enum ComputeStage {
    /// A shader module is to be made.
    ShaderModule,
    /// A pipeline layout is to be made.
    Layout {
        /// The shader module.
        module: u64,
    },
    /// The pipeline is to be made.
    Pipeline {
        /// The shader module.
        module: u64,
        /// The pipeline layout.
        layout: u64,
    },
    /// The pipeline was made.
    Made {
        /// The pipeline.
        handle: u64,
        /// The pipeline layout.
        layout: u64,
    },
    /// The pipeline was not made.
    Failed(DriverError),
}

/// A compute pipeline object.
#[derive(Debug)]
pub struct ComputePipeline {
    /// The descriptor set layouts of the pipeline.
    pub descriptor_info: PipelineDescriptorInfo,
    /// The device which owns this compute pipeline.
    pub device: u64,
    /// The native Vulkan pipeline handle of this compute pipeline.
    pub handle: u64,
    /// The information used to create this object.
    pub info: ComputePipelineInfo,
    /// The layout of the pipeline.
    pub layout: u64,
    /// The push constants of the pipeline.
    pub push_constants: Option<PushConstantRange>,
}

impl ComputePipeline {
    /// Where making a pipeline goes when the driver has answered; a shader module that is not
    /// needed any more is destroyed.
    ///
    /// The answer is the handles that were made, or `None` where making them failed.
    pub fn advance(stage: ComputeStage, entry_name: &str, answer: Option<&Vec<u64>>) -> (next: (
        ComputeStage,
        Option<u64>,
    ))
        requires
            !(stage is Made),
            !(stage is Failed),
            !(stage is Pipeline) && answer is Some ==> answer->0@.len() == 1,
        ensures
            match stage {
                ComputeStage::ShaderModule => {
                    &&& next.1 is None
                    &&& answer is None ==> next.0 == ComputeStage::Failed(DriverError::Unsupported)
                    &&& answer is Some && entry_name@.contains('\0') ==> next.0
                        == ComputeStage::Failed(DriverError::InvalidData)
                    &&& answer is Some && !entry_name@.contains('\0') ==> next.0
                        == ComputeStage::Layout { module: answer->0@[0] }
                },
                ComputeStage::Layout { module } => {
                    &&& answer is None ==> next == (
                        ComputeStage::Failed(DriverError::Unsupported),
                        Some(module),
                    )
                    &&& answer is Some ==> next == (
                        ComputeStage::Pipeline { module, layout: answer->0@[0] },
                        None::<u64>,
                    )
                },
                ComputeStage::Pipeline { module, layout } => match answer {
                    None => next == (ComputeStage::Failed(DriverError::Unsupported), Some(module)),
                    Some(handles) => match first_nonzero(handles@) {
                        Some(handle) => next == (ComputeStage::Made { handle, layout }, Some(module)),
                        None => next == (
                            ComputeStage::Failed(DriverError::Unsupported),
                            None::<u64>,
                        ),
                    },
                },
                _ => true,
            },
    {
        match stage {
            ComputeStage::ShaderModule => {
                match accept_shader_module(answer.is_some(), entry_name) {
                    Err(error) => (ComputeStage::Failed(error), None),
                    Ok(()) => match answer {
                        Some(handles) => (ComputeStage::Layout { module: handles[0] }, None),
                        None => (ComputeStage::Failed(DriverError::Unsupported), None),
                    },
                }
            },
            ComputeStage::Layout { module } => match answer {
                Some(handles) => (ComputeStage::Pipeline { module, layout: handles[0] }, None),
                None => (ComputeStage::Failed(DriverError::Unsupported), Some(module)),
            },
            ComputeStage::Pipeline { module, layout } => match answer {
                Some(handles) => match first_handle(handles) {
                    Some(handle) => (ComputeStage::Made { handle, layout }, Some(module)),
                    None => (ComputeStage::Failed(DriverError::Unsupported), None),
                },
                None => (ComputeStage::Failed(DriverError::Unsupported), Some(module)),
            },
            _ => (stage, None),
        }
    }

    /// The native Vulkan pipeline handle of this compute pipeline.
    pub fn handle(&self) -> (handle: u64)
        ensures
            handle == self.handle,
    {
        self.handle
    }

    /// Gets the information used to create this object.
    pub fn info(&self) -> (info: ComputePipelineInfo)
        ensures
            info == self.info,
    {
        self.info
    }

    /// The names that the pipeline's layout and its descriptor set layouts get with the
    /// pipeline's own.
    pub fn debug_names(&self, name: &str) -> (names: (String, Vec<(u64, String)>))
        ensures
            names.0@ == name@ + " (layout)"@,
            names.1@.len() == self.descriptor_info.layouts@.len(),
            forall|i: int|
                0 <= i < names.1@.len() ==> (#[trigger] names.1@[i]).0
                    == self.descriptor_info.layouts@[i].1.handle && names.1@[i].1@ == set_name_text(
                    name@,
                    self.descriptor_info.layouts@[i].0,
                ),
    {
        (layout_name(name), set_names(&self.descriptor_info, name))
    }

    /// What is destroyed with the pipeline, in order; nothing while a panic unwinds.
    pub fn teardown(&self, panicking: bool) -> (steps: Vec<PipelineTeardown>)
        ensures
            steps@ == (if panicking {
                seq![]
            } else {
                seq![
                    PipelineTeardown::Name(self.handle),
                    PipelineTeardown::Pipeline(self.handle),
                    PipelineTeardown::Layout(self.layout),
                ]
            }),
    {
        let mut steps: Vec<PipelineTeardown> = Vec::new();
        if !panicking {
            steps.push(PipelineTeardown::Name(self.handle));
            steps.push(PipelineTeardown::Pipeline(self.handle));
            steps.push(PipelineTeardown::Layout(self.layout));
        }
        steps
    }
}

impl DescriptorSetPipeline for ComputePipeline {
    open spec fn descriptors(&self) -> PipelineDescriptorInfo {
        self.descriptor_info
    }

    open spec fn device_id(&self) -> u64 {
        self.device
    }

    fn descriptor_info(&self) -> (info: &PipelineDescriptorInfo) {
        &self.descriptor_info
    }

    fn device(&self) -> (device: u64) {
        self.device
    }
}

/// A field that was set is built as it was set, whatever else was, and one that was not set has its
/// default.
pub proof fn compute_pipeline_info_fields_are_built_apart(builder: ComputePipelineInfoBuilder)
    ensures
        ({
            let built = builder.built();
            &&& builder.bindless_descriptor_count matches Some(value)
                ==> built.bindless_descriptor_count == value
            &&& builder.bindless_descriptor_count is None ==> built.bindless_descriptor_count
                == 8192
        }),
{
}

} // verus!
