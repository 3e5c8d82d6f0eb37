use vk_driver::compute::{ComputePipelineInfo, ComputePipelineInfoBuilder};
use vk_driver::graphic::{
    BlendInfo, BlendInfoBuilder, DepthStencilInfo, DepthStencilInfoBuilder, GraphicsPipelineInfo,
    GraphicsPipelineInfoBuilder,
};
use vk_driver::ray_trace::{RayTracePipelineInfo, RayTracePipelineInfoBuilder};
use vk_driver::ray_tracing::{RayTracingPipelineInfo, RayTracingPipelineInfoBuilder};

#[test]
fn compute_pipeline_info() {
    let info = ComputePipelineInfo::default();
    let builder = info.into_builder().build();

    assert_eq!(info, builder);
}

#[test]
fn compute_pipeline_info_builder() {
    let info = ComputePipelineInfo::default();
    let builder = ComputePipelineInfoBuilder::default().build();

    assert_eq!(info, builder);
}

#[test]
fn blend_info() {
    let info = BlendInfo::default();
    let builder = info.into_builder().build();

    assert_eq!(info, builder);
}

#[test]
fn blend_info_builder() {
    let info = BlendInfo::default();
    let builder = BlendInfoBuilder::default().build();

    assert_eq!(info, builder);
}

#[test]
fn depth_stencil_info() {
    let info = DepthStencilInfo::default();
    let builder = info.into_builder().build();

    assert_eq!(info, builder);
}

#[test]
fn depth_stencil_info_builder() {
    let info = DepthStencilInfo::default();
    let builder = DepthStencilInfoBuilder::default().build();

    assert_eq!(info, builder);
}

#[test]
fn graphics_pipeline_info() {
    let info = GraphicsPipelineInfo::default();
    let builder = info.into_builder().build();

    assert_eq!(info, builder);
}

#[test]
fn graphics_pipeline_info_builder() {
    let info = GraphicsPipelineInfo::default();
    let builder = GraphicsPipelineInfoBuilder::default().build();

    assert_eq!(info, builder);
}

#[test]
fn ray_trace_pipeline_info() {
    let info = RayTracePipelineInfo::default();
    let builder = info.into_builder().build();

    assert_eq!(info, builder);
}

#[test]
fn ray_trace_pipeline_info_builder() {
    let info = RayTracePipelineInfo::default();
    let builder = RayTracePipelineInfoBuilder::default().build();

    assert_eq!(info, builder);
}

#[test]
fn ray_tracing_pipeline_info() {
    let info = RayTracingPipelineInfo::default();
    let builder = info.into_builder().build();

    assert_eq!(info, builder);
}

#[test]
fn ray_tracing_pipeline_info_builder() {
    let info = RayTracingPipelineInfo::default();
    let builder = RayTracingPipelineInfoBuilder::default().build();

    assert_eq!(info, builder);
}

