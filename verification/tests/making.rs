use vk_driver::compute::{ComputePipeline, ComputePipelineInfo, ComputeStage};
use vk_driver::descriptor_set::{DescriptorSetPipeline, PipelineDescriptorInfo};
use vk_driver::descriptor_set_layout::{DescriptorSetLayout, DescriptorSetLayoutInfo};
use vk_driver::error::DriverError;
use vk_driver::graphic::{
    distinct_items, BlendInfo, DepthStencilInfo, GraphicsPipeline, GraphicsPipelineInfo,
    MultisampleState, ShaderSummary, StencilMode,
};
use vk_driver::image_info::SampleCount;
use vk_driver::pipeline::{
    accept_shader_module, layout_handles, present_ranges, set_bindless_counts, PipelineTeardown,
    PushConstantRange,
};
use vk_driver::ray_trace::{RayTracePipeline, RayTracePipelineInfo, RayTraceShaderGroup};
use vk_driver::ray_tracing::{
    RayTracingPipeline, RayTracingPipelineInfo, RayTracingShaderGroup, RayTracingShaderGroupType,
};
use vk_driver::render_pass::{
    AttachmentInfo, AttachmentRef, DepthStencilResolve, FramebufferAttachmentImageInfo,
    FramebufferInfo, FramebufferPlan, GraphicPipelineKey, RenderPass, RenderPassInfo,
    RenderPassTeardown, ResolveMode, SubpassDependency, SubpassInfo,
};
use vk_driver::shader_group::{
    after_pipelines, check_entry_names, handles_size, module_failed, RayTracingPipelineProperties,
    ShaderGroupRecord,
};
use vk_driver::vk;

fn range(offset: u32) -> PushConstantRange {
    PushConstantRange {
        stage_flags: vk::SHADER_STAGE_VERTEX,
        offset,
        size: 4,
    }
}

fn descriptor_info() -> PipelineDescriptorInfo {
    let layout = |handle: u64| DescriptorSetLayout {
        device: 1,
        handle,
        info: DescriptorSetLayoutInfo { bindings: vec![] },
    };
    PipelineDescriptorInfo {
        layouts: vec![(0, layout(50)), (12, layout(51))],
    }
}

fn shader(stage: u32, input_attachments: &[u32]) -> ShaderSummary {
    ShaderSummary {
        stage,
        push_constants: Some(range(stage)),
        input_attachments: input_attachments.to_vec(),
    }
}

fn graphics_pipeline(debug: bool) -> GraphicsPipeline {
    let shaders = vec![
        shader(vk::SHADER_STAGE_VERTEX, &[]),
        shader(vk::SHADER_STAGE_FRAGMENT, &[2]),
    ];
    let info = GraphicsPipelineInfo::builder()
        .blend(BlendInfo::alpha())
        .build();
    let plan = GraphicsPipeline::plan(info, &shaders).unwrap();
    GraphicsPipeline::new(1, descriptor_info(), info, plan, 60, vec![70, 71], debug)
}

#[test]
fn unbounded_bindings_get_the_bindless_count() {
    let mut counts = vec![0, 3, 0];
    set_bindless_counts(
        &mut counts,
        ComputePipelineInfo::default().bindless_descriptor_count,
    );
    assert_eq!(counts, [8192, 3, 8192]);
    assert_eq!(layout_handles(&descriptor_info()), [50, 51]);
    assert_eq!(
        present_ranges(&vec![None, Some(range(1)), None, Some(range(2))]),
        [range(1), range(2)]
    );
}

#[test]
fn shader_modules_need_a_clean_entry_name() {
    assert_eq!(
        accept_shader_module(false, "main\0"),
        Err(DriverError::Unsupported)
    );
    assert_eq!(
        accept_shader_module(true, "main\0"),
        Err(DriverError::InvalidData)
    );
    assert_eq!(accept_shader_module(true, "main"), Ok(()));
}

#[test]
fn compute_pipelines_are_made_step_by_step() {
    let (stage, destroyed) =
        ComputePipeline::advance(ComputeStage::ShaderModule, "main", Some(&vec![3]));
    assert_eq!(
        (stage, destroyed),
        (ComputeStage::Layout { module: 3 }, None)
    );
    let (stage, destroyed) = ComputePipeline::advance(stage, "main", Some(&vec![4]));
    assert_eq!(
        (stage, destroyed),
        (
            ComputeStage::Pipeline {
                module: 3,
                layout: 4
            },
            None
        )
    );
    assert_eq!(
        ComputePipeline::advance(stage, "main", Some(&vec![0, 5])),
        (
            ComputeStage::Made {
                handle: 5,
                layout: 4
            },
            Some(3)
        )
    );
    assert_eq!(
        ComputePipeline::advance(stage, "main", Some(&vec![0])),
        (ComputeStage::Failed(DriverError::Unsupported), None)
    );
    assert_eq!(
        ComputePipeline::advance(stage, "main", None),
        (ComputeStage::Failed(DriverError::Unsupported), Some(3))
    );
    assert_eq!(
        ComputePipeline::advance(ComputeStage::Layout { module: 3 }, "main", None),
        (ComputeStage::Failed(DriverError::Unsupported), Some(3))
    );
    assert_eq!(
        ComputePipeline::advance(ComputeStage::ShaderModule, "ma\0in", Some(&vec![3])),
        (ComputeStage::Failed(DriverError::InvalidData), None)
    );
}

#[test]
fn pipelines_name_their_layouts() {
    let pipeline = ComputePipeline {
        descriptor_info: descriptor_info(),
        device: 1,
        handle: 5,
        info: ComputePipelineInfo::default(),
        layout: 6,
        push_constants: None,
    };
    let (layout, sets) = pipeline.debug_names("blur");
    assert_eq!(layout, "blur (layout)");
    assert_eq!(
        sets,
        [
            (50, "blur (DS0)".to_owned()),
            (51, "blur (DS12)".to_owned())
        ]
    );
    assert_eq!((pipeline.handle(), pipeline.device()), (5, 1));
    assert_eq!(pipeline.info().bindless_descriptor_count, 8192);
    assert!(pipeline.teardown(true).is_empty());
    assert_eq!(
        pipeline.teardown(false),
        [
            PipelineTeardown::Name(5),
            PipelineTeardown::Pipeline(5),
            PipelineTeardown::Layout(6),
        ]
    );
}

#[test]
fn common_blend_and_depth_modes() {
    assert_eq!(BlendInfo::default(), BlendInfo::replace());
    assert!(!BlendInfo::replace().blend_enable);
    let alpha = BlendInfo::alpha();
    assert!(alpha.blend_enable);
    assert_eq!(alpha.src_color_blend_factor, vk::BLEND_FACTOR_SRC_ALPHA);
    assert_eq!(alpha.src_alpha_blend_factor, vk::BLEND_FACTOR_SRC_ALPHA);
    let pre_multiplied = BlendInfo::pre_multiplied_alpha();
    assert_eq!(
        pre_multiplied.dst_color_blend_factor,
        vk::BLEND_FACTOR_ONE_MINUS_SRC_ALPHA
    );
    assert_eq!(
        pre_multiplied.dst_alpha_blend_factor,
        vk::BLEND_FACTOR_ONE
    );
    assert_eq!(alpha.color_write_mask, 0xf);
    assert_eq!(DepthStencilInfo::default(), DepthStencilInfo::ignore());
    assert_eq!(StencilMode::default(), StencilMode::ignore());
    let depth = DepthStencilInfo::depth_write_less_ignore_stencil();
    assert_eq!(f32::from_bits(depth.max), 1.0);
    assert_eq!(f32::from_bits(depth.min), 0.0);
    assert_eq!(depth.compare_op, vk::COMPARE_OP_LESS);
    assert!(depth.bounds_test && depth.depth_test && depth.depth_write && !depth.stencil_test);
}

#[test]
fn graphics_pipelines_need_a_vertex_shader() {
    let info = GraphicsPipelineInfo::default();
    assert!(matches!(
        GraphicsPipeline::plan(info, &vec![shader(vk::SHADER_STAGE_FRAGMENT, &[])]),
        Err(DriverError::InvalidData)
    ));
    let shaders = vec![
        shader(vk::SHADER_STAGE_FRAGMENT, &[3, 1, 3, 2, 1]),
        shader(vk::SHADER_STAGE_VERTEX, &[9]),
        ShaderSummary {
            push_constants: None,
            ..shader(vk::SHADER_STAGE_FRAGMENT, &[8])
        },
    ];
    let plan = GraphicsPipeline::plan(info, &shaders).unwrap();
    assert_eq!(plan.vertex_shader, 1);
    assert_eq!(
        plan.push_constants,
        [
            range(vk::SHADER_STAGE_FRAGMENT),
            range(vk::SHADER_STAGE_VERTEX)
        ]
    );
    assert_eq!(plan.input_attachments, [3, 1, 2]);
    assert!(!plan.multisample.sample_shading_enable);
    assert_eq!(distinct_items(&vec![5, 5, 4, 5]), [5, 4]);
}

#[test]
fn stages_are_complete_with_fragments_tessellation_or_geometry() {
    let complete = |stages: &[u32]| {
        let shaders = stages
            .iter()
            .map(|stage| shader(*stage, &[]))
            .collect::<Vec<_>>();
        GraphicsPipeline::has_complete_stages(&shaders)
    };
    assert!(!complete(&[vk::SHADER_STAGE_VERTEX]));
    assert!(complete(&[
        vk::SHADER_STAGE_VERTEX,
        vk::SHADER_STAGE_FRAGMENT
    ]));
    assert!(complete(&[
        vk::SHADER_STAGE_VERTEX,
        vk::SHADER_STAGE_GEOMETRY
    ]));
    assert!(!complete(&[
        vk::SHADER_STAGE_VERTEX,
        vk::SHADER_STAGE_TESSELLATION_CONTROL
    ]));
    assert!(complete(&[
        vk::SHADER_STAGE_TESSELLATION_EVALUATION,
        vk::SHADER_STAGE_TESSELLATION_CONTROL
    ]));
}

#[test]
fn sample_shading_follows_its_minimum() {
    let info = GraphicsPipelineInfo::builder()
        .min_sample_shading(0.5f32.to_bits())
        .samples(SampleCount::Type4)
        .alpha_to_one(true)
        .build();
    assert_eq!(info.into_builder().build(), info);
    assert_eq!(
        MultisampleState::new(info),
        MultisampleState {
            alpha_to_coverage_enable: false,
            alpha_to_one_enable: true,
            min_sample_shading: 0.5f32.to_bits(),
            rasterization_samples: SampleCount::Type4,
            sample_shading_enable: true,
        }
    );
}

#[test]
fn debugging_names_are_given_once() {
    let pipeline = graphics_pipeline(true).with_debug_name("first".to_owned());
    assert_eq!(pipeline.debug_name(), Some("first"));
    let pipeline = pipeline.with_debug_name("second".to_owned());
    assert_eq!(pipeline.debug_name(), Some("first"));
    assert_eq!(pipeline.info().blend, BlendInfo::alpha());
    assert_eq!(
        pipeline.teardown(false),
        [
            PipelineTeardown::Layout(60),
            PipelineTeardown::Module(70),
            PipelineTeardown::Module(71),
        ]
    );
    let pipeline = graphics_pipeline(false).with_debug_name("first".to_owned());
    assert_eq!(pipeline.debug_name(), None);
}

#[test]
fn shader_groups_leave_shaders_unused() {
    assert_eq!(
        ShaderGroupRecord::from(RayTracingShaderGroup::new_general(Some(2))),
        ShaderGroupRecord {
            ty: vk::RAY_TRACING_SHADER_GROUP_TYPE_GENERAL,
            general_shader: 2,
            closest_hit_shader: vk::SHADER_UNUSED_KHR,
            any_hit_shader: vk::SHADER_UNUSED_KHR,
            intersection_shader: vk::SHADER_UNUSED_KHR,
        }
    );
    assert_eq!(
        ShaderGroupRecord::from(RayTracingShaderGroup::new_procedural(1, None, Some(4))),
        ShaderGroupRecord {
            ty: vk::RAY_TRACING_SHADER_GROUP_TYPE_PROCEDURAL_HIT_GROUP,
            general_shader: vk::SHADER_UNUSED_KHR,
            closest_hit_shader: vk::SHADER_UNUSED_KHR,
            any_hit_shader: 4,
            intersection_shader: 1,
        }
    );
    assert_eq!(
        ShaderGroupRecord::from(RayTraceShaderGroup::new_triangles(3, None)),
        ShaderGroupRecord {
            ty: vk::RAY_TRACING_SHADER_GROUP_TYPE_TRIANGLES_HIT_GROUP,
            general_shader: vk::SHADER_UNUSED_KHR,
            closest_hit_shader: 3,
            any_hit_shader: vk::SHADER_UNUSED_KHR,
            intersection_shader: vk::SHADER_UNUSED_KHR,
        }
    );
    assert_eq!(
        i32::from(RayTracingShaderGroupType::TrianglesHitGroup),
        vk::RAY_TRACING_SHADER_GROUP_TYPE_TRIANGLES_HIT_GROUP
    );
}

#[test]
fn recursion_is_no_deeper_than_the_device_allows() {
    let properties = Some(RayTracingPipelineProperties {
        max_ray_recursion_depth: 8,
        shader_group_handle_size: 32,
    });
    let groups = vec![RayTracingShaderGroup::new_general(Some(0))];
    let info = RayTracingPipelineInfo::default();
    assert_eq!(info.max_ray_recursion_depth, 16);
    let plan =
        RayTracingPipeline::plan(properties, info, &vec![Some(range(0)), None], &groups).unwrap();
    assert_eq!(plan.max_ray_recursion_depth, 8);
    assert!(plan.dynamic_states.is_empty());
    assert_eq!(plan.push_constants, [range(0)]);
    assert_eq!(plan.groups.len(), 1);
    assert_eq!(plan.shader_group_handle_size, 32);
    let info = info
        .into_builder()
        .max_ray_recursion_depth(1)
        .dynamic_stack_size(true)
        .build();
    let plan = RayTracingPipeline::plan(properties, info, &vec![], &groups).unwrap();
    assert_eq!(plan.max_ray_recursion_depth, 1);
    assert_eq!(
        plan.dynamic_states,
        [vk::DYNAMIC_STATE_RAY_TRACING_PIPELINE_STACK_SIZE_KHR]
    );
    assert!(matches!(
        RayTracingPipeline::plan(None, info, &vec![], &groups),
        Err(DriverError::Unsupported)
    ));
    assert!(matches!(
        RayTracePipeline::plan(None, RayTracePipelineInfo::default(), &vec![], &vec![]),
        Err(DriverError::Unsupported)
    ));
    assert_eq!(RayTracingPipeline::made(&vec![0, 9]), Ok(9));
    assert_eq!(
        RayTracingPipeline::made(&vec![0]),
        Err(DriverError::Unsupported)
    );
    assert_eq!(RayTracePipeline::made(&vec![0, 9]), 0);
}

#[test]
fn failed_ray_tracing_pipelines_are_cleaned_up() {
    assert_eq!(
        module_failed(4, &vec![1, 2]),
        [
            PipelineTeardown::Layout(4),
            PipelineTeardown::Module(1),
            PipelineTeardown::Module(2),
        ]
    );
    assert_eq!(
        after_pipelines(&vec![1], None, 4),
        [PipelineTeardown::Module(1)]
    );
    assert_eq!(
        after_pipelines(&vec![1], Some(&vec![7]), 4),
        [
            PipelineTeardown::Module(1),
            PipelineTeardown::Pipeline(7),
            PipelineTeardown::Layout(4),
        ]
    );
    assert_eq!(check_entry_names(&vec!["main".to_owned()]), Ok(()));
    assert_eq!(
        check_entry_names(&vec!["main".to_owned(), "m\0".to_owned()]),
        Err(DriverError::InvalidData)
    );
}

#[test]
fn group_handles_divide_the_bytes() {
    let bytes = (0..12).collect::<Vec<u8>>();
    let pipeline = RayTracePipeline {
        descriptor_info: descriptor_info(),
        device: 1,
        handle: 5,
        info: RayTracePipelineInfo::default(),
        layout: 6,
        name: vk_driver::pipeline::PipelineName::new(true),
        shader_group_handle_size: 4,
        shader_group_handles: bytes.clone(),
    };
    assert_eq!(handles_size(3, 4), 12);
    let mut all = Vec::new();
    for group in 0..3 {
        all.extend_from_slice(pipeline.group_handle(group));
    }
    assert_eq!(all, bytes);
    assert_eq!(pipeline.group_handle(1), [4, 5, 6, 7]);
    let pipeline = RayTracePipeline::with_name(pipeline, "rays".to_owned());
    assert_eq!(pipeline.name(), Some("rays"));
    assert_eq!(pipeline.debug_name(), Some("rays"));
    assert_eq!(
        pipeline.info().to_builder().build(),
        RayTracePipelineInfo::default()
    );
    assert_eq!(
        pipeline.teardown(false),
        [PipelineTeardown::Pipeline(5), PipelineTeardown::Layout(6)]
    );
}

fn reference(attachment: u32) -> AttachmentRef {
    AttachmentRef {
        attachment,
        aspect_mask: vk::IMAGE_ASPECT_COLOR,
        layout: vk::IMAGE_LAYOUT_GENERAL,
    }
}

fn two_subpasses() -> RenderPassInfo {
    let mut first = SubpassInfo::with_capacity(2);
    first.color_attachments = vec![reference(0), reference(1)];
    first.input_attachments = vec![reference(2)];
    first.color_resolve_attachments = vec![reference(3), reference(4)];
    first.depth_stencil_attachment = Some(reference(5));
    first.depth_stencil_resolve_attachment =
        Some((reference(6), Some(ResolveMode::Minimum), None));
    first.correlated_view_mask = 0b11;
    let mut second = SubpassInfo::with_capacity(1);
    second.color_attachments = vec![reference(7)];
    second.color_resolve_attachments = vec![reference(8)];
    second.depth_stencil_resolve_attachment =
        Some((reference(9), None, Some(ResolveMode::SampleZero)));
    RenderPassInfo {
        attachments: vec![AttachmentInfo::default(); 10],
        subpasses: vec![first, second],
        dependencies: vec![SubpassDependency::new(0, 1)],
    }
}

#[test]
fn references_of_subpasses_stand_one_after_another() {
    let info = two_subpasses();
    let plan = RenderPass::plan(&info);
    assert!(plan.correlated_view_masks.is_empty());
    assert_eq!(
        plan.references,
        (0..10).map(reference).collect::<Vec<_>>()
    );
    let first = plan.subpasses[0];
    assert_eq!(plan.references[first.color..first.input], info.subpasses[0].color_attachments);
    assert_eq!(
        (first.color, first.input, first.color_resolve, first.end),
        (0, 2, 3, 5)
    );
    assert_eq!(first.depth_stencil, Some(5));
    assert_eq!(
        first.depth_stencil_resolve,
        Some(DepthStencilResolve {
            attachment: 6,
            depth_resolve_mode: vk::RESOLVE_MODE_MIN,
            stencil_resolve_mode: vk::RESOLVE_MODE_NONE,
        })
    );
    let second = plan.subpasses[1];
    assert_eq!(
        (second.color, second.input, second.color_resolve, second.end),
        (7, 8, 8, 9)
    );
    assert_eq!(second.depth_stencil, None);
    assert_eq!(
        second.depth_stencil_resolve,
        Some(DepthStencilResolve {
            attachment: 9,
            depth_resolve_mode: vk::RESOLVE_MODE_NONE,
            stencil_resolve_mode: vk::RESOLVE_MODE_SAMPLE_ZERO,
        })
    );
}

#[test]
fn views_are_correlated_where_there_are_views() {
    let mut info = two_subpasses();
    info.subpasses[1].view_mask = 1;
    assert_eq!(RenderPass::plan(&info).correlated_view_masks, [0b11, 0]);
}

#[test]
fn resolve_modes_have_their_bits() {
    assert_eq!(u32::from(ResolveMode::Average), vk::RESOLVE_MODE_AVERAGE);
    assert_eq!(u32::from(ResolveMode::Maximum), vk::RESOLVE_MODE_MAX);
    assert_eq!(u32::from(ResolveMode::Minimum), vk::RESOLVE_MODE_MIN);
    assert_eq!(
        u32::from(ResolveMode::SampleZero),
        vk::RESOLVE_MODE_SAMPLE_ZERO
    );
}

fn framebuffer(layer_counts: &[u32]) -> FramebufferInfo {
    FramebufferInfo {
        attachments: layer_counts
            .iter()
            .enumerate()
            .map(|(index, layer_count)| FramebufferAttachmentImageInfo {
                flags: 0,
                usage: vk::IMAGE_USAGE_COLOR_ATTACHMENT,
                width: 64 + index as u32,
                height: 32,
                layer_count: *layer_count,
                view_formats: vec![vk::FORMAT_R8G8B8A8_UNORM],
            })
            .collect(),
    }
}

#[test]
fn framebuffers_are_made_once() {
    assert!(matches!(
        RenderPass::new(1, two_subpasses(), None),
        Err(DriverError::Unsupported)
    ));
    let mut pass = RenderPass::new(1, two_subpasses(), Some(20)).unwrap();
    assert_eq!((pass.device(), pass.handle()), (1, 20));
    assert_eq!(pass.info().attachments.len(), 10);
    assert_eq!(pass.cached_framebuffer(&framebuffer(&[1, 3])), None);
    assert_eq!(
        pass.framebuffer_plan(&framebuffer(&[1, 3])),
        FramebufferPlan {
            width: 64,
            height: 32,
            layers: 3,
            attachment_count: 10,
        }
    );
    assert_eq!(
        pass.insert_framebuffer(framebuffer(&[1, 3]), None),
        Err(DriverError::Unsupported)
    );
    assert_eq!(
        pass.insert_framebuffer(framebuffer(&[1, 3]), Some(30)),
        Ok(30)
    );
    assert_eq!(pass.cached_framebuffer(&framebuffer(&[1, 3])), Some(30));
    assert_eq!(pass.cached_framebuffer(&framebuffer(&[1, 2])), None);
    let mut other = framebuffer(&[1, 3]);
    other.attachments[1].view_formats.clear();
    assert_eq!(pass.cached_framebuffer(&other), None);
}

#[test]
fn pipelines_of_a_pass_are_made_once() {
    let mut pass = RenderPass::new(1, two_subpasses(), Some(20)).unwrap();
    let pipeline = graphics_pipeline(false);
    let state = pass.pipeline_state(&pipeline, None, 0);
    assert_eq!(state.blend, [BlendInfo::alpha(), BlendInfo::alpha()]);
    assert_eq!(state.depth_stencil, DepthStencilInfo::ignore());
    assert_eq!(
        state.dynamic_states,
        [vk::DYNAMIC_STATE_VIEWPORT, vk::DYNAMIC_STATE_SCISSOR]
    );
    assert_eq!(state.cull_mode, vk::CULL_MODE_BACK);
    assert_eq!(state.layout, 60);
    let key = GraphicPipelineKey {
        depth_stencil: None,
        layout: 60,
        subpass_idx: 0,
    };
    let deeper = GraphicPipelineKey {
        depth_stencil: Some(DepthStencilInfo::depth_write_less_ignore_stencil()),
        ..key
    };
    assert_eq!(pass.cached_pipeline(&key), None);
    assert_eq!(
        pass.insert_pipeline(key, Some(&vec![0])),
        Err(DriverError::Unsupported)
    );
    assert_eq!(
        pass.insert_pipeline(key, None),
        Err(DriverError::Unsupported)
    );
    assert_eq!(pass.insert_pipeline(key, Some(&vec![0, 40])), Ok(40));
    assert_eq!(pass.cached_pipeline(&key), Some(40));
    assert_eq!(pass.cached_pipeline(&deeper), None);

    assert!(pass.insert_framebuffer(framebuffer(&[1]), Some(30)).is_ok());
    assert!(pass.teardown(true).is_empty());
    assert_eq!(
        pass.teardown(false),
        [
            RenderPassTeardown::Framebuffer(30),
            RenderPassTeardown::Pipeline(40),
            RenderPassTeardown::RenderPass(20),
        ]
    );
}

#[test]
fn pipelines_take_the_name_of_their_layout() {
    let name = "sky".to_owned();
    let other = "sea".to_owned();
    assert!(RenderPass::needs_name(Some(&name), None));
    assert!(RenderPass::needs_name(Some(&name), Some(&other)));
    assert!(!RenderPass::needs_name(Some(&name), Some(&name.clone())));
    assert!(!RenderPass::needs_name(None, Some(&other)));
}
