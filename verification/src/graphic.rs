//! Graphics pipeline types.

use crate::descriptor_set::{DescriptorSetPipeline, PipelineDescriptorInfo};
use crate::error::DriverError;
use crate::image_info::SampleCount;
use crate::pipeline::{
    module_steps, present, present_ranges, push_modules, PipelineName, PipelineTeardown,
    PushConstantRange,
};
use crate::vk;
use vstd::prelude::*;

verus! {

/// All color components.
pub const RGBA_COLOR_COMPONENTS: u32 = vk::COLOR_COMPONENT_R | vk::COLOR_COMPONENT_G
    | vk::COLOR_COMPONENT_B | vk::COLOR_COMPONENT_A;

/// Specifies color blend state used when rasterization is enabled for any color attachments
/// accessed during rendering.
#[derive(Clone, Copy, Debug, PartialEq, Eq, Hash, Structural)]
pub struct BlendInfo {
    /// Controls whether blending is enabled for the corresponding color attachment.
    ///
    /// If blending is not enabled, the source fragment's color for that attachment is passed
    /// through unmodified.
    pub blend_enable: bool,
    /// Selects which blend factor is used to determine the source factors.
    pub src_color_blend_factor: i32,
    /// Selects which blend factor is used to determine the destination factors.
    pub dst_color_blend_factor: i32,
    /// Selects which blend operation is used to calculate the RGB values to write to the color
    /// attachment.
    pub color_blend_op: i32,
    /// Selects which blend factor is used to determine the source factor.
    pub src_alpha_blend_factor: i32,
    /// Selects which blend factor is used to determine the destination factor.
    pub dst_alpha_blend_factor: i32,
    /// Selects which blend operation is used to calculate the alpha values to write to the color
    /// attachment.
    pub alpha_blend_op: i32,
    /// A bitmask specifying which of the R, G, B, and A components are enabled for writing.
    pub color_write_mask: u32,
}

/// Builds a [`BlendInfo`]; what is not set takes its default.
#[derive(Clone, Copy, Debug)]
pub struct BlendInfoBuilder {
    /// See [`BlendInfo::blend_enable`].
    pub blend_enable: Option<bool>,
    /// See [`BlendInfo::src_color_blend_factor`].
    pub src_color_blend_factor: Option<i32>,
    /// See [`BlendInfo::dst_color_blend_factor`].
    pub dst_color_blend_factor: Option<i32>,
    /// See [`BlendInfo::color_blend_op`].
    pub color_blend_op: Option<i32>,
    /// See [`BlendInfo::src_alpha_blend_factor`].
    pub src_alpha_blend_factor: Option<i32>,
    /// See [`BlendInfo::dst_alpha_blend_factor`].
    pub dst_alpha_blend_factor: Option<i32>,
    /// See [`BlendInfo::alpha_blend_op`].
    pub alpha_blend_op: Option<i32>,
    /// See [`BlendInfo::color_write_mask`].
    pub color_write_mask: Option<u32>,
}

impl BlendInfo {
    /// The builder in which every field is set to this value's.
    pub open spec fn as_builder(self) -> BlendInfoBuilder {
        BlendInfoBuilder {
            blend_enable: Some(self.blend_enable),
            src_color_blend_factor: Some(self.src_color_blend_factor),
            dst_color_blend_factor: Some(self.dst_color_blend_factor),
            color_blend_op: Some(self.color_blend_op),
            src_alpha_blend_factor: Some(self.src_alpha_blend_factor),
            dst_alpha_blend_factor: Some(self.dst_alpha_blend_factor),
            alpha_blend_op: Some(self.alpha_blend_op),
            color_write_mask: Some(self.color_write_mask),
        }
    }

    /// Creates a default `BlendInfoBuilder`.
    pub fn builder() -> (builder: BlendInfoBuilder)
        ensures
            builder == BlendInfoBuilder::unset(),
    {
        BlendInfoBuilder::default()
    }

    /// Converts a `BlendInfo` into a `BlendInfoBuilder`.
    pub fn into_builder(self) -> (builder: BlendInfoBuilder)
        ensures
            builder == self.as_builder(),
    {
        BlendInfoBuilder {
            blend_enable: Some(self.blend_enable),
            src_color_blend_factor: Some(self.src_color_blend_factor),
            dst_color_blend_factor: Some(self.dst_color_blend_factor),
            color_blend_op: Some(self.color_blend_op),
            src_alpha_blend_factor: Some(self.src_alpha_blend_factor),
            dst_alpha_blend_factor: Some(self.dst_alpha_blend_factor),
            alpha_blend_op: Some(self.alpha_blend_op),
            color_write_mask: Some(self.color_write_mask),
        }
    }
}

impl BlendInfoBuilder {
    /// The builder in which nothing is set.
    pub open spec fn unset() -> Self {
        BlendInfoBuilder {
            blend_enable: None,
            src_color_blend_factor: None,
            dst_color_blend_factor: None,
            color_blend_op: None,
            src_alpha_blend_factor: None,
            dst_alpha_blend_factor: None,
            alpha_blend_op: None,
            color_write_mask: None,
        }
    }

    /// The value that the builder describes.
    pub open spec fn built(self) -> BlendInfo {
        BlendInfo {
            blend_enable: self.blend_enable.unwrap_or(false),
            src_color_blend_factor: self.src_color_blend_factor.unwrap_or(
                vk::BLEND_FACTOR_SRC_COLOR,
            ),
            dst_color_blend_factor: self.dst_color_blend_factor.unwrap_or(
                vk::BLEND_FACTOR_ONE_MINUS_DST_COLOR,
            ),
            color_blend_op: self.color_blend_op.unwrap_or(vk::BLEND_OP_ADD),
            src_alpha_blend_factor: self.src_alpha_blend_factor.unwrap_or(vk::BLEND_FACTOR_ZERO),
            dst_alpha_blend_factor: self.dst_alpha_blend_factor.unwrap_or(vk::BLEND_FACTOR_ZERO),
            alpha_blend_op: self.alpha_blend_op.unwrap_or(vk::BLEND_OP_ADD),
            color_write_mask: self.color_write_mask.unwrap_or(RGBA_COLOR_COMPONENTS),
        }
    }

    /// Sets [`BlendInfo::blend_enable`].
    pub fn blend_enable(self, blend_enable: bool) -> (builder: Self)
        ensures
            builder == (BlendInfoBuilder { blend_enable: Some(blend_enable), ..self }),
    {
        BlendInfoBuilder { blend_enable: Some(blend_enable), ..self }
    }

    /// Sets [`BlendInfo::src_color_blend_factor`].
    pub fn src_color_blend_factor(self, src_color_blend_factor: i32) -> (builder: Self)
        ensures
            builder == (BlendInfoBuilder {
                src_color_blend_factor: Some(src_color_blend_factor),
                ..self
            }),
    {
        BlendInfoBuilder { src_color_blend_factor: Some(src_color_blend_factor), ..self }
    }

    /// Sets [`BlendInfo::dst_color_blend_factor`].
    pub fn dst_color_blend_factor(self, dst_color_blend_factor: i32) -> (builder: Self)
        ensures
            builder == (BlendInfoBuilder {
                dst_color_blend_factor: Some(dst_color_blend_factor),
                ..self
            }),
    {
        BlendInfoBuilder { dst_color_blend_factor: Some(dst_color_blend_factor), ..self }
    }

    /// Sets [`BlendInfo::color_blend_op`].
    pub fn color_blend_op(self, color_blend_op: i32) -> (builder: Self)
        ensures
            builder == (BlendInfoBuilder { color_blend_op: Some(color_blend_op), ..self }),
    {
        BlendInfoBuilder { color_blend_op: Some(color_blend_op), ..self }
    }

    /// Sets [`BlendInfo::src_alpha_blend_factor`].
    pub fn src_alpha_blend_factor(self, src_alpha_blend_factor: i32) -> (builder: Self)
        ensures
            builder == (BlendInfoBuilder {
                src_alpha_blend_factor: Some(src_alpha_blend_factor),
                ..self
            }),
    {
        BlendInfoBuilder { src_alpha_blend_factor: Some(src_alpha_blend_factor), ..self }
    }

    /// Sets [`BlendInfo::dst_alpha_blend_factor`].
    pub fn dst_alpha_blend_factor(self, dst_alpha_blend_factor: i32) -> (builder: Self)
        ensures
            builder == (BlendInfoBuilder {
                dst_alpha_blend_factor: Some(dst_alpha_blend_factor),
                ..self
            }),
    {
        BlendInfoBuilder { dst_alpha_blend_factor: Some(dst_alpha_blend_factor), ..self }
    }

    /// Sets [`BlendInfo::alpha_blend_op`].
    pub fn alpha_blend_op(self, alpha_blend_op: i32) -> (builder: Self)
        ensures
            builder == (BlendInfoBuilder { alpha_blend_op: Some(alpha_blend_op), ..self }),
    {
        BlendInfoBuilder { alpha_blend_op: Some(alpha_blend_op), ..self }
    }

    /// Sets [`BlendInfo::color_write_mask`].
    pub fn color_write_mask(self, color_write_mask: u32) -> (builder: Self)
        ensures
            builder == (BlendInfoBuilder { color_write_mask: Some(color_write_mask), ..self }),
    {
        BlendInfoBuilder { color_write_mask: Some(color_write_mask), ..self }
    }

    /// Builds a new `BlendInfo`.
    pub fn build(self) -> (info: BlendInfo)
        ensures
            info == self.built(),
    {
        BlendInfo {
            blend_enable: self.blend_enable.unwrap_or(false),
            src_color_blend_factor: self.src_color_blend_factor.unwrap_or(
                vk::BLEND_FACTOR_SRC_COLOR,
            ),
            dst_color_blend_factor: self.dst_color_blend_factor.unwrap_or(
                vk::BLEND_FACTOR_ONE_MINUS_DST_COLOR,
            ),
            color_blend_op: self.color_blend_op.unwrap_or(vk::BLEND_OP_ADD),
            src_alpha_blend_factor: self.src_alpha_blend_factor.unwrap_or(vk::BLEND_FACTOR_ZERO),
            dst_alpha_blend_factor: self.dst_alpha_blend_factor.unwrap_or(vk::BLEND_FACTOR_ZERO),
            alpha_blend_op: self.alpha_blend_op.unwrap_or(vk::BLEND_OP_ADD),
            color_write_mask: self.color_write_mask.unwrap_or(RGBA_COLOR_COMPONENTS),
        }
    }
}

impl Default for BlendInfoBuilder {
    fn default() -> (builder: Self)
        ensures
            builder == BlendInfoBuilder::unset(),
    {
        BlendInfoBuilder {
            blend_enable: None,
            src_color_blend_factor: None,
            dst_color_blend_factor: None,
            color_blend_op: None,
            src_alpha_blend_factor: None,
            dst_alpha_blend_factor: None,
            alpha_blend_op: None,
            color_write_mask: None,
        }
    }
}

/// Building what a value was converted into gives the value back.
pub proof fn blend_info_round_trip(info: BlendInfo)
    ensures
        info.as_builder().built() == info,
{
}
impl BlendInfo {
    /// A commonly used blend mode for replacing color attachment values with new ones.
    pub open spec fn spec_replace() -> BlendInfo {
        BlendInfo {
            blend_enable: false,
            src_color_blend_factor: vk::BLEND_FACTOR_SRC_COLOR,
            dst_color_blend_factor: vk::BLEND_FACTOR_ONE_MINUS_DST_COLOR,
            color_blend_op: vk::BLEND_OP_ADD,
            src_alpha_blend_factor: vk::BLEND_FACTOR_ZERO,
            dst_alpha_blend_factor: vk::BLEND_FACTOR_ZERO,
            alpha_blend_op: vk::BLEND_OP_ADD,
            color_write_mask: RGBA_COLOR_COMPONENTS,
        }
    }

    /// A commonly used blend mode for replacing color attachment values with new ones.
    #[verifier::when_used_as_spec(spec_replace)]
    pub fn replace() -> (mode: BlendInfo)
        ensures
            mode == BlendInfo::spec_replace(),
    {
        BlendInfo {
            blend_enable: false,
            src_color_blend_factor: vk::BLEND_FACTOR_SRC_COLOR,
            dst_color_blend_factor: vk::BLEND_FACTOR_ONE_MINUS_DST_COLOR,
            color_blend_op: vk::BLEND_OP_ADD,
            src_alpha_blend_factor: vk::BLEND_FACTOR_ZERO,
            dst_alpha_blend_factor: vk::BLEND_FACTOR_ZERO,
            alpha_blend_op: vk::BLEND_OP_ADD,
            color_write_mask: RGBA_COLOR_COMPONENTS,
        }
    }

    /// A commonly used blend mode for blending color attachment values based on the alpha channel.
    pub open spec fn spec_alpha() -> BlendInfo {
        BlendInfo {
            blend_enable: true,
            src_color_blend_factor: vk::BLEND_FACTOR_SRC_ALPHA,
            dst_color_blend_factor: vk::BLEND_FACTOR_ONE_MINUS_SRC_ALPHA,
            color_blend_op: vk::BLEND_OP_ADD,
            src_alpha_blend_factor: vk::BLEND_FACTOR_SRC_ALPHA,
            dst_alpha_blend_factor: vk::BLEND_FACTOR_ONE_MINUS_SRC_ALPHA,
            alpha_blend_op: vk::BLEND_OP_ADD,
            color_write_mask: RGBA_COLOR_COMPONENTS,
        }
    }

    /// A commonly used blend mode for blending color attachment values based on the alpha channel.
    #[verifier::when_used_as_spec(spec_alpha)]
    pub fn alpha() -> (mode: BlendInfo)
        ensures
            mode == BlendInfo::spec_alpha(),
    {
        BlendInfo {
            blend_enable: true,
            src_color_blend_factor: vk::BLEND_FACTOR_SRC_ALPHA,
            dst_color_blend_factor: vk::BLEND_FACTOR_ONE_MINUS_SRC_ALPHA,
            color_blend_op: vk::BLEND_OP_ADD,
            src_alpha_blend_factor: vk::BLEND_FACTOR_SRC_ALPHA,
            dst_alpha_blend_factor: vk::BLEND_FACTOR_ONE_MINUS_SRC_ALPHA,
            alpha_blend_op: vk::BLEND_OP_ADD,
            color_write_mask: RGBA_COLOR_COMPONENTS,
        }
    }

    /// A commonly used blend mode for blending color attachment values based on the alpha channel,
    /// where the color components have been pre-multiplied with the alpha component value.
    pub open spec fn spec_pre_multiplied_alpha() -> BlendInfo {
        BlendInfo {
            blend_enable: true,
            src_color_blend_factor: vk::BLEND_FACTOR_SRC_ALPHA,
            dst_color_blend_factor: vk::BLEND_FACTOR_ONE_MINUS_SRC_ALPHA,
            color_blend_op: vk::BLEND_OP_ADD,
            src_alpha_blend_factor: vk::BLEND_FACTOR_ONE,
            dst_alpha_blend_factor: vk::BLEND_FACTOR_ONE,
            alpha_blend_op: vk::BLEND_OP_ADD,
            color_write_mask: RGBA_COLOR_COMPONENTS,
        }
    }

    /// A commonly used blend mode for blending color attachment values based on the alpha channel,
    /// where the color components have been pre-multiplied with the alpha component value.
    #[verifier::when_used_as_spec(spec_pre_multiplied_alpha)]
    pub fn pre_multiplied_alpha() -> (mode: BlendInfo)
        ensures
            mode == BlendInfo::spec_pre_multiplied_alpha(),
    {
        BlendInfo {
            blend_enable: true,
            src_color_blend_factor: vk::BLEND_FACTOR_SRC_ALPHA,
            dst_color_blend_factor: vk::BLEND_FACTOR_ONE_MINUS_SRC_ALPHA,
            color_blend_op: vk::BLEND_OP_ADD,
            src_alpha_blend_factor: vk::BLEND_FACTOR_ONE,
            dst_alpha_blend_factor: vk::BLEND_FACTOR_ONE,
            alpha_blend_op: vk::BLEND_OP_ADD,
            color_write_mask: RGBA_COLOR_COMPONENTS,
        }
    }
}

impl Default for BlendInfo {
    fn default() -> (info: Self)
        ensures
            info == BlendInfo::replace(),
            info == BlendInfoBuilder::unset().built(),
    {
        BlendInfo::replace()
    }
}

/// Specifies stencil mode during rasterization.
#[derive(Clone, Copy, Debug, PartialEq, Eq, PartialOrd, Ord, Hash, Structural)]
pub struct StencilMode {
    /// The action performed on samples that fail the stencil test.
    pub fail_op: i32,
    /// The action performed on samples that pass both the depth and stencil tests.
    pub pass_op: i32,
    /// The action performed on samples that pass the stencil test and fail the depth test.
    pub depth_fail_op: i32,
    /// The comparison operator used in the stencil test.
    pub compare_op: i32,
    /// The bits of the unsigned integer stencil values participating in the stencil test.
    pub compare_mask: u32,
    /// The bits of the unsigned integer stencil values updated by the stencil test in the stencil
    /// framebuffer attachment.
    pub write_mask: u32,
    /// An unsigned integer stencil reference value that is used in the unsigned stencil
    /// comparison.
    pub reference: u32,
}

impl StencilMode {
    /// Specifies a stencil mode which has no effect.
    pub open spec fn spec_ignore() -> StencilMode {
        StencilMode {
            fail_op: vk::STENCIL_OP_KEEP,
            pass_op: vk::STENCIL_OP_KEEP,
            depth_fail_op: vk::STENCIL_OP_KEEP,
            compare_op: vk::COMPARE_OP_NEVER,
            compare_mask: 0,
            write_mask: 0,
            reference: 0,
        }
    }

    /// Specifies a stencil mode which has no effect.
    #[verifier::when_used_as_spec(spec_ignore)]
    pub fn ignore() -> (mode: StencilMode)
        ensures
            mode == StencilMode::spec_ignore(),
    {
        StencilMode {
            fail_op: vk::STENCIL_OP_KEEP,
            pass_op: vk::STENCIL_OP_KEEP,
            depth_fail_op: vk::STENCIL_OP_KEEP,
            compare_op: vk::COMPARE_OP_NEVER,
            compare_mask: 0,
            write_mask: 0,
            reference: 0,
        }
    }
}

impl Default for StencilMode {
    fn default() -> (mode: Self)
        ensures
            mode == StencilMode::ignore(),
    {
        StencilMode::ignore()
    }
}

/// Specifies the depth bounds test, stencil test, and depth test pipeline state.
///
/// Depth bounds are held by the bits of their single-precision values, so that zero and what is no
/// number have one form each.
#[derive(Clone, Copy, Debug, PartialEq, Eq, Hash, Structural)]
pub struct DepthStencilInfo {
    /// Control parameters of the stencil test.
    pub back: StencilMode,
    /// Controls whether depth bounds testing is enabled.
    pub bounds_test: bool,
    /// A value specifying the comparison operator to use in the depth comparison step of the depth
    /// test.
    pub compare_op: i32,
    /// Controls whether depth testing is enabled.
    pub depth_test: bool,
    /// Controls whether depth writes are enabled when `depth_test` is `true`.
    ///
    /// Depth writes are always disabled when `depth_test` is `false`.
    pub depth_write: bool,
    /// Control parameters of the stencil test.
    pub front: StencilMode,
    /// The bits of the minimum depth bound used in the depth bounds test.
    pub min: u32,
    /// The bits of the maximum depth bound used in the depth bounds test.
    pub max: u32,
    /// Controls whether stencil testing is enabled.
    pub stencil_test: bool,
}

/// Builds a [`DepthStencilInfo`]; what is not set takes its default.
#[derive(Clone, Copy, Debug)]
pub struct DepthStencilInfoBuilder {
    /// See [`DepthStencilInfo::back`].
    pub back: Option<StencilMode>,
    /// See [`DepthStencilInfo::bounds_test`].
    pub bounds_test: Option<bool>,
    /// See [`DepthStencilInfo::compare_op`].
    pub compare_op: Option<i32>,
    /// See [`DepthStencilInfo::depth_test`].
    pub depth_test: Option<bool>,
    /// See [`DepthStencilInfo::depth_write`].
    pub depth_write: Option<bool>,
    /// See [`DepthStencilInfo::front`].
    pub front: Option<StencilMode>,
    /// See [`DepthStencilInfo::min`].
    pub min: Option<u32>,
    /// See [`DepthStencilInfo::max`].
    pub max: Option<u32>,
    /// See [`DepthStencilInfo::stencil_test`].
    pub stencil_test: Option<bool>,
}

impl DepthStencilInfo {
    /// The builder in which every field is set to this value's.
    pub open spec fn as_builder(self) -> DepthStencilInfoBuilder {
        DepthStencilInfoBuilder {
            back: Some(self.back),
            bounds_test: Some(self.bounds_test),
            compare_op: Some(self.compare_op),
            depth_test: Some(self.depth_test),
            depth_write: Some(self.depth_write),
            front: Some(self.front),
            min: Some(self.min),
            max: Some(self.max),
            stencil_test: Some(self.stencil_test),
        }
    }

    /// Creates a default `DepthStencilInfoBuilder`.
    pub fn builder() -> (builder: DepthStencilInfoBuilder)
        ensures
            builder == DepthStencilInfoBuilder::unset(),
    {
        DepthStencilInfoBuilder::default()
    }

    /// Converts a `DepthStencilInfo` into a `DepthStencilInfoBuilder`.
    pub fn into_builder(self) -> (builder: DepthStencilInfoBuilder)
        ensures
            builder == self.as_builder(),
    {
        DepthStencilInfoBuilder {
            back: Some(self.back),
            bounds_test: Some(self.bounds_test),
            compare_op: Some(self.compare_op),
            depth_test: Some(self.depth_test),
            depth_write: Some(self.depth_write),
            front: Some(self.front),
            min: Some(self.min),
            max: Some(self.max),
            stencil_test: Some(self.stencil_test),
        }
    }
}

impl DepthStencilInfoBuilder {
    /// The builder in which nothing is set.
    pub open spec fn unset() -> Self {
        DepthStencilInfoBuilder {
            back: None,
            bounds_test: None,
            compare_op: None,
            depth_test: None,
            depth_write: None,
            front: None,
            min: None,
            max: None,
            stencil_test: None,
        }
    }

    /// The value that the builder describes.
    pub open spec fn built(self) -> DepthStencilInfo {
        DepthStencilInfo {
            back: self.back.unwrap_or(StencilMode::ignore()),
            bounds_test: self.bounds_test.unwrap_or(false),
            compare_op: self.compare_op.unwrap_or(vk::COMPARE_OP_NEVER),
            depth_test: self.depth_test.unwrap_or(false),
            depth_write: self.depth_write.unwrap_or(false),
            front: self.front.unwrap_or(StencilMode::ignore()),
            min: self.min.unwrap_or(0),
            max: self.max.unwrap_or(0),
            stencil_test: self.stencil_test.unwrap_or(false),
        }
    }

    /// Sets [`DepthStencilInfo::back`].
    pub fn back(self, back: StencilMode) -> (builder: Self)
        ensures
            builder == (DepthStencilInfoBuilder { back: Some(back), ..self }),
    {
        DepthStencilInfoBuilder { back: Some(back), ..self }
    }

    /// Sets [`DepthStencilInfo::bounds_test`].
    pub fn bounds_test(self, bounds_test: bool) -> (builder: Self)
        ensures
            builder == (DepthStencilInfoBuilder { bounds_test: Some(bounds_test), ..self }),
    {
        DepthStencilInfoBuilder { bounds_test: Some(bounds_test), ..self }
    }

    /// Sets [`DepthStencilInfo::compare_op`].
    pub fn compare_op(self, compare_op: i32) -> (builder: Self)
        ensures
            builder == (DepthStencilInfoBuilder { compare_op: Some(compare_op), ..self }),
    {
        DepthStencilInfoBuilder { compare_op: Some(compare_op), ..self }
    }

    /// Sets [`DepthStencilInfo::depth_test`].
    pub fn depth_test(self, depth_test: bool) -> (builder: Self)
        ensures
            builder == (DepthStencilInfoBuilder { depth_test: Some(depth_test), ..self }),
    {
        DepthStencilInfoBuilder { depth_test: Some(depth_test), ..self }
    }

    /// Sets [`DepthStencilInfo::depth_write`].
    pub fn depth_write(self, depth_write: bool) -> (builder: Self)
        ensures
            builder == (DepthStencilInfoBuilder { depth_write: Some(depth_write), ..self }),
    {
        DepthStencilInfoBuilder { depth_write: Some(depth_write), ..self }
    }

    /// Sets [`DepthStencilInfo::front`].
    pub fn front(self, front: StencilMode) -> (builder: Self)
        ensures
            builder == (DepthStencilInfoBuilder { front: Some(front), ..self }),
    {
        DepthStencilInfoBuilder { front: Some(front), ..self }
    }

    /// Sets [`DepthStencilInfo::min`].
    pub fn min(self, min: u32) -> (builder: Self)
        ensures
            builder == (DepthStencilInfoBuilder { min: Some(min), ..self }),
    {
        DepthStencilInfoBuilder { min: Some(min), ..self }
    }

    /// Sets [`DepthStencilInfo::max`].
    pub fn max(self, max: u32) -> (builder: Self)
        ensures
            builder == (DepthStencilInfoBuilder { max: Some(max), ..self }),
    {
        DepthStencilInfoBuilder { max: Some(max), ..self }
    }

    /// Sets [`DepthStencilInfo::stencil_test`].
    pub fn stencil_test(self, stencil_test: bool) -> (builder: Self)
        ensures
            builder == (DepthStencilInfoBuilder { stencil_test: Some(stencil_test), ..self }),
    {
        DepthStencilInfoBuilder { stencil_test: Some(stencil_test), ..self }
    }

    /// Builds a new `DepthStencilInfo`.
    pub fn build(self) -> (info: DepthStencilInfo)
        ensures
            info == self.built(),
    {
        DepthStencilInfo {
            back: self.back.unwrap_or(StencilMode::ignore()),
            bounds_test: self.bounds_test.unwrap_or(false),
            compare_op: self.compare_op.unwrap_or(vk::COMPARE_OP_NEVER),
            depth_test: self.depth_test.unwrap_or(false),
            depth_write: self.depth_write.unwrap_or(false),
            front: self.front.unwrap_or(StencilMode::ignore()),
            min: self.min.unwrap_or(0),
            max: self.max.unwrap_or(0),
            stencil_test: self.stencil_test.unwrap_or(false),
        }
    }
}

impl Default for DepthStencilInfoBuilder {
    fn default() -> (builder: Self)
        ensures
            builder == DepthStencilInfoBuilder::unset(),
    {
        DepthStencilInfoBuilder {
            back: None,
            bounds_test: None,
            compare_op: None,
            depth_test: None,
            depth_write: None,
            front: None,
            min: None,
            max: None,
            stencil_test: None,
        }
    }
}

impl Default for DepthStencilInfo {
    fn default() -> (info: Self)
        ensures
            info == DepthStencilInfoBuilder::unset().built(),
    {
        DepthStencilInfoBuilder::default().build()
    }
}

/// Building what a value was converted into gives the value back.
pub proof fn depth_stencil_info_round_trip(info: DepthStencilInfo)
    ensures
        info.as_builder().built() == info,
{
}
impl DepthStencilInfo {
    /// A commonly used depth and stencil mode; the largest depth bound is one.
    pub open spec fn spec_depth_write_less_ignore_stencil() -> DepthStencilInfo {
        DepthStencilInfo {
            back: StencilMode::ignore(),
            bounds_test: true,
            compare_op: vk::COMPARE_OP_LESS,
            depth_test: true,
            depth_write: true,
            front: StencilMode::ignore(),
            min: 0,
            max: 0x3f80_0000,
            stencil_test: false,
        }
    }

    /// A commonly used depth and stencil mode; the largest depth bound is one.
    #[verifier::when_used_as_spec(spec_depth_write_less_ignore_stencil)]
    pub fn depth_write_less_ignore_stencil() -> (mode: DepthStencilInfo)
        ensures
            mode == DepthStencilInfo::spec_depth_write_less_ignore_stencil(),
    {
        DepthStencilInfo {
            back: StencilMode::ignore(),
            bounds_test: true,
            compare_op: vk::COMPARE_OP_LESS,
            depth_test: true,
            depth_write: true,
            front: StencilMode::ignore(),
            min: 0,
            max: 0x3f80_0000,
            stencil_test: false,
        }
    }

    /// Specifies a no-depth and no-stencil mode.
    ///
    /// This is the default state.
    pub open spec fn spec_ignore() -> DepthStencilInfo {
        DepthStencilInfo {
            back: StencilMode::ignore(),
            bounds_test: false,
            compare_op: vk::COMPARE_OP_NEVER,
            depth_test: false,
            depth_write: false,
            front: StencilMode::ignore(),
            min: 0,
            max: 0,
            stencil_test: false,
        }
    }

    /// Specifies a no-depth and no-stencil mode.
    ///
    /// This is the default state.
    #[verifier::when_used_as_spec(spec_ignore)]
    pub fn ignore() -> (mode: DepthStencilInfo)
        ensures
            mode == DepthStencilInfo::spec_ignore(),
    {
        DepthStencilInfo {
            back: StencilMode::ignore(),
            bounds_test: false,
            compare_op: vk::COMPARE_OP_NEVER,
            depth_test: false,
            depth_write: false,
            front: StencilMode::ignore(),
            min: 0,
            max: 0,
            stencil_test: false,
        }
    }
}

/// Information used to create a [`GraphicsPipeline`].
#[derive(Clone, Copy, Debug, PartialEq, Eq, Hash, Structural)]
pub struct GraphicsPipelineInfo {
    /// Controls whether a temporary coverage value is generated based on the alpha component of
    /// the fragment's first color output.
    pub alpha_to_coverage: bool,
    /// Controls whether the alpha component of the fragment's first color output is replaced with
    /// one.
    pub alpha_to_one: bool,
    /// The number of descriptors to allocate for a given binding when using bindless (unbounded)
    /// syntax.
    ///
    /// The default is `8192`.
    pub bindless_descriptor_count: u32,
    /// Specifies color blend state used when rasterization is enabled for any color attachments
    /// accessed during rendering.
    ///
    /// The default value is [`BlendInfo::replace`].
    pub blend: BlendInfo,
    /// Bitmask controlling triangle culling.
    ///
    /// The default culls back faces.
    pub cull_mode: u32,
    /// Interpret polygon front-facing orientation.
    ///
    /// The default is counter-clockwise.
    pub front_face: i32,
    /// Specify a fraction of the minimum number of unique samples to process for each fragment, by
    /// the bits of its single-precision value.
    pub min_sample_shading: Option<u32>,
    /// Control polygon rasterization mode.
    ///
    /// The default fills polygons.
    pub polygon_mode: i32,
    /// Input primitive topology.
    ///
    /// The default is a list of triangles.
    pub topology: i32,
    /// Multisampling antialias mode.
    ///
    /// The default value is [`SampleCount::Type1`].
    pub samples: SampleCount,
}

/// Builds a [`GraphicsPipelineInfo`]; what is not set takes its default.
#[derive(Clone, Copy, Debug)]
pub struct GraphicsPipelineInfoBuilder {
    /// See [`GraphicsPipelineInfo::alpha_to_coverage`].
    pub alpha_to_coverage: Option<bool>,
    /// See [`GraphicsPipelineInfo::alpha_to_one`].
    pub alpha_to_one: Option<bool>,
    /// See [`GraphicsPipelineInfo::bindless_descriptor_count`].
    pub bindless_descriptor_count: Option<u32>,
    /// See [`GraphicsPipelineInfo::blend`].
    pub blend: Option<BlendInfo>,
    /// See [`GraphicsPipelineInfo::cull_mode`].
    pub cull_mode: Option<u32>,
    /// See [`GraphicsPipelineInfo::front_face`].
    pub front_face: Option<i32>,
    /// See [`GraphicsPipelineInfo::min_sample_shading`].
    pub min_sample_shading: Option<Option<u32>>,
    /// See [`GraphicsPipelineInfo::polygon_mode`].
    pub polygon_mode: Option<i32>,
    /// See [`GraphicsPipelineInfo::topology`].
    pub topology: Option<i32>,
    /// See [`GraphicsPipelineInfo::samples`].
    pub samples: Option<SampleCount>,
}

impl GraphicsPipelineInfo {
    /// The builder in which every field is set to this value's.
    pub open spec fn as_builder(self) -> GraphicsPipelineInfoBuilder {
        GraphicsPipelineInfoBuilder {
            alpha_to_coverage: Some(self.alpha_to_coverage),
            alpha_to_one: Some(self.alpha_to_one),
            bindless_descriptor_count: Some(self.bindless_descriptor_count),
            blend: Some(self.blend),
            cull_mode: Some(self.cull_mode),
            front_face: Some(self.front_face),
            min_sample_shading: Some(self.min_sample_shading),
            polygon_mode: Some(self.polygon_mode),
            topology: Some(self.topology),
            samples: Some(self.samples),
        }
    }

    /// Creates a default `GraphicsPipelineInfoBuilder`.
    pub fn builder() -> (builder: GraphicsPipelineInfoBuilder)
        ensures
            builder == GraphicsPipelineInfoBuilder::unset(),
    {
        GraphicsPipelineInfoBuilder::default()
    }

    /// Converts a `GraphicsPipelineInfo` into a `GraphicsPipelineInfoBuilder`.
    pub fn into_builder(self) -> (builder: GraphicsPipelineInfoBuilder)
        ensures
            builder == self.as_builder(),
    {
        GraphicsPipelineInfoBuilder {
            alpha_to_coverage: Some(self.alpha_to_coverage),
            alpha_to_one: Some(self.alpha_to_one),
            bindless_descriptor_count: Some(self.bindless_descriptor_count),
            blend: Some(self.blend),
            cull_mode: Some(self.cull_mode),
            front_face: Some(self.front_face),
            min_sample_shading: Some(self.min_sample_shading),
            polygon_mode: Some(self.polygon_mode),
            topology: Some(self.topology),
            samples: Some(self.samples),
        }
    }
}

impl GraphicsPipelineInfoBuilder {
    /// The builder in which nothing is set.
    pub open spec fn unset() -> Self {
        GraphicsPipelineInfoBuilder {
            alpha_to_coverage: None,
            alpha_to_one: None,
            bindless_descriptor_count: None,
            blend: None,
            cull_mode: None,
            front_face: None,
            min_sample_shading: None,
            polygon_mode: None,
            topology: None,
            samples: None,
        }
    }

    /// The value that the builder describes.
    pub open spec fn built(self) -> GraphicsPipelineInfo {
        GraphicsPipelineInfo {
            alpha_to_coverage: self.alpha_to_coverage.unwrap_or(false),
            alpha_to_one: self.alpha_to_one.unwrap_or(false),
            bindless_descriptor_count: self.bindless_descriptor_count.unwrap_or(8192),
            blend: self.blend.unwrap_or(BlendInfo::replace()),
            cull_mode: self.cull_mode.unwrap_or(vk::CULL_MODE_BACK),
            front_face: self.front_face.unwrap_or(vk::FRONT_FACE_COUNTER_CLOCKWISE),
            min_sample_shading: self.min_sample_shading.unwrap_or(None),
            polygon_mode: self.polygon_mode.unwrap_or(vk::POLYGON_MODE_FILL),
            topology: self.topology.unwrap_or(vk::PRIMITIVE_TOPOLOGY_TRIANGLE_LIST),
            samples: self.samples.unwrap_or(SampleCount::Type1),
        }
    }

    /// Sets [`GraphicsPipelineInfo::alpha_to_coverage`].
    pub fn alpha_to_coverage(self, alpha_to_coverage: bool) -> (builder: Self)
        ensures
            builder == (GraphicsPipelineInfoBuilder {
                alpha_to_coverage: Some(alpha_to_coverage),
                ..self
            }),
    {
        GraphicsPipelineInfoBuilder { alpha_to_coverage: Some(alpha_to_coverage), ..self }
    }

    /// Sets [`GraphicsPipelineInfo::alpha_to_one`].
    pub fn alpha_to_one(self, alpha_to_one: bool) -> (builder: Self)
        ensures
            builder == (GraphicsPipelineInfoBuilder { alpha_to_one: Some(alpha_to_one), ..self }),
    {
        GraphicsPipelineInfoBuilder { alpha_to_one: Some(alpha_to_one), ..self }
    }

    /// Sets [`GraphicsPipelineInfo::bindless_descriptor_count`].
    pub fn bindless_descriptor_count(self, bindless_descriptor_count: u32) -> (builder: Self)
        ensures
            builder == (GraphicsPipelineInfoBuilder {
                bindless_descriptor_count: Some(bindless_descriptor_count),
                ..self
            }),
    {
        GraphicsPipelineInfoBuilder {
            bindless_descriptor_count: Some(bindless_descriptor_count),
            ..self
        }
    }

    /// Sets [`GraphicsPipelineInfo::blend`].
    pub fn blend(self, blend: BlendInfo) -> (builder: Self)
        ensures
            builder == (GraphicsPipelineInfoBuilder { blend: Some(blend), ..self }),
    {
        GraphicsPipelineInfoBuilder { blend: Some(blend), ..self }
    }

    /// Sets [`GraphicsPipelineInfo::cull_mode`].
    pub fn cull_mode(self, cull_mode: u32) -> (builder: Self)
        ensures
            builder == (GraphicsPipelineInfoBuilder { cull_mode: Some(cull_mode), ..self }),
    {
        GraphicsPipelineInfoBuilder { cull_mode: Some(cull_mode), ..self }
    }

    /// Sets [`GraphicsPipelineInfo::front_face`].
    pub fn front_face(self, front_face: i32) -> (builder: Self)
        ensures
            builder == (GraphicsPipelineInfoBuilder { front_face: Some(front_face), ..self }),
    {
        GraphicsPipelineInfoBuilder { front_face: Some(front_face), ..self }
    }

    /// Sets [`GraphicsPipelineInfo::min_sample_shading`].
    pub fn min_sample_shading(self, min_sample_shading: u32) -> (builder: Self)
        ensures
            builder == (GraphicsPipelineInfoBuilder {
                min_sample_shading: Some(Some(min_sample_shading)),
                ..self
            }),
    {
        GraphicsPipelineInfoBuilder { min_sample_shading: Some(Some(min_sample_shading)), ..self }
    }

    /// Sets [`GraphicsPipelineInfo::polygon_mode`].
    pub fn polygon_mode(self, polygon_mode: i32) -> (builder: Self)
        ensures
            builder == (GraphicsPipelineInfoBuilder { polygon_mode: Some(polygon_mode), ..self }),
    {
        GraphicsPipelineInfoBuilder { polygon_mode: Some(polygon_mode), ..self }
    }

    /// Sets [`GraphicsPipelineInfo::topology`].
    pub fn topology(self, topology: i32) -> (builder: Self)
        ensures
            builder == (GraphicsPipelineInfoBuilder { topology: Some(topology), ..self }),
    {
        GraphicsPipelineInfoBuilder { topology: Some(topology), ..self }
    }

    /// Sets [`GraphicsPipelineInfo::samples`].
    pub fn samples(self, samples: SampleCount) -> (builder: Self)
        ensures
            builder == (GraphicsPipelineInfoBuilder { samples: Some(samples), ..self }),
    {
        GraphicsPipelineInfoBuilder { samples: Some(samples), ..self }
    }

    /// Builds a new `GraphicsPipelineInfo`.
    pub fn build(self) -> (info: GraphicsPipelineInfo)
        ensures
            info == self.built(),
    {
        GraphicsPipelineInfo {
            alpha_to_coverage: self.alpha_to_coverage.unwrap_or(false),
            alpha_to_one: self.alpha_to_one.unwrap_or(false),
            bindless_descriptor_count: self.bindless_descriptor_count.unwrap_or(8192),
            blend: self.blend.unwrap_or(BlendInfo::replace()),
            cull_mode: self.cull_mode.unwrap_or(vk::CULL_MODE_BACK),
            front_face: self.front_face.unwrap_or(vk::FRONT_FACE_COUNTER_CLOCKWISE),
            min_sample_shading: self.min_sample_shading.unwrap_or(None),
            polygon_mode: self.polygon_mode.unwrap_or(vk::POLYGON_MODE_FILL),
            topology: self.topology.unwrap_or(vk::PRIMITIVE_TOPOLOGY_TRIANGLE_LIST),
            samples: self.samples.unwrap_or(SampleCount::Type1),
        }
    }
}

impl Default for GraphicsPipelineInfoBuilder {
    fn default() -> (builder: Self)
        ensures
            builder == GraphicsPipelineInfoBuilder::unset(),
    {
        GraphicsPipelineInfoBuilder {
            alpha_to_coverage: None,
            alpha_to_one: None,
            bindless_descriptor_count: None,
            blend: None,
            cull_mode: None,
            front_face: None,
            min_sample_shading: None,
            polygon_mode: None,
            topology: None,
            samples: None,
        }
    }
}

impl From<GraphicsPipelineInfoBuilder> for GraphicsPipelineInfo {
    fn from(builder: GraphicsPipelineInfoBuilder) -> (info: Self) {
        builder.build()
    }
}

impl vstd::std_specs::convert::FromSpecImpl<GraphicsPipelineInfoBuilder> for GraphicsPipelineInfo {
    open spec fn obeys_from_spec() -> bool {
        true
    }

    open spec fn from_spec(builder: GraphicsPipelineInfoBuilder) -> Self {
        builder.built()
    }
}

impl Default for GraphicsPipelineInfo {
    fn default() -> (info: Self)
        ensures
            info == GraphicsPipelineInfoBuilder::unset().built(),
    {
        GraphicsPipelineInfoBuilder::default().build()
    }
}

/// Building what a value was converted into gives the value back.
pub proof fn graphics_pipeline_info_round_trip(info: GraphicsPipelineInfo)
    ensures
        info.as_builder().built() == info,
{
}

/// What a shader tells of itself when a graphics pipeline is made from it.
#[derive(Debug)]
pub struct ShaderSummary {
    /// The stage of the shader.
    pub stage: u32,
    /// The push constants that the shader reads.
    pub push_constants: Option<PushConstantRange>,
    /// The attachments that the shader reads as inputs.
    pub input_attachments: Vec<u32>,
}

/// Multisampling state of a graphics pipeline.
#[derive(Clone, Copy, Debug, PartialEq, Eq, Structural)]
pub struct MultisampleState {
    /// Whether coverage comes from the alpha component.
    pub alpha_to_coverage_enable: bool,
    /// Whether the alpha component is replaced with one.
    pub alpha_to_one_enable: bool,
    /// The bits of the smallest fraction of samples that are shaded.
    pub min_sample_shading: u32,
    /// The samples of the pipeline.
    pub rasterization_samples: SampleCount,
    /// Whether samples are shaded one by one.
    pub sample_shading_enable: bool,
}

impl MultisampleState {
    /// The multisampling state that some information asks for.
    pub open spec fn of(info: GraphicsPipelineInfo) -> Self {
        MultisampleState {
            alpha_to_coverage_enable: info.alpha_to_coverage,
            alpha_to_one_enable: info.alpha_to_one,
            min_sample_shading: info.min_sample_shading.unwrap_or(0),
            rasterization_samples: info.samples,
            sample_shading_enable: info.min_sample_shading is Some,
        }
    }

    /// Returns the multisampling state that some information asks for.
    pub fn new(info: GraphicsPipelineInfo) -> (state: Self)
        ensures
            state == MultisampleState::of(info),
    {
        let mut state = MultisampleState {
            alpha_to_coverage_enable: info.alpha_to_coverage,
            alpha_to_one_enable: info.alpha_to_one,
            min_sample_shading: 0,
            rasterization_samples: info.samples,
            sample_shading_enable: false,
        };
        if let Some(min_sample_shading) = info.min_sample_shading {
            state.sample_shading_enable = true;
            state.min_sample_shading = min_sample_shading;
        }
        state
    }
}

/// The items of a list, each at its first place only.
pub open spec fn distinct(items: Seq<u32>) -> Seq<u32>
    decreases items.len(),
{
    if items.len() == 0 {
        seq![]
    } else {
        let before = distinct(items.drop_last());
        if before.contains(items.last()) {
            before
        } else {
            before.push(items.last())
        }
    }
}

/// A list and its distinct items hold the same, the latter once each.
pub proof fn distinct_items_are_the_same(items: Seq<u32>)
    ensures
        distinct(items).no_duplicates(),
        forall|item: u32| #[trigger] distinct(items).contains(item) == items.contains(item),
    decreases items.len(),
{
    if items.len() > 0 {
        let rest = items.drop_last();
        let last = items.last();
        distinct_items_are_the_same(rest);
        let before = distinct(rest);
        assert forall|item: u32| #[trigger] distinct(items).contains(item) == items.contains(
            item,
        ) by {
            assert(before.contains(item) == rest.contains(item));
            assert(before.contains(last) == rest.contains(last));
            assert(items =~= rest.push(last));
            if rest.contains(item) {
                let i = choose|i: int| 0 <= i < rest.len() && rest[i] == item;
                assert(items[i] == item);
            }
            if items.contains(item) && item != last {
                let i = choose|i: int| 0 <= i < items.len() && items[i] == item;
                assert(rest[i] == item);
            }
            assert(items[items.len() - 1] == last);
            if !before.contains(last) {
                let all = before.push(last);
                assert(all[before.len() as int] == last);
                if before.contains(item) {
                    let i = choose|i: int| 0 <= i < before.len() && before[i] == item;
                    assert(all[i] == item);
                }
            }
        }
    }
}

/// Returns the items of a list, each at its first place only.
pub fn distinct_items(items: &Vec<u32>) -> (kept: Vec<u32>)
    ensures
        kept@ == distinct(items@),
{
    let mut kept: Vec<u32> = Vec::new();
    let mut index: usize = 0;
    while index < items.len()
        invariant
            index <= items@.len(),
            kept@ == distinct(items@.take(index as int)),
        decreases items@.len() - index,
    {
        let item: u32 = items[index];
        let mut found: bool = false;
        let mut place: usize = 0;
        while place < kept.len() && !found
            invariant
                place <= kept@.len(),
                found ==> kept@.contains(item),
                !found ==> forall|i: int| 0 <= i < place ==> kept@[i] != item,
            decreases kept@.len() - place + (if found {
                0int
            } else {
                1int
            }),
        {
            if kept[place] == item {
                assert(kept@[place as int] == item);
                found = true;
            } else {
                place += 1;
            }
        }
        assert(items@.take(index + 1).drop_last() =~= items@.take(index as int));
        if !found {
            kept.push(item);
        }
        index += 1;
    }
    assert(items@.take(index as int) =~= items@);
    kept
}

/// The first shader of a stage, where there is one.
pub open spec fn first_of_stage(shaders: Seq<ShaderSummary>, stage: u32) -> Option<int>
    decreases shaders.len(),
{
    if shaders.len() == 0 {
        None
    } else {
        match first_of_stage(shaders.drop_last(), stage) {
            Some(index) => Some(index),
            None => if shaders.last().stage == stage {
                Some(shaders.len() - 1)
            } else {
                None
            },
        }
    }
}

/// Returns the first shader of a stage, where there is one.
fn find_stage(shaders: &Vec<ShaderSummary>, stage: u32) -> (found: Option<usize>)
    ensures
        found is Some == first_of_stage(shaders@, stage) is Some,
        found matches Some(index) ==> index < shaders@.len() && first_of_stage(shaders@, stage)
            == Some(index as int),
{
    let mut index: usize = 0;
    while index < shaders.len()
        invariant
            index <= shaders@.len(),
            first_of_stage(shaders@.take(index as int), stage) is None,
        decreases shaders@.len() - index,
    {
        assert(shaders@.take(index + 1).drop_last() =~= shaders@.take(index as int));
        if shaders[index].stage == stage {
            proof {
                lemma_first_stays(shaders@, stage, index + 1);
            }
            return Some(index);
        }
        index += 1;
    }
    assert(shaders@.take(index as int) =~= shaders@);
    None
}

/// The first shader of a stage stays the first when more follow.
proof fn lemma_first_stays(shaders: Seq<ShaderSummary>, stage: u32, count: int)
    requires
        0 <= count <= shaders.len(),
        first_of_stage(shaders.take(count), stage) is Some,
    ensures
        first_of_stage(shaders, stage) == first_of_stage(shaders.take(count), stage),
    decreases shaders.len(),
{
    if count == shaders.len() {
        assert(shaders.take(count) =~= shaders);
    } else {
        assert(shaders.drop_last().take(count) =~= shaders.take(count));
        lemma_first_stays(shaders.drop_last(), stage, count);
    }
}

/// The push constants of some shaders, where they have any.
pub open spec fn push_constant_list(shaders: Seq<ShaderSummary>) -> Seq<Option<PushConstantRange>> {
    Seq::new(shaders.len(), |i: int| shaders[i].push_constants)
}

/// What a graphics pipeline is made from, apart from its shader modules.
#[derive(Debug)]
pub struct GraphicsPipelinePlan {
    /// The shader that the vertex input comes from.
    pub vertex_shader: usize,
    /// The push constants of the pipeline's layout.
    pub push_constants: Vec<PushConstantRange>,
    /// The attachments that the fragment shader reads as inputs.
    pub input_attachments: Vec<u32>,
    /// The multisampling state.
    pub multisample: MultisampleState,
}

/// A graphics pipeline object.
#[derive(Debug)]
pub struct GraphicsPipeline {
    /// The descriptor set layouts of the pipeline.
    pub descriptor_info: PipelineDescriptorInfo,
    /// The device which owns this graphics pipeline.
    pub device: u64,
    /// The information used to create this object.
    pub info: GraphicsPipelineInfo,
    /// The attachments that the fragment shader reads as inputs.
    pub input_attachments: Vec<u32>,
    /// The layout of the pipeline.
    pub layout: u64,
    /// The multisampling state.
    pub multisample: MultisampleState,
    /// The debugging name.
    pub name: PipelineName,
    /// The shader modules of the pipeline.
    pub modules: Vec<u64>,
}

impl GraphicsPipeline {
    /// Whether some stages make a picture together.
    pub open spec fn stages_are_complete(shaders: Seq<ShaderSummary>) -> bool {
        has_stage(shaders, vk::SHADER_STAGE_FRAGMENT) || (has_stage(
            shaders,
            vk::SHADER_STAGE_TESSELLATION_CONTROL,
        ) && has_stage(shaders, vk::SHADER_STAGE_TESSELLATION_EVALUATION)) || has_stage(
            shaders,
            vk::SHADER_STAGE_GEOMETRY,
        )
    }

    /// Whether some stages make a picture together: a fragment stage, both tessellation stages, or
    /// a geometry stage is there.
    pub fn has_complete_stages(shaders: &Vec<ShaderSummary>) -> (complete: bool)
        ensures
            complete == Self::stages_are_complete(shaders@),
    {
        contains_stage(shaders, vk::SHADER_STAGE_FRAGMENT) || (contains_stage(
            shaders,
            vk::SHADER_STAGE_TESSELLATION_CONTROL,
        ) && contains_stage(shaders, vk::SHADER_STAGE_TESSELLATION_EVALUATION)) || contains_stage(
            shaders,
            vk::SHADER_STAGE_GEOMETRY,
        )
    }

    /// What a pipeline is made from.
    ///
    /// A pipeline without a vertex shader is no valid data.
    pub fn plan(info: GraphicsPipelineInfo, shaders: &Vec<ShaderSummary>) -> (plan: Result<
        GraphicsPipelinePlan,
        DriverError,
    >)
        ensures
            match first_of_stage(shaders@, vk::SHADER_STAGE_VERTEX) {
                None => plan == Err::<GraphicsPipelinePlan, DriverError>(DriverError::InvalidData),
                Some(vertex) => {
                    &&& plan matches Ok(plan)
                    &&& plan.vertex_shader == vertex
                    &&& plan.push_constants@ == present(push_constant_list(shaders@))
                    &&& plan.input_attachments@ == (match first_of_stage(
                        shaders@,
                        vk::SHADER_STAGE_FRAGMENT,
                    ) {
                        Some(fragment) => distinct(shaders@[fragment].input_attachments@),
                        None => seq![],
                    })
                    &&& plan.multisample == MultisampleState::of(info)
                },
            },
    {
        let vertex_shader = match find_stage(shaders, vk::SHADER_STAGE_VERTEX) {
            Some(vertex) => vertex,
            None => return Err(DriverError::InvalidData),
        };
        let mut ranges: Vec<Option<PushConstantRange>> = Vec::new();
        let mut index: usize = 0;
        while index < shaders.len()
            invariant
                index <= shaders@.len(),
                ranges@ == push_constant_list(shaders@).take(index as int),
            decreases shaders@.len() - index,
        {
            ranges.push(shaders[index].push_constants);
            index += 1;
            assert(ranges@ =~= push_constant_list(shaders@).take(index as int));
        }
        assert(ranges@ =~= push_constant_list(shaders@));
        let input_attachments = match find_stage(shaders, vk::SHADER_STAGE_FRAGMENT) {
            Some(fragment) => distinct_items(&shaders[fragment].input_attachments),
            None => Vec::new(),
        };
        Ok(
            GraphicsPipelinePlan {
                vertex_shader,
                push_constants: present_ranges(&ranges),
                input_attachments,
                multisample: MultisampleState::new(info),
            },
        )
    }

    /// A pipeline, given what was made for it.
    pub fn new(
        device: u64,
        descriptor_info: PipelineDescriptorInfo,
        info: GraphicsPipelineInfo,
        plan: GraphicsPipelinePlan,
        layout: u64,
        modules: Vec<u64>,
        debug: bool,
    ) -> (pipeline: Self)
        ensures
            pipeline.descriptor_info == descriptor_info,
            pipeline.device == device,
            pipeline.info == info,
            pipeline.input_attachments == plan.input_attachments,
            pipeline.layout == layout,
            pipeline.multisample == plan.multisample,
            pipeline.name.spec_debug() == debug,
            pipeline.name@ is None,
            pipeline.modules == modules,
    {
        GraphicsPipeline {
            descriptor_info,
            device,
            info,
            input_attachments: plan.input_attachments,
            layout,
            multisample: plan.multisample,
            name: PipelineName::new(debug),
            modules,
        }
    }

    /// Gets the debugging name assigned to this pipeline, if one has been set.
    pub fn debug_name(&self) -> (name: Option<&str>)
        ensures
            name is Some == self.name@ is Some,
            name matches Some(name) ==> self.name@ == Some(name@),
    {
        self.name.get()
    }

    /// Gets the information used to create this object.
    pub fn info(&self) -> (info: GraphicsPipelineInfo)
        ensures
            info == self.info,
    {
        self.info
    }

    /// Sets the debugging name assigned to this pipeline.
    ///
    /// The pipeline name may only be assigned once. Subsequent calls will not update the
    /// previously set name value.
    pub fn set_debug_name(&mut self, name: String)
        ensures
            final(self).name.spec_debug() == old(self).name.spec_debug(),
            final(self).name@ == (if old(self).name.spec_debug() && old(self).name@ is None {
                Some(name@)
            } else {
                old(self).name@
            }),
            *final(self) == (GraphicsPipeline { name: final(self).name, ..*old(self) }),
    {
        self.name.set(name);
    }

    /// Sets the debugging name assigned to this pipeline.
    ///
    /// The pipeline name may only be assigned once. Subsequent calls will not update the
    /// previously set name value.
    pub fn with_debug_name(self, name: String) -> (pipeline: Self)
        ensures
            pipeline.name.spec_debug() == self.name.spec_debug(),
            pipeline.name@ == (if self.name.spec_debug() && self.name@ is None {
                Some(name@)
            } else {
                self.name@
            }),
            pipeline == (GraphicsPipeline { name: pipeline.name, ..self }),
    {
        let mut pipeline = self;
        pipeline.set_debug_name(name);
        pipeline
    }

    /// What is destroyed with the pipeline, in order; nothing while a panic unwinds.
    pub fn teardown(&self, panicking: bool) -> (steps: Vec<PipelineTeardown>)
        ensures
            steps@ == (if panicking {
                seq![]
            } else {
                seq![PipelineTeardown::Layout(self.layout)] + module_steps(self.modules@)
            }),
    {
        let mut steps: Vec<PipelineTeardown> = Vec::new();
        if !panicking {
            steps.push(PipelineTeardown::Layout(self.layout));
            push_modules(&mut steps, &self.modules);
        }
        steps
    }
}

/// Whether a shader has some stage, among others or not.
pub open spec fn has_stage(shaders: Seq<ShaderSummary>, stage: u32) -> bool {
    exists|i: int| 0 <= i < shaders.len() && (#[trigger] shaders[i]).stage & stage == stage
}

/// Whether a shader has some stage, among others or not.
fn contains_stage(shaders: &Vec<ShaderSummary>, stage: u32) -> (contains: bool)
    ensures
        contains == has_stage(shaders@, stage),
{
    let mut index: usize = 0;
    while index < shaders.len()
        invariant
            index <= shaders@.len(),
            forall|i: int| 0 <= i < index ==> (#[trigger] shaders@[i]).stage & stage != stage,
        decreases shaders@.len() - index,
    {
        if shaders[index].stage & stage == stage {
            assert(shaders@[index as int].stage & stage == stage);
            return true;
        }
        index += 1;
    }
    false
}

impl DescriptorSetPipeline for GraphicsPipeline {
    open spec fn descriptors(&self) -> PipelineDescriptorInfo {
        self.descriptor_info
    }

    open spec fn device_id(&self) -> u64 {
        self.device
    }

    fn descriptor_info(&self) -> (info: &PipelineDescriptorInfo) {
        &self.descriptor_info
    }

    fn device(&self) -> (device: u64) {
        self.device
    }
}

/// What is changed of the information of a pipeline is changed of its multisampling state, and
/// nothing else. Samples are shaded one by one just where a fraction of them is asked for.
pub proof fn multisampling_follows_information(
    info: GraphicsPipelineInfo,
    flag: bool,
    samples: SampleCount,
    fraction: u32,
)
    ensures
        MultisampleState::of(GraphicsPipelineInfo { alpha_to_coverage: flag, ..info }) == (
        MultisampleState { alpha_to_coverage_enable: flag, ..MultisampleState::of(info) }),
        MultisampleState::of(GraphicsPipelineInfo { alpha_to_one: flag, ..info }) == (
        MultisampleState { alpha_to_one_enable: flag, ..MultisampleState::of(info) }),
        MultisampleState::of(GraphicsPipelineInfo { samples, ..info }) == (MultisampleState {
            rasterization_samples: samples,
            ..MultisampleState::of(info)
        }),
        MultisampleState::of(
            GraphicsPipelineInfo { min_sample_shading: Some(fraction), ..info },
        ) == (MultisampleState {
            min_sample_shading: fraction,
            sample_shading_enable: true,
            ..MultisampleState::of(info)
        }),
        MultisampleState::of(GraphicsPipelineInfo { min_sample_shading: None, ..info }) == (
        MultisampleState {
            min_sample_shading: 0,
            sample_shading_enable: false,
            ..MultisampleState::of(info)
        }),
{
}

/// The first shader of a stage is of the stage, and none before it is; where there is none, no
/// shader is of the stage.
pub proof fn first_shaders_come_first(shaders: Seq<ShaderSummary>, stage: u32)
    ensures
        match first_of_stage(shaders, stage) {
            Some(index) => {
                &&& 0 <= index < shaders.len()
                &&& shaders[index].stage == stage
                &&& forall|i: int| 0 <= i < index ==> (#[trigger] shaders[i]).stage != stage
            },
            None => forall|i: int|
                0 <= i < shaders.len() ==> (#[trigger] shaders[i]).stage != stage,
        },
    decreases shaders.len(),
{
    if shaders.len() > 0 {
        let some = shaders.drop_last();
        first_shaders_come_first(some, stage);
        assert(forall|i: int| 0 <= i < some.len() ==> some[i] == #[trigger] shaders[i]);
    }
}

/// Distinct items keep their order: those of the first items of a list are the first of all.
pub proof fn distinct_items_keep_their_order(items: Seq<u32>, count: int)
    requires
        0 <= count <= items.len(),
    ensures
        distinct(items.take(count)).is_prefix_of(distinct(items)),
    decreases items.len(),
{
    if count == items.len() {
        assert(items.take(count) =~= items);
        assert(distinct(items).take(distinct(items).len() as int) =~= distinct(items));
    } else {
        let rest = items.drop_last();
        assert(rest.take(count) =~= items.take(count));
        distinct_items_keep_their_order(rest, count);
        let n = distinct(items.take(count)).len() as int;
        assert(distinct(items).take(n) =~= distinct(rest).take(n));
    }
}

/// A stage that shaders have is that of one of them, alone or among others.
pub proof fn stages_are_of_some_shader(
    first: Seq<ShaderSummary>,
    second: Seq<ShaderSummary>,
    stage: u32,
)
    ensures
        has_stage(first + second, stage) <==> has_stage(first, stage) || has_stage(second, stage),
        first.len() == 1 ==> (has_stage(first, stage) <==> first[0].stage & stage == stage),
        first.len() == 0 ==> !has_stage(first, stage),
{
    let all = first + second;
    if has_stage(first, stage) {
        let i = choose|i: int|
            0 <= i < first.len() && (#[trigger] first[i]).stage & stage == stage;
        assert(all[i] == first[i]);
    }
    if has_stage(second, stage) {
        let i = choose|i: int|
            0 <= i < second.len() && (#[trigger] second[i]).stage & stage == stage;
        assert(all[first.len() + i] == second[i]);
    }
    if has_stage(all, stage) {
        let i = choose|i: int| 0 <= i < all.len() && (#[trigger] all[i]).stage & stage == stage;
        if i < first.len() {
            assert(first[i] == all[i]);
        } else {
            assert(second[i - first.len()] == all[i]);
        }
    }
}

/// Blending replaces what is there where it is off, and where it is on, it leaves of it what the
/// new value does not cover. All components are written either way.
pub proof fn blend_modes_cover(mode: BlendInfo)
    requires
        mode == BlendInfo::replace() || mode == BlendInfo::alpha() || mode
            == BlendInfo::pre_multiplied_alpha(),
    ensures
        mode.blend_enable <==> mode != BlendInfo::replace(),
        mode.blend_enable ==> mode.dst_color_blend_factor == mode.src_color_blend_factor + 1,
        mode == BlendInfo::alpha() <==> mode.blend_enable && mode.src_alpha_blend_factor
            == mode.src_color_blend_factor,
        mode.blend_enable && mode != BlendInfo::alpha() ==> mode.src_alpha_blend_factor
            == mode.dst_alpha_blend_factor == 1,
        mode.color_blend_op == 0,
        mode.alpha_blend_op == 0,
        mode.color_write_mask == 0xf,
{
    assert(RGBA_COLOR_COMPONENTS == 0xf) by (bit_vector);
}

/// Stencils that are ignored change nothing, and modes without a depth test write no depth.
pub proof fn ignored_stencils_change_nothing(mode: DepthStencilInfo)
    requires
        mode == DepthStencilInfo::ignore() || mode
            == DepthStencilInfo::depth_write_less_ignore_stencil(),
    ensures
        !mode.stencil_test,
        mode.front == mode.back,
        mode.front.write_mask == 0,
        mode.front.compare_mask == 0,
        mode.front.fail_op == mode.front.pass_op == mode.front.depth_fail_op == 0,
        mode.depth_write <==> mode.depth_test,
        mode.depth_test <==> mode != DepthStencilInfo::ignore(),
        mode.depth_test <==> mode.compare_op == 1,
        !mode.depth_test <==> mode.compare_op == 0,
        mode.bounds_test <==> mode.min < mode.max,
        mode.min == 0,
{
}

/// Fragments and geometry each make a picture, and tessellation does with both of its stages. One
/// of them does not, and neither do vertices alone. What makes a picture does with any more stages.
pub proof fn complete_stages_stay_complete(first: Seq<ShaderSummary>, second: Seq<ShaderSummary>)
    ensures
        GraphicsPipeline::stages_are_complete(first) ==> GraphicsPipeline::stages_are_complete(
            first + second,
        ),
        has_stage(first, 0x10) || has_stage(first, 0x8) ==> GraphicsPipeline::stages_are_complete(
            first,
        ),
        has_stage(first, 0x2) && has_stage(second, 0x4) ==> GraphicsPipeline::stages_are_complete(
            first + second,
        ),
        !has_stage(first, 0x10) && !has_stage(first, 0x8) && !(has_stage(first, 0x2) && has_stage(
            first,
            0x4,
        )) ==> !GraphicsPipeline::stages_are_complete(first),
{
    stages_are_of_some_shader(first, second, 0x10);
    stages_are_of_some_shader(first, second, 0x8);
    stages_are_of_some_shader(first, second, 0x2);
    stages_are_of_some_shader(first, second, 0x4);
}

/// A field that was set is built as it was set, whatever else was, and one that was not set has its
/// default.
pub proof fn blend_info_fields_are_built_apart(builder: BlendInfoBuilder)
    ensures
        ({
            let built = builder.built();
            &&& builder.blend_enable matches Some(value) ==> built.blend_enable == value
            &&& builder.src_color_blend_factor matches Some(value) ==> built.src_color_blend_factor
                == value
            &&& builder.dst_color_blend_factor matches Some(value) ==> built.dst_color_blend_factor
                == value
            &&& builder.color_blend_op matches Some(value) ==> built.color_blend_op == value
            &&& builder.src_alpha_blend_factor matches Some(value) ==> built.src_alpha_blend_factor
                == value
            &&& builder.dst_alpha_blend_factor matches Some(value) ==> built.dst_alpha_blend_factor
                == value
            &&& builder.alpha_blend_op matches Some(value) ==> built.alpha_blend_op == value
            &&& builder.color_write_mask matches Some(value) ==> built.color_write_mask == value
            &&& builder.blend_enable is None ==> !built.blend_enable
            &&& builder.src_color_blend_factor is None ==> built.src_color_blend_factor
                == vk::BLEND_FACTOR_SRC_COLOR
            &&& builder.dst_color_blend_factor is None ==> built.dst_color_blend_factor
                == vk::BLEND_FACTOR_ONE_MINUS_DST_COLOR
            &&& builder.color_blend_op is None ==> built.color_blend_op == vk::BLEND_OP_ADD
            &&& builder.src_alpha_blend_factor is None ==> built.src_alpha_blend_factor
                == vk::BLEND_FACTOR_ZERO
            &&& builder.dst_alpha_blend_factor is None ==> built.dst_alpha_blend_factor
                == vk::BLEND_FACTOR_ZERO
            &&& builder.alpha_blend_op is None ==> built.alpha_blend_op == vk::BLEND_OP_ADD
            &&& builder.color_write_mask is None ==> built.color_write_mask == RGBA_COLOR_COMPONENTS
        }),
{
}

/// A field that was set is built as it was set, whatever else was, and one that was not set has its
/// default.
pub proof fn depth_stencil_info_fields_are_built_apart(builder: DepthStencilInfoBuilder)
    ensures
        ({
            let built = builder.built();
            &&& builder.back matches Some(value) ==> built.back == value
            &&& builder.bounds_test matches Some(value) ==> built.bounds_test == value
            &&& builder.compare_op matches Some(value) ==> built.compare_op == value
            &&& builder.depth_test matches Some(value) ==> built.depth_test == value
            &&& builder.depth_write matches Some(value) ==> built.depth_write == value
            &&& builder.front matches Some(value) ==> built.front == value
            &&& builder.min matches Some(value) ==> built.min == value
            &&& builder.max matches Some(value) ==> built.max == value
            &&& builder.stencil_test matches Some(value) ==> built.stencil_test == value
            &&& builder.back is None ==> built.back == StencilMode::ignore()
            &&& builder.bounds_test is None ==> !built.bounds_test
            &&& builder.compare_op is None ==> built.compare_op == vk::COMPARE_OP_NEVER
            &&& builder.depth_test is None ==> !built.depth_test
            &&& builder.depth_write is None ==> !built.depth_write
            &&& builder.front is None ==> built.front == StencilMode::ignore()
            &&& builder.min is None ==> built.min == 0
            &&& builder.max is None ==> built.max == 0
            &&& builder.stencil_test is None ==> !built.stencil_test
        }),
{
}

/// A field that was set is built as it was set, whatever else was, and one that was not set has its
/// default.
pub proof fn graphics_pipeline_info_fields_are_built_apart(builder: GraphicsPipelineInfoBuilder)
    ensures
        ({
            let built = builder.built();
            &&& builder.alpha_to_coverage matches Some(value) ==> built.alpha_to_coverage == value
            &&& builder.alpha_to_one matches Some(value) ==> built.alpha_to_one == value
            &&& builder.bindless_descriptor_count matches Some(value)
                ==> built.bindless_descriptor_count == value
            &&& builder.blend matches Some(value) ==> built.blend == value
            &&& builder.cull_mode matches Some(value) ==> built.cull_mode == value
            &&& builder.front_face matches Some(value) ==> built.front_face == value
            &&& builder.min_sample_shading matches Some(value) ==> built.min_sample_shading == value
            &&& builder.polygon_mode matches Some(value) ==> built.polygon_mode == value
            &&& builder.topology matches Some(value) ==> built.topology == value
            &&& builder.samples matches Some(value) ==> built.samples == value
            &&& builder.alpha_to_coverage is None ==> !built.alpha_to_coverage
            &&& builder.alpha_to_one is None ==> !built.alpha_to_one
            &&& builder.bindless_descriptor_count is None ==> built.bindless_descriptor_count
                == 8192
            &&& builder.blend is None ==> built.blend == BlendInfo::replace()
            &&& builder.cull_mode is None ==> built.cull_mode == vk::CULL_MODE_BACK
            &&& builder.front_face is None ==> built.front_face == vk::FRONT_FACE_COUNTER_CLOCKWISE
            &&& builder.min_sample_shading is None ==> built.min_sample_shading is None
            &&& builder.polygon_mode is None ==> built.polygon_mode == vk::POLYGON_MODE_FILL
            &&& builder.topology is None ==> built.topology == vk::PRIMITIVE_TOPOLOGY_TRIANGLE_LIST
            &&& builder.samples is None ==> built.samples == SampleCount::Type1
        }),
{
}

} // verus!
