//! Render pass related types.

use crate::error::DriverError;
use crate::graphic::{BlendInfo, DepthStencilInfo, GraphicsPipeline, MultisampleState};
use crate::handle_cache::{lists, CacheKey, HandleCache};
use crate::handles::{first_handle, first_nonzero};
use crate::image_info::SampleCount;
use crate::vk;
use vstd::prelude::*;

verus! {

/// An attachment of a render pass.
#[derive(Clone, Copy, Debug, PartialEq, Eq, Hash, Structural)]
pub struct AttachmentInfo {
    /// Additional properties of the attachment.
    pub flags: u32,
    /// The format of the attachment's views.
    pub format: i32,
    /// The samples of the attachment.
    pub sample_count: SampleCount,
    /// How color and depth contents are treated at the start.
    pub load_op: i32,
    /// How color and depth contents are treated at the end.
    pub store_op: i32,
    /// How stencil contents are treated at the start.
    pub stencil_load_op: i32,
    /// How stencil contents are treated at the end.
    pub stencil_store_op: i32,
    /// The layout at the start.
    pub initial_layout: i32,
    /// The layout at the end.
    pub final_layout: i32,
}

impl Default for AttachmentInfo {
    fn default() -> (info: Self)
        ensures
            info == (AttachmentInfo {
                flags: vk::ATTACHMENT_DESCRIPTION_MAY_ALIAS,
                format: vk::FORMAT_UNDEFINED,
                sample_count: SampleCount::Type1,
                load_op: vk::ATTACHMENT_LOAD_OP_DONT_CARE,
                store_op: vk::ATTACHMENT_STORE_OP_DONT_CARE,
                stencil_load_op: vk::ATTACHMENT_LOAD_OP_DONT_CARE,
                stencil_store_op: vk::ATTACHMENT_STORE_OP_DONT_CARE,
                initial_layout: vk::IMAGE_LAYOUT_UNDEFINED,
                final_layout: vk::IMAGE_LAYOUT_UNDEFINED,
            }),
    {
        AttachmentInfo {
            flags: vk::ATTACHMENT_DESCRIPTION_MAY_ALIAS,
            format: vk::FORMAT_UNDEFINED,
            sample_count: SampleCount::Type1,
            load_op: vk::ATTACHMENT_LOAD_OP_DONT_CARE,
            store_op: vk::ATTACHMENT_STORE_OP_DONT_CARE,
            stencil_load_op: vk::ATTACHMENT_LOAD_OP_DONT_CARE,
            stencil_store_op: vk::ATTACHMENT_STORE_OP_DONT_CARE,
            initial_layout: vk::IMAGE_LAYOUT_UNDEFINED,
            final_layout: vk::IMAGE_LAYOUT_UNDEFINED,
        }
    }
}

/// A reference of a subpass to an attachment.
#[derive(Clone, Copy, Debug, PartialEq, Eq, Hash, Structural)]
pub struct AttachmentRef {
    /// The index of the attachment.
    pub attachment: u32,
    /// The aspects that are read as inputs.
    pub aspect_mask: u32,
    /// The layout during the subpass.
    pub layout: i32,
}

/// What is known of an image before it becomes an attachment of a framebuffer.
#[derive(Debug)]
pub struct FramebufferAttachmentImageInfo {
    /// The creation flags of the image.
    pub flags: u32,
    /// The usages of the image.
    pub usage: u32,
    /// The width of the image view.
    pub width: u32,
    /// The height of the image view.
    pub height: u32,
    /// The layers of the image view.
    pub layer_count: u32,
    /// The formats of views of the image.
    pub view_formats: Vec<i32>,
}

/// What an attachment image is compared by.
pub type AttachmentImageModel = (u32, u32, u32, u32, u32, Seq<i32>);

impl FramebufferAttachmentImageInfo {
    /// What the image is compared by.
    pub open spec fn model(&self) -> AttachmentImageModel {
        (self.flags, self.usage, self.width, self.height, self.layer_count, self.view_formats@)
    }

    /// Whether two images are described alike.
    pub fn is_same(&self, other: &Self) -> (same: bool)
        ensures
            same == (self.model() == other.model()),
    {
        self.flags == other.flags && self.usage == other.usage && self.width == other.width
            && self.height == other.height && self.layer_count == other.layer_count
            && same_formats(&self.view_formats, &other.view_formats)
    }
}

/// Whether two lists of formats are the same.
fn same_formats(formats: &Vec<i32>, others: &Vec<i32>) -> (same: bool)
    ensures
        same == (formats@ == others@),
{
    if formats.len() != others.len() {
        return false;
    }
    let mut index: usize = 0;
    while index < formats.len()
        invariant
            index <= formats@.len() == others@.len(),
            forall|i: int| 0 <= i < index ==> formats@[i] == others@[i],
        decreases formats@.len() - index,
    {
        if formats[index] != others[index] {
            assert(formats@[index as int] != others@[index as int]);
            return false;
        }
        index += 1;
    }
    assert(formats@ =~= others@);
    true
}

/// Information used to create a framebuffer.
#[derive(Debug)]
pub struct FramebufferInfo {
    /// The images that become attachments.
    pub attachments: Vec<FramebufferAttachmentImageInfo>,
}

impl CacheKey for FramebufferInfo {
    type Model = Seq<AttachmentImageModel>;

    open spec fn model(&self) -> Seq<AttachmentImageModel> {
        Seq::new(self.attachments@.len(), |i: int| self.attachments@[i].model())
    }

    fn same_key(&self, other: &Self) -> (same: bool) {
        let ghost one = self.model();
        let ghost two = other.model();
        if self.attachments.len() != other.attachments.len() {
            assert(one.len() != two.len());
            return false;
        }
        let mut index: usize = 0;
        while index < self.attachments.len()
            invariant
                index <= self.attachments@.len() == other.attachments@.len(),
                one == self.model(),
                two == other.model(),
                forall|i: int| 0 <= i < index ==> one[i] == two[i],
            decreases self.attachments@.len() - index,
        {
            if !self.attachments[index].is_same(&other.attachments[index]) {
                assert(one[index as int] != two[index as int]);
                return false;
            }
            index += 1;
        }
        assert(one =~= two);
        true
    }
}

/// What a pipeline of a render pass is found by.
#[derive(Clone, Copy, Debug, PartialEq, Eq, Hash, Structural)]
pub struct GraphicPipelineKey {
    /// The depth and stencil state of the pipeline.
    pub depth_stencil: Option<DepthStencilInfo>,
    /// The layout of the pipeline.
    pub layout: u64,
    /// The subpass that the pipeline is used in.
    pub subpass_idx: u32,
}

impl CacheKey for GraphicPipelineKey {
    type Model = GraphicPipelineKey;

    open spec fn model(&self) -> GraphicPipelineKey {
        *self
    }

    fn same_key(&self, other: &Self) -> (same: bool) {
        *self == *other
    }
}

/// Specifies which of the values of a multisampled depth or stencil attachment is resolved to.
#[derive(Clone, Copy, Debug, PartialEq, Eq, Hash, Structural)]
pub enum ResolveMode {
    /// The average of the values.
    Average,
    /// The largest of the values.
    Maximum,
    /// The smallest of the values.
    Minimum,
    /// The value of the first sample.
    SampleZero,
}

impl ResolveMode {
    /// The bit of the mode.
    pub open spec fn bit(self) -> u32 {
        match self {
            ResolveMode::Average => vk::RESOLVE_MODE_AVERAGE,
            ResolveMode::Maximum => vk::RESOLVE_MODE_MAX,
            ResolveMode::Minimum => vk::RESOLVE_MODE_MIN,
            ResolveMode::SampleZero => vk::RESOLVE_MODE_SAMPLE_ZERO,
        }
    }

    /// The bit of a mode, or none where there is no mode.
    pub open spec fn bits_of(mode: Option<ResolveMode>) -> u32 {
        match mode {
            Some(mode) => mode.bit(),
            None => vk::RESOLVE_MODE_NONE,
        }
    }
}

impl From<ResolveMode> for u32 {
    fn from(mode: ResolveMode) -> (bit: Self) {
        match mode {
            ResolveMode::Average => vk::RESOLVE_MODE_AVERAGE,
            ResolveMode::Maximum => vk::RESOLVE_MODE_MAX,
            ResolveMode::Minimum => vk::RESOLVE_MODE_MIN,
            ResolveMode::SampleZero => vk::RESOLVE_MODE_SAMPLE_ZERO,
        }
    }
}

impl vstd::std_specs::convert::FromSpecImpl<ResolveMode> for u32 {
    open spec fn obeys_from_spec() -> bool {
        true
    }

    open spec fn from_spec(mode: ResolveMode) -> Self {
        mode.bit()
    }
}

/// Returns the bit of a mode, or none where there is no mode.
fn resolve_bits(mode: Option<ResolveMode>) -> (bits: u32)
    ensures
        bits == ResolveMode::bits_of(mode),
{
    match mode {
        Some(mode) => u32::from(mode),
        None => vk::RESOLVE_MODE_NONE,
    }
}

/// A dependency between subpasses.
#[derive(Clone, Copy, Debug, PartialEq, Eq, Hash, Structural)]
pub struct SubpassDependency {
    /// The subpass that is waited for.
    pub src_subpass: u32,
    /// The subpass that waits.
    pub dst_subpass: u32,
    /// The stages that are waited for.
    pub src_stage_mask: u32,
    /// The stages that wait.
    pub dst_stage_mask: u32,
    /// The accesses that are waited for.
    pub src_access_mask: u32,
    /// The accesses that wait.
    pub dst_access_mask: u32,
    /// Additional properties of the dependency.
    pub dependency_flags: u32,
}

impl SubpassDependency {
    /// A dependency of no stages and no accesses.
    pub fn new(src_subpass: u32, dst_subpass: u32) -> (dependency: Self)
        ensures
            dependency == (SubpassDependency {
                src_subpass,
                dst_subpass,
                src_stage_mask: 0,
                dst_stage_mask: 0,
                src_access_mask: 0,
                dst_access_mask: 0,
                dependency_flags: 0,
            }),
    {
        SubpassDependency {
            src_subpass,
            dst_subpass,
            src_stage_mask: 0,
            dst_stage_mask: 0,
            src_access_mask: 0,
            dst_access_mask: 0,
            dependency_flags: 0,
        }
    }
}

/// A subpass of a render pass.
#[derive(Debug)]
pub struct SubpassInfo {
    /// The color attachments.
    pub color_attachments: Vec<AttachmentRef>,
    /// The attachments that color attachments are resolved to.
    pub color_resolve_attachments: Vec<AttachmentRef>,
    /// The views that are rendered to together.
    pub correlated_view_mask: u32,
    /// The depth and stencil attachment.
    pub depth_stencil_attachment: Option<AttachmentRef>,
    /// The attachment that depth and stencil are resolved to, with their modes.
    pub depth_stencil_resolve_attachment: Option<
        (AttachmentRef, Option<ResolveMode>, Option<ResolveMode>),
    >,
    /// The attachments that are read as inputs.
    pub input_attachments: Vec<AttachmentRef>,
    /// The attachments whose contents are kept.
    pub preserve_attachments: Vec<u32>,
    /// The views that are rendered to.
    pub view_mask: u32,
}

impl SubpassInfo {
    /// A subpass without attachments, with room for some.
    pub fn with_capacity(capacity: usize) -> (info: Self)
        ensures
            info.color_attachments@ == Seq::<AttachmentRef>::empty(),
            info.color_resolve_attachments@ == Seq::<AttachmentRef>::empty(),
            info.correlated_view_mask == 0,
            info.depth_stencil_attachment is None,
            info.depth_stencil_resolve_attachment is None,
            info.input_attachments@ == Seq::<AttachmentRef>::empty(),
            info.preserve_attachments@ == Seq::<u32>::empty(),
            info.view_mask == 0,
    {
        SubpassInfo {
            color_attachments: Vec::with_capacity(capacity),
            color_resolve_attachments: Vec::with_capacity(capacity),
            correlated_view_mask: 0,
            depth_stencil_attachment: None,
            depth_stencil_resolve_attachment: None,
            input_attachments: Vec::with_capacity(capacity),
            preserve_attachments: Vec::with_capacity(capacity),
            view_mask: 0,
        }
    }

    /// The attachment that depth and stencil are resolved to, where there is one.
    pub open spec fn resolve_target(&self) -> Option<AttachmentRef> {
        match self.depth_stencil_resolve_attachment {
            Some(resolve) => Some(resolve.0),
            None => None,
        }
    }

    /// All references of the subpass, in order: color attachments, inputs, color resolves, depth
    /// and stencil, depth and stencil resolve.
    pub open spec fn references(&self) -> Seq<AttachmentRef> {
        self.color_attachments@ + self.input_attachments@ + self.color_resolve_attachments@
            + listed(self.depth_stencil_attachment) + listed(self.resolve_target())
    }
}

/// The list of what is there.
pub open spec fn listed(reference: Option<AttachmentRef>) -> Seq<AttachmentRef> {
    match reference {
        Some(reference) => seq![reference],
        None => seq![],
    }
}

/// The references of some subpasses, one subpass after another.
pub open spec fn all_references(subpasses: Seq<SubpassInfo>) -> Seq<AttachmentRef>
    decreases subpasses.len(),
{
    if subpasses.len() == 0 {
        seq![]
    } else {
        all_references(subpasses.drop_last()) + subpasses.last().references()
    }
}

/// How depth and stencil are resolved, and where the reference to their target stands.
#[derive(Clone, Copy, Debug, PartialEq, Eq, Structural)]
pub struct DepthStencilResolve {
    /// Where the reference to the target stands.
    pub attachment: usize,
    /// How depth is resolved.
    pub depth_resolve_mode: u32,
    /// How stencil is resolved.
    pub stencil_resolve_mode: u32,
}

/// Where the references of a subpass stand among those of all subpasses.
#[derive(Clone, Copy, Debug, PartialEq, Eq, Structural)]
pub struct SubpassPlan {
    /// Where the color attachments start.
    pub color: usize,
    /// Where the color attachments end and the inputs start.
    pub input: usize,
    /// Where the inputs end and the color resolves start.
    pub color_resolve: usize,
    /// Where the color resolves end.
    pub end: usize,
    /// Where the depth and stencil attachment stands.
    pub depth_stencil: Option<usize>,
    /// How depth and stencil are resolved.
    pub depth_stencil_resolve: Option<DepthStencilResolve>,
    /// The views that are rendered to.
    pub view_mask: u32,
}

impl SubpassPlan {
    /// Where the references of a subpass stand that follow some others.
    pub open spec fn at(subpass: SubpassInfo, base: int) -> Self {
        let input = base + subpass.color_attachments@.len();
        let color_resolve = input + subpass.input_attachments@.len();
        let end = color_resolve + subpass.color_resolve_attachments@.len();
        let resolve = end + listed(subpass.depth_stencil_attachment).len();
        SubpassPlan {
            color: base as usize,
            input: input as usize,
            color_resolve: color_resolve as usize,
            end: end as usize,
            depth_stencil: if subpass.depth_stencil_attachment is Some {
                Some(end as usize)
            } else {
                None
            },
            depth_stencil_resolve: match subpass.depth_stencil_resolve_attachment {
                Some(target) => Some(
                    DepthStencilResolve {
                        attachment: resolve as usize,
                        depth_resolve_mode: ResolveMode::bits_of(target.1),
                        stencil_resolve_mode: ResolveMode::bits_of(target.2),
                    },
                ),
                None => None,
            },
            view_mask: subpass.view_mask,
        }
    }
}

/// The references of some subpasses are the first of those of more subpasses.
proof fn lemma_references_prefix(subpasses: Seq<SubpassInfo>, count: int)
    requires
        0 <= count <= subpasses.len(),
    ensures
        all_references(subpasses.take(count)).len() <= all_references(subpasses).len(),
        all_references(subpasses.take(count)) == all_references(subpasses).take(
            all_references(subpasses.take(count)).len() as int,
        ),
    decreases subpasses.len(),
{
    if count == subpasses.len() {
        assert(subpasses.take(count) =~= subpasses);
        assert(all_references(subpasses) =~= all_references(subpasses).take(
            all_references(subpasses).len() as int,
        ));
    } else {
        let rest = subpasses.drop_last();
        assert(rest.take(count) =~= subpasses.take(count));
        lemma_references_prefix(rest, count);
        let n = all_references(rest.take(count)).len() as int;
        assert(all_references(subpasses).take(n) =~= all_references(rest).take(n));
    }
}

/// Where a subpass is said to have its references, they are.
pub proof fn references_stand_where_planned(subpasses: Seq<SubpassInfo>, index: int)
    requires
        0 <= index < subpasses.len(),
        all_references(subpasses).len() <= usize::MAX,
    ensures
        ({
            let all = all_references(subpasses);
            let subpass = subpasses[index];
            let plan = SubpassPlan::at(
                subpass,
                all_references(subpasses.take(index)).len() as int,
            );
            &&& plan.color <= plan.input <= plan.color_resolve <= plan.end <= all.len()
            &&& all.subrange(plan.color as int, plan.input as int) == subpass.color_attachments@
            &&& all.subrange(plan.input as int, plan.color_resolve as int)
                == subpass.input_attachments@
            &&& all.subrange(plan.color_resolve as int, plan.end as int)
                == subpass.color_resolve_attachments@
            &&& plan.depth_stencil is Some == subpass.depth_stencil_attachment is Some
            &&& plan.depth_stencil is Some ==> plan.depth_stencil->0 < all.len()
                && all[plan.depth_stencil->0 as int] == subpass.depth_stencil_attachment->0
            &&& plan.depth_stencil_resolve is Some
                == subpass.depth_stencil_resolve_attachment is Some
            &&& plan.depth_stencil_resolve is Some ==> (plan.depth_stencil_resolve->0).attachment
                < all.len() && all[(plan.depth_stencil_resolve->0).attachment as int]
                == subpass.resolve_target()->0
        }),
{
    let all = all_references(subpasses);
    let before = all_references(subpasses.take(index));
    let subpass = subpasses[index];
    let after = all_references(subpasses.take(index + 1));
    assert(subpasses.take(index + 1).drop_last() =~= subpasses.take(index));
    assert(after == before + subpass.references());
    lemma_references_prefix(subpasses, index + 1);
    let base = before.len() as int;
    let c = subpass.color_attachments@;
    let i = subpass.input_attachments@;
    let r = subpass.color_resolve_attachments@;
    let d = listed(subpass.depth_stencil_attachment);
    let t = listed(subpass.resolve_target());
    assert(after =~= before + (c + i + r + d + t));
    assert forall|k: int| 0 <= k < after.len() implies all[k] == after[k] by {
        assert(all.take(after.len() as int)[k] == all[k]);
    }
    assert(all.subrange(base, base + c.len()) =~= c);
    assert(all.subrange(base + c.len(), base + c.len() + i.len()) =~= i);
    assert(all.subrange(base + c.len() + i.len(), base + c.len() + i.len() + r.len()) =~= r);
    let end = base + c.len() + i.len() + r.len();
    if d.len() > 0 {
        assert(after[end] == d[0]);
    }
    if t.len() > 0 {
        assert(after[end + d.len()] == t[0]);
    }
}

/// Information used to create a render pass.
#[derive(Debug)]
pub struct RenderPassInfo {
    /// The attachments.
    pub attachments: Vec<AttachmentInfo>,
    /// The subpasses.
    pub subpasses: Vec<SubpassInfo>,
    /// The dependencies between subpasses.
    pub dependencies: Vec<SubpassDependency>,
}

/// What a render pass is made from, apart from its attachments and dependencies.
#[derive(Debug)]
pub struct RenderPassPlan {
    /// The views that are rendered to together, for each subpass.
    pub correlated_view_masks: Vec<u32>,
    /// The references of all subpasses, one subpass after another.
    pub references: Vec<AttachmentRef>,
    /// Where the references of each subpass stand.
    pub subpasses: Vec<SubpassPlan>,
}

/// Appends some references to a list.
fn push_references(references: &mut Vec<AttachmentRef>, more: &Vec<AttachmentRef>)
    ensures
        final(references)@ == old(references)@ + more@,
{
    let ghost before = references@;
    let mut index: usize = 0;
    while index < more.len()
        invariant
            index <= more@.len(),
            references@ == before + more@.take(index as int),
        decreases more@.len() - index,
    {
        references.push(more[index]);
        index += 1;
        assert(references@ =~= before + more@.take(index as int));
    }
    assert(more@.take(index as int) =~= more@);
}

/// Appends the references of a subpass, and says where they stand.
fn place_subpass(references: &mut Vec<AttachmentRef>, subpass: &SubpassInfo) -> (plan: SubpassPlan)
    ensures
        final(references)@ == old(references)@ + subpass.references(),
        final(references)@.len() <= usize::MAX,
        plan == SubpassPlan::at(*subpass, old(references)@.len() as int),
{
    let ghost before = references@;
    let color: usize = references.len();
    push_references(references, &subpass.color_attachments);
    let input: usize = references.len();
    push_references(references, &subpass.input_attachments);
    let color_resolve: usize = references.len();
    push_references(references, &subpass.color_resolve_attachments);
    let end: usize = references.len();
    let mut depth_stencil: Option<usize> = None;
    if let Some(reference) = subpass.depth_stencil_attachment {
        references.push(reference);
        depth_stencil = Some(end);
    }
    let resolve: usize = references.len();
    let mut depth_stencil_resolve: Option<DepthStencilResolve> = None;
    if let Some((reference, depth, stencil)) = subpass.depth_stencil_resolve_attachment {
        references.push(reference);
        depth_stencil_resolve = Some(
            DepthStencilResolve {
                attachment: resolve,
                depth_resolve_mode: resolve_bits(depth),
                stencil_resolve_mode: resolve_bits(stencil),
            },
        );
    }
    let total: usize = references.len();
    assert(references@ =~= before + subpass.references());
    SubpassPlan {
        color,
        input,
        color_resolve,
        end,
        depth_stencil,
        depth_stencil_resolve,
        view_mask: subpass.view_mask,
    }
}

/// Whether a subpass renders to some view.
pub open spec fn any_view(subpasses: Seq<SubpassInfo>) -> bool {
    exists|i: int| 0 <= i < subpasses.len() && (#[trigger] subpasses[i]).view_mask != 0
}

/// The size of a framebuffer.
#[derive(Clone, Copy, Debug, PartialEq, Eq, Structural)]
pub struct FramebufferPlan {
    /// The width.
    pub width: u32,
    /// The height.
    pub height: u32,
    /// The layers.
    pub layers: u32,
    /// The number of attachments of the render pass.
    pub attachment_count: u32,
}

/// The most layers that some images have.
pub open spec fn most_layers(images: Seq<FramebufferAttachmentImageInfo>) -> u32
    decreases images.len(),
{
    if images.len() == 0 {
        0
    } else {
        let before = most_layers(images.drop_last());
        if before <= images.last().layer_count {
            images.last().layer_count
        } else {
            before
        }
    }
}

/// The state that a pipeline of a render pass is made with.
#[derive(Debug)]
pub struct GraphicsPipelineState {
    /// How each color attachment is blended.
    pub blend: Vec<BlendInfo>,
    /// The depth and stencil state.
    pub depth_stencil: DepthStencilInfo,
    /// The states that commands set.
    pub dynamic_states: Vec<i32>,
    /// The multisampling state.
    pub multisample: MultisampleState,
    /// The input primitive topology.
    pub topology: i32,
    /// The front-facing orientation.
    pub front_face: i32,
    /// The polygon rasterization mode.
    pub polygon_mode: i32,
    /// The triangle culling.
    pub cull_mode: u32,
    /// The layout of the pipeline.
    pub layout: u64,
    /// The subpass that the pipeline is used in.
    pub subpass: u32,
}

/// What is destroyed with a render pass.
#[derive(Clone, Copy, Debug, PartialEq, Eq, Structural)]
pub enum RenderPassTeardown {
    /// A framebuffer.
    Framebuffer(u64),
    /// A pipeline, and before it its debugging name.
    Pipeline(u64),
    /// The render pass.
    RenderPass(u64),
}

/// The steps that destroy the framebuffers and pipelines of a render pass, and the pass itself.
pub open spec fn teardown_steps(
    framebuffers: Seq<u64>,
    pipelines: Seq<u64>,
    handle: u64,
) -> Seq<RenderPassTeardown> {
    framebuffers.map_values(|framebuffer: u64| RenderPassTeardown::Framebuffer(framebuffer))
        + pipelines.map_values(|pipeline: u64| RenderPassTeardown::Pipeline(pipeline))
        + seq![RenderPassTeardown::RenderPass(handle)]
}

/// Whether some steps destroy all framebuffers and pipelines of a render pass, each once, and then
/// the pass itself.
pub open spec fn tears_down(
    steps: Seq<RenderPassTeardown>,
    framebuffers: Map<Seq<AttachmentImageModel>, u64>,
    pipelines: Map<GraphicPipelineKey, u64>,
    handle: u64,
) -> bool {
    exists|first: Seq<u64>, second: Seq<u64>|
        lists(first, framebuffers) && lists(second, pipelines) && steps == #[trigger] teardown_steps(
            first,
            second,
            handle,
        )
}

/// A render pass, with the framebuffers and pipelines that were made for it.
#[derive(Debug)]
pub struct RenderPass {
    device: u64,
    framebuffers: HandleCache<FramebufferInfo>,
    graphic_pipelines: HandleCache<GraphicPipelineKey>,
    handle: u64,
    info: RenderPassInfo,
}

impl RenderPass {
    /// The device which owns this render pass.
    pub closed spec fn spec_device(&self) -> u64 {
        self.device
    }

    /// The native Vulkan handle of this render pass.
    pub closed spec fn spec_handle(&self) -> u64 {
        self.handle
    }

    /// The information used to create this object.
    pub closed spec fn spec_info(&self) -> RenderPassInfo {
        self.info
    }

    /// The framebuffers of the render pass.
    pub closed spec fn framebuffers(&self) -> Map<Seq<AttachmentImageModel>, u64> {
        self.framebuffers@
    }

    /// The pipelines of the render pass.
    pub closed spec fn pipelines(&self) -> Map<GraphicPipelineKey, u64> {
        self.graphic_pipelines@
    }

    /// No framebuffer and no pipeline is there twice.
    pub closed spec fn wf(&self) -> bool {
        self.framebuffers.wf() && self.graphic_pipelines.wf()
    }

    /// The device which owns this render pass.
    pub fn device(&self) -> (device: u64)
        ensures
            device == self.spec_device(),
    {
        self.device
    }

    /// The native Vulkan handle of this render pass.
    pub fn handle(&self) -> (handle: u64)
        ensures
            handle == self.spec_handle(),
    {
        self.handle
    }

    /// The information used to create this object.
    pub fn info(&self) -> (info: &RenderPassInfo)
        ensures
            *info == self.spec_info(),
    {
        &self.info
    }

    /// What a render pass is made from.
    ///
    /// Views are correlated only where some subpass renders to views.
    pub fn plan(info: &RenderPassInfo) -> (plan: RenderPassPlan)
        ensures
            plan.correlated_view_masks@ == (if any_view(info.subpasses@) {
                Seq::new(
                    info.subpasses@.len(),
                    |i: int| info.subpasses@[i].correlated_view_mask,
                )
            } else {
                seq![]
            }),
            plan.references@ == all_references(info.subpasses@),
            plan.references@.len() <= usize::MAX,
            plan.subpasses@ == Seq::new(
                info.subpasses@.len(),
                |i: int|
                    SubpassPlan::at(
                        info.subpasses@[i],
                        all_references(info.subpasses@.take(i)).len() as int,
                    ),
            ),
    {
        let mut masks: Vec<u32> = Vec::new();
        let mut references: Vec<AttachmentRef> = Vec::new();
        let mut subpasses: Vec<SubpassPlan> = Vec::new();
        let mut has_view: bool = false;
        let mut index: usize = 0;
        assert(info.subpasses@.take(0) =~= seq![]);
        while index < info.subpasses.len()
            invariant
                index <= info.subpasses@.len(),
                masks@.len() == index,
                forall|i: int|
                    0 <= i < index ==> #[trigger] masks@[i]
                        == info.subpasses@[i].correlated_view_mask,
                references@ == all_references(info.subpasses@.take(index as int)),
                references@.len() <= usize::MAX,
                subpasses@.len() == index,
                forall|i: int|
                    0 <= i < index ==> #[trigger] subpasses@[i] == SubpassPlan::at(
                        info.subpasses@[i],
                        all_references(info.subpasses@.take(i)).len() as int,
                    ),
                has_view == exists|i: int|
                    0 <= i < index && (#[trigger] info.subpasses@[i]).view_mask != 0,
            decreases info.subpasses@.len() - index,
        {
            assert(info.subpasses@.take(index + 1).drop_last() =~= info.subpasses@.take(
                index as int,
            ));
            masks.push(info.subpasses[index].correlated_view_mask);
            if info.subpasses[index].view_mask != 0 {
                assert(info.subpasses@[index as int].view_mask != 0);
                has_view = true;
            }
            let placed = place_subpass(&mut references, &info.subpasses[index]);
            subpasses.push(placed);
            index += 1;
        }
        assert(info.subpasses@.take(index as int) =~= info.subpasses@);
        let correlated_view_masks = if has_view {
            masks
        } else {
            Vec::new()
        };
        RenderPassPlan { correlated_view_masks, references, subpasses }
    }

    /// A render pass, given what the driver made of it.
    pub fn new(device: u64, info: RenderPassInfo, made: Option<u64>) -> (pass: Result<
        Self,
        DriverError,
    >)
        ensures
            match made {
                None => pass == Err::<RenderPass, DriverError>(DriverError::Unsupported),
                Some(handle) => {
                    &&& pass matches Ok(pass)
                    &&& pass.wf()
                    &&& pass.spec_device() == device
                    &&& pass.spec_handle() == handle
                    &&& pass.spec_info() == info
                    &&& pass.framebuffers() == Map::<Seq<AttachmentImageModel>, u64>::empty()
                    &&& pass.pipelines() == Map::<GraphicPipelineKey, u64>::empty()
                },
            },
    {
        match made {
            Some(handle) => Ok(
                RenderPass {
                    device,
                    framebuffers: HandleCache::new(),
                    graphic_pipelines: HandleCache::new(),
                    handle,
                    info,
                },
            ),
            None => Err(DriverError::Unsupported),
        }
    }

    /// Returns the framebuffer that was made from some information, where there is one.
    pub fn cached_framebuffer(&self, info: &FramebufferInfo) -> (framebuffer: Option<u64>)
        requires
            self.wf(),
        ensures
            framebuffer == (if self.framebuffers().dom().contains(info.model()) {
                Some(self.framebuffers()[info.model()])
            } else {
                None
            }),
    {
        self.framebuffers.get(info)
    }

    /// The size that a framebuffer is made with: that of its first image, and the most layers.
    pub fn framebuffer_plan(&self, info: &FramebufferInfo) -> (plan: FramebufferPlan)
        requires
            info.attachments@.len() > 0,
        ensures
            plan == (FramebufferPlan {
                width: info.attachments@[0].width,
                height: info.attachments@[0].height,
                layers: most_layers(info.attachments@),
                attachment_count: self.spec_info().attachments@.len() as u32,
            }),
    {
        let mut layers: u32 = 0;
        let mut index: usize = 0;
        while index < info.attachments.len()
            invariant
                index <= info.attachments@.len(),
                layers == most_layers(info.attachments@.take(index as int)),
            decreases info.attachments@.len() - index,
        {
            assert(info.attachments@.take(index + 1).drop_last() =~= info.attachments@.take(
                index as int,
            ));
            if layers <= info.attachments[index].layer_count {
                layers = info.attachments[index].layer_count;
            }
            index += 1;
        }
        assert(info.attachments@.take(index as int) =~= info.attachments@);
        FramebufferPlan {
            width: info.attachments[0].width,
            height: info.attachments[0].height,
            layers,
            attachment_count: self.info.attachments.len() as u32,
        }
    }

    /// Remembers the framebuffer that was made because there was none, or says that it was not
    /// made.
    pub fn insert_framebuffer(&mut self, info: FramebufferInfo, made: Option<u64>) -> (framebuffer:
        Result<u64, DriverError>)
        requires
            old(self).wf(),
            !old(self).framebuffers().dom().contains(info.model()),
        ensures
            final(self).wf(),
            final(self).spec_device() == old(self).spec_device(),
            final(self).spec_handle() == old(self).spec_handle(),
            final(self).spec_info() == old(self).spec_info(),
            final(self).pipelines() == old(self).pipelines(),
            match made {
                Some(handle) => framebuffer == Ok::<u64, DriverError>(handle)
                    && final(self).framebuffers() == old(self).framebuffers().insert(
                    info.model(),
                    handle,
                ),
                None => framebuffer == Err::<u64, DriverError>(DriverError::Unsupported)
                    && final(self).framebuffers() == old(self).framebuffers(),
            },
    {
        match made {
            Some(handle) => {
                self.framebuffers.insert(info, handle);
                Ok(handle)
            },
            None => Err(DriverError::Unsupported),
        }
    }

    /// Returns the pipeline that a key finds, where there is one.
    pub fn cached_pipeline(&self, key: &GraphicPipelineKey) -> (pipeline: Option<u64>)
        requires
            self.wf(),
        ensures
            pipeline == (if self.pipelines().dom().contains(*key) {
                Some(self.pipelines()[*key])
            } else {
                None
            }),
    {
        self.graphic_pipelines.get(key)
    }

    /// The state that a pipeline is made with for a subpass: every color attachment is blended as
    /// the pipeline says, and commands set the viewport and the scissor.
    pub fn pipeline_state(
        &self,
        pipeline: &GraphicsPipeline,
        depth_stencil: Option<DepthStencilInfo>,
        subpass_idx: u32,
    ) -> (state: GraphicsPipelineState)
        requires
            subpass_idx < self.spec_info().subpasses@.len(),
        ensures
            state.blend@ == Seq::new(
                self.spec_info().subpasses@[subpass_idx as int].color_attachments@.len(),
                |i: int| pipeline.info.blend,
            ),
            state.depth_stencil == depth_stencil.unwrap_or(DepthStencilInfo::ignore()),
            state.dynamic_states@ == seq![vk::DYNAMIC_STATE_VIEWPORT, vk::DYNAMIC_STATE_SCISSOR],
            state.multisample == pipeline.multisample,
            state.topology == pipeline.info.topology,
            state.front_face == pipeline.info.front_face,
            state.polygon_mode == pipeline.info.polygon_mode,
            state.cull_mode == pipeline.info.cull_mode,
            state.layout == pipeline.layout,
            state.subpass == subpass_idx,
    {
        let subpass = &self.info.subpasses[subpass_idx as usize];
        let mut blend: Vec<BlendInfo> = Vec::new();
        let mut index: usize = 0;
        while index < subpass.color_attachments.len()
            invariant
                index <= subpass.color_attachments@.len(),
                blend@ == Seq::new(index as nat, |i: int| pipeline.info.blend),
            decreases subpass.color_attachments@.len() - index,
        {
            blend.push(pipeline.info.blend);
            index += 1;
            assert(blend@ =~= Seq::new(index as nat, |i: int| pipeline.info.blend));
        }
        let mut dynamic_states: Vec<i32> = Vec::new();
        dynamic_states.push(vk::DYNAMIC_STATE_VIEWPORT);
        dynamic_states.push(vk::DYNAMIC_STATE_SCISSOR);
        GraphicsPipelineState {
            blend,
            depth_stencil: depth_stencil.unwrap_or(DepthStencilInfo::ignore()),
            dynamic_states,
            multisample: pipeline.multisample,
            topology: pipeline.info.topology,
            front_face: pipeline.info.front_face,
            polygon_mode: pipeline.info.polygon_mode,
            cull_mode: pipeline.info.cull_mode,
            layout: pipeline.layout,
            subpass: subpass_idx,
        }
    }

    /// Remembers the pipeline that was made because there was none, or says that it was not made:
    /// it is the first of the driver's handles that is one.
    pub fn insert_pipeline(
        &mut self,
        key: GraphicPipelineKey,
        made: Option<&Vec<u64>>,
    ) -> (pipeline: Result<u64, DriverError>)
        requires
            old(self).wf(),
            !old(self).pipelines().dom().contains(key),
        ensures
            final(self).wf(),
            final(self).spec_device() == old(self).spec_device(),
            final(self).spec_handle() == old(self).spec_handle(),
            final(self).spec_info() == old(self).spec_info(),
            final(self).framebuffers() == old(self).framebuffers(),
            match (match made {
                Some(handles) => first_nonzero(handles@),
                None => None,
            }) {
                Some(handle) => pipeline == Ok::<u64, DriverError>(handle)
                    && final(self).pipelines() == old(self).pipelines().insert(key, handle),
                None => pipeline == Err::<u64, DriverError>(DriverError::Unsupported)
                    && final(self).pipelines() == old(self).pipelines(),
            },
    {
        let first = match made {
            Some(handles) => first_handle(handles),
            None => None,
        };
        match first {
            Some(handle) => {
                self.graphic_pipelines.insert(key, handle);
                Ok(handle)
            },
            None => Err(DriverError::Unsupported),
        }
    }

    /// Whether a pipeline gets the name of its layout: there is one, and it is not the pipeline's
    /// already.
    pub fn needs_name(layout_name: Option<&String>, previous: Option<&String>) -> (needs: bool)
        ensures
            needs == (layout_name is Some && (previous is None || previous->0@ != layout_name->0@)),
    {
        match layout_name {
            Some(name) => match previous {
                Some(previous) => !(*previous == *name),
                None => true,
            },
            None => false,
        }
    }

    /// What is destroyed with the render pass, in order; nothing while a panic unwinds.
    pub fn teardown(&mut self, panicking: bool) -> (steps: Vec<RenderPassTeardown>)
        requires
            old(self).wf(),
        ensures
            panicking ==> steps@ == Seq::<RenderPassTeardown>::empty() && *final(self)
                == *old(self),
            !panicking ==> tears_down(
                steps@,
                old(self).framebuffers(),
                old(self).pipelines(),
                old(self).spec_handle(),
            ),
            !panicking ==> final(self).framebuffers() == Map::<
                Seq<AttachmentImageModel>,
                u64,
            >::empty(),
            !panicking ==> final(self).pipelines() == Map::<GraphicPipelineKey, u64>::empty(),
            final(self).wf(),
    {
        let mut steps: Vec<RenderPassTeardown> = Vec::new();
        if panicking {
            return steps;
        }
        let framebuffers = self.framebuffers.drain();
        let mut index: usize = 0;
        while index < framebuffers.len()
            invariant
                index <= framebuffers@.len(),
                steps@ == framebuffers@.take(index as int).map_values(
                    |framebuffer: u64| RenderPassTeardown::Framebuffer(framebuffer),
                ),
            decreases framebuffers@.len() - index,
        {
            steps.push(RenderPassTeardown::Framebuffer(framebuffers[index]));
            index += 1;
            assert(steps@ =~= framebuffers@.take(index as int).map_values(
                |framebuffer: u64| RenderPassTeardown::Framebuffer(framebuffer),
            ));
        }
        assert(framebuffers@.take(index as int) =~= framebuffers@);
        let ghost first = steps@;
        let pipelines = self.graphic_pipelines.drain();
        let mut index: usize = 0;
        while index < pipelines.len()
            invariant
                index <= pipelines@.len(),
                steps@ == first + pipelines@.take(index as int).map_values(
                    |pipeline: u64| RenderPassTeardown::Pipeline(pipeline),
                ),
            decreases pipelines@.len() - index,
        {
            steps.push(RenderPassTeardown::Pipeline(pipelines[index]));
            index += 1;
            assert(steps@ =~= first + pipelines@.take(index as int).map_values(
                |pipeline: u64| RenderPassTeardown::Pipeline(pipeline),
            ));
        }
        assert(pipelines@.take(index as int) =~= pipelines@);
        steps.push(RenderPassTeardown::RenderPass(self.handle));
        assert(steps@ =~= teardown_steps(framebuffers@, pipelines@, self.handle));
        steps
    }
}

/// The first sample, the average, the smallest and the largest value have the first four bits, in
/// this order, and no mode has none.
pub proof fn resolve_modes_have_bits(mode: ResolveMode)
    ensures
        mode == ResolveMode::SampleZero <==> mode.bit() == 1,
        mode == ResolveMode::Average <==> mode.bit() == 2,
        mode == ResolveMode::Minimum <==> mode.bit() == 4,
        mode == ResolveMode::Maximum <==> mode.bit() == 8,
        ResolveMode::bits_of(Some(mode)) == mode.bit(),
        ResolveMode::bits_of(None) == 0,
{
}

/// The modes of depth and of stencil are kept apart, and the views are those of the subpass.
pub proof fn resolves_keep_their_modes(
    subpass: SubpassInfo,
    base: int,
    target: AttachmentRef,
    depth: Option<ResolveMode>,
    stencil: Option<ResolveMode>,
    view_mask: u32,
)
    ensures
        ({
            let resolving = SubpassInfo {
                depth_stencil_resolve_attachment: Some((target, depth, stencil)),
                ..subpass
            };
            let resolve = SubpassPlan::at(resolving, base).depth_stencil_resolve;
            &&& resolve is Some
            &&& depth matches Some(mode) ==> (resolve->0).depth_resolve_mode == mode.bit()
            &&& stencil matches Some(mode) ==> (resolve->0).stencil_resolve_mode == mode.bit()
            &&& depth is None ==> (resolve->0).depth_resolve_mode == 0
            &&& stencil is None ==> (resolve->0).stencil_resolve_mode == 0
        }),
        SubpassPlan::at(SubpassInfo { view_mask, ..subpass }, base) == (SubpassPlan {
            view_mask,
            ..SubpassPlan::at(subpass, base)
        }),
{
}

/// A subpass renders to some view where one of its views is there, whatever others do.
pub proof fn views_are_of_some_subpass(first: Seq<SubpassInfo>, second: Seq<SubpassInfo>)
    ensures
        any_view(first + second) <==> any_view(first) || any_view(second),
        first.len() == 1 ==> (any_view(first) <==> first[0].view_mask != 0),
{
    let all = first + second;
    if any_view(first) {
        let i = choose|i: int| 0 <= i < first.len() && (#[trigger] first[i]).view_mask != 0;
        assert(all[i] == first[i]);
    }
    if any_view(second) {
        let i = choose|i: int| 0 <= i < second.len() && (#[trigger] second[i]).view_mask != 0;
        assert(all[first.len() + i] == second[i]);
    }
    if any_view(all) {
        let i = choose|i: int| 0 <= i < all.len() && (#[trigger] all[i]).view_mask != 0;
        if i < first.len() {
            assert(first[i] == all[i]);
        } else {
            assert(second[i - first.len()] == all[i]);
        }
    }
}

/// No image has more layers than the most, and some image has as many.
pub proof fn most_layers_are_of_an_image(images: Seq<FramebufferAttachmentImageInfo>)
    ensures
        forall|i: int|
            0 <= i < images.len() ==> (#[trigger] images[i]).layer_count <= most_layers(images),
        images.len() > 0 ==> exists|i: int|
            0 <= i < images.len() && (#[trigger] images[i]).layer_count == most_layers(images),
    decreases images.len(),
{
    if images.len() > 0 {
        let some = images.drop_last();
        most_layers_are_of_an_image(some);
        assert(forall|i: int| 0 <= i < some.len() ==> some[i] == #[trigger] images[i]);
        assert(images[images.len() - 1] == images.last());
        if most_layers(some) > images.last().layer_count {
            let i = choose|i: int|
                0 <= i < some.len() && (#[trigger] some[i]).layer_count == most_layers(some);
            assert(images[i].layer_count == most_layers(images));
        }
    }
}

/// Framebuffers go first, pipelines next, and the pass, which both were made with, goes last.
pub proof fn passes_go_last(framebuffers: Seq<u64>, pipelines: Seq<u64>, handle: u64, index: int)
    requires
        0 <= index < teardown_steps(framebuffers, pipelines, handle).len(),
    ensures
        ({
            let steps = teardown_steps(framebuffers, pipelines, handle);
            let f = framebuffers.len();
            &&& steps.len() == f + pipelines.len() + 1
            &&& index < f ==> steps[index] == RenderPassTeardown::Framebuffer(framebuffers[index])
            &&& f <= index < f + pipelines.len() ==> steps[index] == RenderPassTeardown::Pipeline(
                pipelines[index - f],
            )
            &&& steps[index] == RenderPassTeardown::RenderPass(handle) <==> index == steps.len() - 1
        }),
{
}

/// Attachment images are one to a cache just where all that is known of them is the same.
pub proof fn attachment_images_are_told_apart(
    a: FramebufferAttachmentImageInfo,
    b: FramebufferAttachmentImageInfo,
)
    ensures
        a.model() == b.model() <==> {
            &&& a.flags == b.flags
            &&& a.usage == b.usage
            &&& a.width == b.width
            &&& a.height == b.height
            &&& a.layer_count == b.layer_count
            &&& a.view_formats@ == b.view_formats@
        },
{
}

} // verus!
