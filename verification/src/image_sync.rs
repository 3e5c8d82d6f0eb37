//! Synchronization information of images.

use crate::access::{
    lemma_masks, pipeline_stage_access_flags, write_bits, writes_perform_write_accesses, AccessType,
};
use crate::image_range::ImageSubresourceRange;
use crate::sharing::SharingMode;
use crate::vk;
use vstd::prelude::*;

verus! {

/// The layout that an access needs, where it needs one.
pub open spec fn layout_of(access: AccessType) -> Option<i32> {
    match access {
        AccessType::Nothing => None,
        AccessType::ColorAttachmentRead
        | AccessType::ColorAttachmentReadWrite
        | AccessType::ColorAttachmentWrite => Some(vk::IMAGE_LAYOUT_COLOR_ATTACHMENT_OPTIMAL),
        AccessType::DepthStencilAttachmentRead
        | AccessType::FragmentShaderReadDepthStencilInputAttachment => Some(
            vk::IMAGE_LAYOUT_DEPTH_STENCIL_READ_ONLY_OPTIMAL,
        ),
        AccessType::DepthStencilAttachmentReadWrite
        | AccessType::DepthStencilAttachmentWrite => Some(
            vk::IMAGE_LAYOUT_DEPTH_STENCIL_ATTACHMENT_OPTIMAL,
        ),
        AccessType::DepthAttachmentWriteStencilReadOnly => Some(
            vk::IMAGE_LAYOUT_DEPTH_ATTACHMENT_STENCIL_READ_ONLY_OPTIMAL,
        ),
        AccessType::StencilAttachmentWriteDepthReadOnly => Some(
            vk::IMAGE_LAYOUT_DEPTH_READ_ONLY_STENCIL_ATTACHMENT_OPTIMAL,
        ),
        AccessType::TransferRead => Some(vk::IMAGE_LAYOUT_TRANSFER_SRC_OPTIMAL),
        AccessType::TransferWrite => Some(vk::IMAGE_LAYOUT_TRANSFER_DST_OPTIMAL),
        AccessType::VertexShaderReadSampledImageOrUniformTexelBuffer
        | AccessType::FragmentShaderReadSampledImageOrUniformTexelBuffer
        | AccessType::FragmentShaderReadColorInputAttachment
        | AccessType::ComputeShaderReadSampledImageOrUniformTexelBuffer
        | AccessType::TessellationControlShaderReadSampledImageOrUniformTexelBuffer
        | AccessType::TessellationEvaluationShaderReadSampledImageOrUniformTexelBuffer
        | AccessType::GeometryShaderReadSampledImageOrUniformTexelBuffer
        | AccessType::AnyShaderReadSampledImageOrUniformTexelBuffer
        | AccessType::MeshShaderReadSampledImageOrUniformTexelBuffer
        | AccessType::TaskShaderReadSampledImageOrUniformTexelBuffer => Some(
            vk::IMAGE_LAYOUT_SHADER_READ_ONLY_OPTIMAL,
        ),
        AccessType::Present => Some(vk::IMAGE_LAYOUT_PRESENT_SRC_KHR),
        _ => Some(vk::IMAGE_LAYOUT_GENERAL),
    }
}

/// The layout that an access needs, where it needs one.
pub fn access_type_to_layout(access: AccessType) -> (layout: Option<i32>)
    ensures
        layout == layout_of(access),
{
    match access {
        AccessType::Nothing => None,
        AccessType::ColorAttachmentRead
        | AccessType::ColorAttachmentReadWrite
        | AccessType::ColorAttachmentWrite => Some(vk::IMAGE_LAYOUT_COLOR_ATTACHMENT_OPTIMAL),
        AccessType::DepthStencilAttachmentRead => Some(
            vk::IMAGE_LAYOUT_DEPTH_STENCIL_READ_ONLY_OPTIMAL,
        ),
        AccessType::DepthStencilAttachmentReadWrite
        | AccessType::DepthStencilAttachmentWrite => Some(
            vk::IMAGE_LAYOUT_DEPTH_STENCIL_ATTACHMENT_OPTIMAL,
        ),
        AccessType::DepthAttachmentWriteStencilReadOnly => Some(
            vk::IMAGE_LAYOUT_DEPTH_ATTACHMENT_STENCIL_READ_ONLY_OPTIMAL,
        ),
        AccessType::StencilAttachmentWriteDepthReadOnly => Some(
            vk::IMAGE_LAYOUT_DEPTH_READ_ONLY_STENCIL_ATTACHMENT_OPTIMAL,
        ),
        AccessType::TransferRead => Some(vk::IMAGE_LAYOUT_TRANSFER_SRC_OPTIMAL),
        AccessType::TransferWrite => Some(vk::IMAGE_LAYOUT_TRANSFER_DST_OPTIMAL),
        AccessType::VertexShaderReadSampledImageOrUniformTexelBuffer
        | AccessType::FragmentShaderReadSampledImageOrUniformTexelBuffer
        | AccessType::FragmentShaderReadColorInputAttachment
        | AccessType::ComputeShaderReadSampledImageOrUniformTexelBuffer
        | AccessType::TessellationControlShaderReadSampledImageOrUniformTexelBuffer
        | AccessType::TessellationEvaluationShaderReadSampledImageOrUniformTexelBuffer
        | AccessType::GeometryShaderReadSampledImageOrUniformTexelBuffer
        | AccessType::AnyShaderReadSampledImageOrUniformTexelBuffer
        | AccessType::MeshShaderReadSampledImageOrUniformTexelBuffer
        | AccessType::TaskShaderReadSampledImageOrUniformTexelBuffer => Some(
            vk::IMAGE_LAYOUT_SHADER_READ_ONLY_OPTIMAL,
        ),
        AccessType::FragmentShaderReadDepthStencilInputAttachment => Some(
            vk::IMAGE_LAYOUT_DEPTH_STENCIL_READ_ONLY_OPTIMAL,
        ),
        AccessType::Present => Some(vk::IMAGE_LAYOUT_PRESENT_SRC_KHR),
        _ => Some(vk::IMAGE_LAYOUT_GENERAL),
    }
}

/// Along what ranges are merged.
#[derive(Clone, Copy, Debug, PartialEq, Eq, Structural)]
pub enum Axis {
    /// Ranges of mip levels.
    MipLevels,
    /// Ranges of array layers.
    ArrayLayers,
}

impl Axis {
    /// The other axis.
    pub open spec fn other(self) -> Self {
        match self {
            Axis::MipLevels => Axis::ArrayLayers,
            Axis::ArrayLayers => Axis::MipLevels,
        }
    }

    /// Where a range starts along the axis.
    pub open spec fn base(self, range: ImageSubresourceRange) -> u32 {
        match self {
            Axis::MipLevels => range.base_mip_level,
            Axis::ArrayLayers => range.base_array_layer,
        }
    }

    /// How long a range is along the axis.
    pub open spec fn count(self, range: ImageSubresourceRange) -> u32 {
        match self {
            Axis::MipLevels => range.level_count,
            Axis::ArrayLayers => range.layer_count,
        }
    }

    /// A range with another length along the axis.
    pub open spec fn with_count(self, range: ImageSubresourceRange, count: int) -> ImageSubresourceRange {
        match self {
            Axis::MipLevels => ImageSubresourceRange { level_count: count as u32, ..range },
            Axis::ArrayLayers => ImageSubresourceRange { layer_count: count as u32, ..range },
        }
    }
}

/// Synchronization information for one accessed image subresource range.
#[derive(Clone, Copy, Debug, PartialEq, Eq, Structural)]
pub struct ImageSubresourceSyncInfo {
    /// Access types performed by `stage_mask`.
    pub access_mask: u32,
    /// Required image layout for the next external use, when one is defined.
    pub layout: Option<i32>,
    /// Queue-family ownership for this subresource, when exclusive ownership is known.
    pub queue_family_index: Option<u32>,
    /// The tracked image subresource range.
    pub range: ImageSubresourceRange,
    /// Pipeline stages that access this `range`.
    pub stage_mask: u32,
}

impl ImageSubresourceSyncInfo {
    /// The information of an access to a range, without its owner.
    pub open spec fn of_access(access: AccessType, range: ImageSubresourceRange) -> Self {
        ImageSubresourceSyncInfo {
            access_mask: access.accesses(),
            layout: layout_of(access),
            queue_family_index: None,
            range,
            stage_mask: access.stages(),
        }
    }

    /// The information with its owner.
    pub open spec fn published(self, sharing: SharingMode) -> Self {
        ImageSubresourceSyncInfo { queue_family_index: sharing.owner(), ..self }
    }

    /// Whether `other` asks for the same synchronization.
    pub open spec fn syncs_as(self, other: Self) -> bool {
        &&& self.access_mask == other.access_mask
        &&& self.layout == other.layout
        &&& self.queue_family_index == other.queue_family_index
        &&& self.stage_mask == other.stage_mask
    }

    /// Whether `other` asks for the same synchronization right behind this range along an axis,
    /// and agrees with it otherwise.
    pub open spec fn merges_with(self, axis: Axis, other: Self) -> bool {
        &&& self.syncs_as(other)
        &&& self.range.aspect_mask == other.range.aspect_mask
        &&& axis.other().base(self.range) == axis.other().base(other.range)
        &&& axis.other().count(self.range) == axis.other().count(other.range)
        &&& axis.base(self.range) + axis.count(self.range) == axis.base(other.range)
    }

    /// This range, longer by the length of `other` along an axis.
    pub open spec fn merged(self, axis: Axis, other: Self) -> Self {
        ImageSubresourceSyncInfo {
            range: axis.with_count(self.range, axis.count(self.range) + axis.count(other.range)),
            ..self
        }
    }

    /// Whether `other` continues this range along its array layers with the same requirements.
    pub fn can_merge_array_layers(self, other: Self) -> (can: bool)
        requires
            self.range.bounded(),
        ensures
            can == self.merges_with(Axis::ArrayLayers, other),
    {
        self.same_sync(other) && self.range.aspect_mask == other.range.aspect_mask
            && self.range.base_mip_level == other.range.base_mip_level && self.range.level_count
            == other.range.level_count && self.range.base_array_layer + self.range.layer_count
            == other.range.base_array_layer
    }

    /// Whether `other` continues this range along its mip levels with the same requirements.
    pub fn can_merge_mip_levels(self, other: Self) -> (can: bool)
        requires
            self.range.bounded(),
        ensures
            can == self.merges_with(Axis::MipLevels, other),
    {
        self.same_sync(other) && self.range.aspect_mask == other.range.aspect_mask
            && self.range.base_array_layer == other.range.base_array_layer && self.range.layer_count
            == other.range.layer_count && self.range.base_mip_level + self.range.level_count
            == other.range.base_mip_level
    }

    /// The information of an access to a range, without its owner.
    pub fn from_access(access: AccessType, range: ImageSubresourceRange) -> (info: Self)
        ensures
            info == Self::of_access(access, range),
    {
        let (stage_mask, access_mask) = pipeline_stage_access_flags(access);
        ImageSubresourceSyncInfo {
            access_mask,
            layout: access_type_to_layout(access),
            queue_family_index: None,
            range,
            stage_mask,
        }
    }

    /// Adds the owner.
    pub fn into_public(self, sharing: SharingMode) -> (info: Self)
        ensures
            info == self.published(sharing),
    {
        ImageSubresourceSyncInfo { queue_family_index: sharing.queue_family_index(), ..self }
    }

    /// Extends this range by the array layers of `other`.
    pub fn merge_array_layers(&mut self, other: Self)
        requires
            old(self).range.layer_count + other.range.layer_count <= u32::MAX,
        ensures
            *final(self) == old(self).merged(Axis::ArrayLayers, other),
    {
        self.range.layer_count += other.range.layer_count;
    }

    /// Extends this range by the mip levels of `other`.
    pub fn merge_mip_levels(&mut self, other: Self)
        requires
            old(self).range.level_count + other.range.level_count <= u32::MAX,
        ensures
            *final(self) == old(self).merged(Axis::MipLevels, other),
    {
        self.range.level_count += other.range.level_count;
    }

    /// Whether `other` asks for the same synchronization.
    pub fn same_sync(self, other: Self) -> (same: bool)
        ensures
            same == self.syncs_as(other),
    {
        self.access_mask == other.access_mask && self.layout == other.layout
            && self.queue_family_index == other.queue_family_index && self.stage_mask
            == other.stage_mask
    }

    /// Whether `other` continues this range along an axis.
    pub(crate) fn can_merge(self, axis: Axis, other: Self) -> (can: bool)
        requires
            self.range.bounded(),
        ensures
            can == self.merges_with(axis, other),
    {
        match axis {
            Axis::MipLevels => self.can_merge_mip_levels(other),
            Axis::ArrayLayers => self.can_merge_array_layers(other),
        }
    }

    /// Extends this range by the length of `other` along an axis.
    pub(crate) fn merge(&mut self, axis: Axis, other: Self)
        requires
            axis.count(old(self).range) + axis.count(other.range) <= u32::MAX,
        ensures
            *final(self) == old(self).merged(axis, other),
    {
        match axis {
            Axis::MipLevels => self.merge_mip_levels(other),
            Axis::ArrayLayers => self.merge_array_layers(other),
        }
    }
}

/// A list compacted along an axis, followed by one more entry.
pub open spec fn compact_push(
    axis: Axis,
    entries: Seq<ImageSubresourceSyncInfo>,
    next: ImageSubresourceSyncInfo,
) -> Seq<ImageSubresourceSyncInfo> {
    if entries.len() > 0 && entries.last().merges_with(axis, next) {
        entries.drop_last().push(entries.last().merged(axis, next))
    } else {
        entries.push(next)
    }
}

/// The list in which entries that continue the one before them along an axis are merged into it.
pub open spec fn compacted_along(axis: Axis, entries: Seq<ImageSubresourceSyncInfo>) -> Seq<
    ImageSubresourceSyncInfo,
>
    decreases entries.len(),
{
    if entries.len() == 0 {
        entries
    } else {
        compact_push(axis, compacted_along(axis, entries.drop_last()), entries.last())
    }
}

/// The list with its mip levels merged, and then its array layers.
pub open spec fn compacted(entries: Seq<ImageSubresourceSyncInfo>) -> Seq<
    ImageSubresourceSyncInfo,
> {
    compacted_along(Axis::ArrayLayers, compacted_along(Axis::MipLevels, entries))
}

/// Whether the ends of all ranges are numbers that can be written down.
pub open spec fn all_bounded(entries: Seq<ImageSubresourceSyncInfo>) -> bool {
    forall|i: int| 0 <= i < entries.len() ==> (#[trigger] entries[i]).range.bounded()
}

/// Merging keeps ends that can be written down.
proof fn lemma_bounded(axis: Axis, entries: Seq<ImageSubresourceSyncInfo>)
    requires
        all_bounded(entries),
    ensures
        all_bounded(compacted_along(axis, entries)),
        compacted_along(axis, entries).len() <= entries.len(),
    decreases entries.len(),
{
    if entries.len() > 0 {
        let some = entries.drop_last();
        assert forall|i: int| 0 <= i < some.len() implies (#[trigger] some[i]).range.bounded() by {
            assert(some[i] == entries[i]);
        }
        lemma_bounded(axis, some);
        assert(entries[entries.len() - 1].range.bounded());
        let before = compacted_along(axis, some);
        let after = compacted_along(axis, entries);
        assert forall|i: int| 0 <= i < after.len() implies (#[trigger] after[i]).range.bounded() by {
            if i < before.len() {
                assert(before[i].range.bounded());
            }
        }
    }
}

/// Merges entries that continue the one before them along an axis.
fn compact_along(axis: Axis, entries: &Vec<ImageSubresourceSyncInfo>) -> (merged: Vec<
    ImageSubresourceSyncInfo,
>)
    requires
        all_bounded(entries@),
    ensures
        merged@ == compacted_along(axis, entries@),
{
    let mut merged: Vec<ImageSubresourceSyncInfo> = Vec::new();
    let mut index: usize = 0;
    assert(entries@.take(0) =~= seq![]);
    while index < entries.len()
        invariant
            index <= entries@.len(),
            all_bounded(entries@),
            all_bounded(merged@),
            merged@ == compacted_along(axis, entries@.take(index as int)),
        decreases entries@.len() - index,
    {
        let next = entries[index];
        let ghost before = merged@;
        proof {
            assert(entries@.take(index + 1).drop_last() =~= entries@.take(index as int));
            assert(entries@.take(index + 1).last() == next);
            assert(next.range.bounded());
            assert forall|i: int|
                0 <= i < entries@.take(index + 1).len() implies (#[trigger] entries@.take(
                index + 1,
            )[i]).range.bounded() by {
                assert(entries@[i].range.bounded());
            }
            lemma_bounded(axis, entries@.take(index + 1));
        }
        let len: usize = merged.len();
        if len > 0 && merged[len - 1].can_merge(axis, next) {
            let mut last = merged[len - 1];
            last.merge(axis, next);
            merged.set(len - 1, last);
            assert(merged@ =~= before.drop_last().push(last));
        } else {
            merged.push(next);
        }
        index += 1;
    }
    assert(entries@.take(index as int) =~= entries@);
    merged
}

/// Synchronization information for an image.
#[derive(Debug)]
pub struct ImageSyncInfo {
    /// Access state for the tracked image subresource ranges.
    pub subresources: Vec<ImageSubresourceSyncInfo>,
}

impl ImageSyncInfo {
    /// Merges entries along mip levels, and then along array layers.
    pub fn compact_subresources(subresources: &Vec<ImageSubresourceSyncInfo>) -> (merged: Vec<
        ImageSubresourceSyncInfo,
    >)
        requires
            all_bounded(subresources@),
        ensures
            merged@ == compacted(subresources@),
    {
        let mip_levels = compact_along(Axis::MipLevels, subresources);
        proof {
            lemma_bounded(Axis::MipLevels, subresources@);
        }
        compact_along(Axis::ArrayLayers, &mip_levels)
    }

    /// Compacts adjacent subresource entries with identical synchronization requirements.
    ///
    /// This is opt-in because some callers may prefer the exact per-range snapshot produced by the
    /// access tracker.
    ///
    /// Runs in linear time over `subresources`. It takes two passes, first merging adjacent mip
    /// levels and then adjacent array layers.
    pub fn compact(&mut self)
        requires
            all_bounded(old(self).subresources@),
        ensures
            final(self).subresources@ == compacted(old(self).subresources@),
    {
        self.subresources = Self::compact_subresources(&self.subresources);
    }

    /// Returns a compacted copy of this synchronization snapshot.
    pub fn into_compacted(self) -> (info: Self)
        requires
            all_bounded(self.subresources@),
        ensures
            info.subresources@ == compacted(self.subresources@),
    {
        let mut info = self;
        info.compact();
        info
    }
}

/// Whether a range holds a subresource of an aspect mask.
pub open spec fn holds(
    range: ImageSubresourceRange,
    aspect_mask: u32,
    layer: int,
    level: int,
) -> bool {
    range.aspect_mask == aspect_mask && range.has_layer(layer) && range.has_level(level)
}

/// Whether a list asks for the given synchronization of a subresource.
pub open spec fn asks(
    entries: Seq<ImageSubresourceSyncInfo>,
    aspect_mask: u32,
    layer: int,
    level: int,
    sync: ImageSubresourceSyncInfo,
) -> bool {
    exists|i: int|
        0 <= i < entries.len() && holds(
            (#[trigger] entries[i]).range,
            aspect_mask,
            layer,
            level,
        ) && entries[i].syncs_as(sync)
}

proof fn lemma_keeps_requirements(
    axis: Axis,
    entries: Seq<ImageSubresourceSyncInfo>,
    aspect_mask: u32,
    layer: int,
    level: int,
    sync: ImageSubresourceSyncInfo,
)
    requires
        all_bounded(entries),
    ensures
        asks(compacted_along(axis, entries), aspect_mask, layer, level, sync) == asks(
            entries,
            aspect_mask,
            layer,
            level,
            sync,
        ),
    decreases entries.len(),
{
    if entries.len() > 0 {
        let last = entries.last();
        let some = entries.drop_last();
        assert forall|i: int| 0 <= i < some.len() implies (#[trigger] some[i]).range.bounded() by {
            assert(some[i] == entries[i]);
        }
        assert(entries[entries.len() - 1].range.bounded());
        lemma_keeps_requirements(axis, some, aspect_mask, layer, level, sync);
        lemma_bounded(axis, some);
        let before = compacted_along(axis, some);
        let after = compacted_along(axis, entries);
        let n = after.len() - 1;
        if before.len() > 0 {
            assert(before[before.len() - 1].range.bounded());
        }
        if asks(entries, aspect_mask, layer, level, sync) {
            let i = choose|i: int|
                0 <= i < entries.len() && holds(
                    (#[trigger] entries[i]).range,
                    aspect_mask,
                    layer,
                    level,
                ) && entries[i].syncs_as(sync);
            if i < some.len() {
                assert(some[i] == entries[i]);
                assert(asks(some, aspect_mask, layer, level, sync));
                let k = choose|k: int|
                    0 <= k < before.len() && holds(
                        (#[trigger] before[k]).range,
                        aspect_mask,
                        layer,
                        level,
                    ) && before[k].syncs_as(sync);
                assert(holds(after[k].range, aspect_mask, layer, level) && after[k].syncs_as(sync));
            } else {
                assert(holds(after[n].range, aspect_mask, layer, level) && after[n].syncs_as(sync));
            }
        }
        if asks(after, aspect_mask, layer, level, sync) {
            let k = choose|k: int|
                0 <= k < after.len() && holds(
                    (#[trigger] after[k]).range,
                    aspect_mask,
                    layer,
                    level,
                ) && after[k].syncs_as(sync);
            if k < before.len() && holds(before[k].range, aspect_mask, layer, level) {
                assert(before[k].syncs_as(sync));
                assert(asks(some, aspect_mask, layer, level, sync));
                let i = choose|i: int|
                    0 <= i < some.len() && holds(
                        (#[trigger] some[i]).range,
                        aspect_mask,
                        layer,
                        level,
                    ) && some[i].syncs_as(sync);
                assert(entries[i] == some[i]);
            } else {
                assert(holds(
                    entries[entries.len() - 1].range,
                    aspect_mask,
                    layer,
                    level,
                ));
            }
        }
    }
}

/// Compacting keeps what is asked for of every subresource.
pub proof fn compaction_keeps_requirements(
    entries: Seq<ImageSubresourceSyncInfo>,
    aspect_mask: u32,
    layer: int,
    level: int,
    sync: ImageSubresourceSyncInfo,
)
    requires
        all_bounded(entries),
    ensures
        asks(compacted(entries), aspect_mask, layer, level, sync) == asks(
            entries,
            aspect_mask,
            layer,
            level,
            sync,
        ),
{
    lemma_keeps_requirements(Axis::MipLevels, entries, aspect_mask, layer, level, sync);
    lemma_bounded(Axis::MipLevels, entries);
    lemma_keeps_requirements(
        Axis::ArrayLayers,
        compacted_along(Axis::MipLevels, entries),
        aspect_mask,
        layer,
        level,
        sync,
    );
}

/// Compacting makes no list longer.
pub proof fn compaction_shortens(entries: Seq<ImageSubresourceSyncInfo>)
    requires
        all_bounded(entries),
    ensures
        compacted(entries).len() <= entries.len(),
        all_bounded(compacted(entries)),
{
    lemma_bounded(Axis::MipLevels, entries);
    lemma_bounded(Axis::ArrayLayers, compacted_along(Axis::MipLevels, entries));
}

/// The layout of an access permits what the access does.
///
/// An access that performs nothing needs no layout, or the one in which images are presented. The
/// layouts of color attachments, of depth and stencil attachments and of transfers are those of the
/// accesses that the stages of these perform; the read-only ones among them are those of accesses
/// that modify nothing. Images that shaders sample, or read as color inputs, are read in the layout
/// for that, except by ray tracing shaders. Everything else uses the general layout.
pub proof fn layouts_permit_accesses(access: AccessType)
    ensures
        ({
            let layout = layout_of(access);
            let stages = access.stages();
            let tests = vk::PIPELINE_STAGE_EARLY_FRAGMENT_TESTS
                | vk::PIPELINE_STAGE_LATE_FRAGMENT_TESTS;
            let modifies = access.accesses() & write_bits() != 0;
            let input = access.accesses() == vk::ACCESS_INPUT_ATTACHMENT_READ;
            let traced = stages == vk::PIPELINE_STAGE_RAY_TRACING_SHADER_KHR;
            &&& layout is None <==> access == AccessType::Nothing
            &&& layout == Some(vk::IMAGE_LAYOUT_PRESENT_SRC_KHR) <==> stages == 0 && access
                != AccessType::Nothing
            &&& layout == Some(vk::IMAGE_LAYOUT_COLOR_ATTACHMENT_OPTIMAL) <==> stages
                == vk::PIPELINE_STAGE_COLOR_ATTACHMENT_OUTPUT
            &&& layout == Some(vk::IMAGE_LAYOUT_TRANSFER_SRC_OPTIMAL) <==> stages
                == vk::PIPELINE_STAGE_TRANSFER && !modifies
            &&& layout == Some(vk::IMAGE_LAYOUT_TRANSFER_DST_OPTIMAL) <==> stages
                == vk::PIPELINE_STAGE_TRANSFER && modifies
            &&& layout == Some(vk::IMAGE_LAYOUT_DEPTH_ATTACHMENT_STENCIL_READ_ONLY_OPTIMAL)
                <==> access == AccessType::DepthAttachmentWriteStencilReadOnly
            &&& layout == Some(vk::IMAGE_LAYOUT_DEPTH_READ_ONLY_STENCIL_ATTACHMENT_OPTIMAL)
                <==> access == AccessType::StencilAttachmentWriteDepthReadOnly
            &&& layout == Some(vk::IMAGE_LAYOUT_DEPTH_STENCIL_ATTACHMENT_OPTIMAL) <==> stages
                == tests && modifies && access != AccessType::DepthAttachmentWriteStencilReadOnly
                && access != AccessType::StencilAttachmentWriteDepthReadOnly
            &&& layout == Some(vk::IMAGE_LAYOUT_DEPTH_STENCIL_READ_ONLY_OPTIMAL) <==> stages
                == tests && !modifies || access
                == AccessType::FragmentShaderReadDepthStencilInputAttachment
            &&& layout == Some(vk::IMAGE_LAYOUT_SHADER_READ_ONLY_OPTIMAL) <==> !traced && (
            access.samples() || input && access
                != AccessType::FragmentShaderReadDepthStencilInputAttachment)
            &&& layout == Some(vk::IMAGE_LAYOUT_GENERAL) <==> stages != 0 && stages
                != vk::PIPELINE_STAGE_COLOR_ATTACHMENT_OUTPUT && stages
                != vk::PIPELINE_STAGE_TRANSFER && stages != tests && (traced
                || !access.samples() && !input)
        }),
{
    lemma_masks();
    writes_perform_write_accesses(access);
}

/// An access that modifies an image has no layout in which the image can only be read.
pub proof fn read_only_layouts_are_for_reads(access: AccessType)
    requires
        access.accesses() & write_bits() != 0,
    ensures
        layout_of(access) is Some,
        layout_of(access) != Some(vk::IMAGE_LAYOUT_SHADER_READ_ONLY_OPTIMAL),
        layout_of(access) != Some(vk::IMAGE_LAYOUT_DEPTH_STENCIL_READ_ONLY_OPTIMAL),
        layout_of(access) != Some(vk::IMAGE_LAYOUT_TRANSFER_SRC_OPTIMAL),
        layout_of(access) != Some(vk::IMAGE_LAYOUT_PRESENT_SRC_KHR),
{
    writes_perform_write_accesses(access);
}

/// Entries that ask for the same synchronization differ in nothing but their ranges.
pub proof fn same_synchronization_leaves_ranges(
    a: ImageSubresourceSyncInfo,
    b: ImageSubresourceSyncInfo,
)
    ensures
        a.syncs_as(b) <==> b == (ImageSubresourceSyncInfo { range: b.range, ..a }),
{
}

/// An access to an image is synchronized as it is to a buffer, and in the layout of the access. The
/// owner of either is told in the same way.
pub proof fn images_are_synchronized_as_buffers(
    access: AccessType,
    range: ImageSubresourceRange,
    bytes: crate::buffer::BufferSubresourceRange,
    mode: SharingMode,
)
    ensures
        ({
            let image = ImageSubresourceSyncInfo::of_access(access, range);
            let buffer = crate::buffer_sync::BufferSubresourceSyncInfo::of_access(access, bytes);
            &&& image.stage_mask == buffer.stage_mask == access.stages()
            &&& image.access_mask == buffer.access_mask == access.accesses()
            &&& image.layout == layout_of(access)
            &&& image.range == range
            &&& image.queue_family_index is None
            &&& buffer.published(mode).queue_family_index == mode.owner()
            &&& image.published(mode) == (ImageSubresourceSyncInfo {
                queue_family_index: mode.owner(),
                ..image
            })
        }),
{
}

/// Entries are merged along an axis just where the second has the layers or levels that follow those
/// of the first, and they agree in all else. The merged entry has those of both.
pub proof fn merged_entries_have_both_ranges(
    a: ImageSubresourceSyncInfo,
    b: ImageSubresourceSyncInfo,
    layer: int,
    level: int,
)
    requires
        a.range.bounded(),
        b.range.bounded(),
    ensures
        a.merges_with(Axis::ArrayLayers, b) <==> {
            &&& b.range.base_array_layer == a.range.base_array_layer + a.range.layer_count
            &&& b == (ImageSubresourceSyncInfo {
                range: ImageSubresourceRange {
                    base_array_layer: b.range.base_array_layer,
                    layer_count: b.range.layer_count,
                    ..a.range
                },
                ..a
            })
        },
        a.merges_with(Axis::MipLevels, b) <==> {
            &&& b.range.base_mip_level == a.range.base_mip_level + a.range.level_count
            &&& b == (ImageSubresourceSyncInfo {
                range: ImageSubresourceRange {
                    base_mip_level: b.range.base_mip_level,
                    level_count: b.range.level_count,
                    ..a.range
                },
                ..a
            })
        },
        a.merges_with(Axis::ArrayLayers, b) ==> {
            let merged = a.merged(Axis::ArrayLayers, b);
            &&& merged.range.has_layer(layer) <==> a.range.has_layer(layer) || b.range.has_layer(
                layer,
            )
            &&& merged == (ImageSubresourceSyncInfo {
                range: ImageSubresourceRange { layer_count: merged.range.layer_count, ..a.range },
                ..a
            })
        },
        a.merges_with(Axis::MipLevels, b) ==> {
            let merged = a.merged(Axis::MipLevels, b);
            &&& merged.range.has_level(level) <==> a.range.has_level(level) || b.range.has_level(
                level,
            )
            &&& merged == (ImageSubresourceSyncInfo {
                range: ImageSubresourceRange { level_count: merged.range.level_count, ..a.range },
                ..a
            })
        },
{
}

/// In a list that was compacted along an axis, no entry continues the one before it along the axis.
proof fn lemma_compacted_along(axis: Axis, entries: Seq<ImageSubresourceSyncInfo>)
    requires
        all_bounded(entries),
    ensures
        forall|i: int, j: int|
            0 <= i && j == i + 1 && j < compacted_along(axis, entries).len() ==> !(
            #[trigger] compacted_along(axis, entries)[i]).merges_with(
                axis,
                #[trigger] compacted_along(axis, entries)[j],
            ),
    decreases entries.len(),
{
    if entries.len() > 0 {
        let some = entries.drop_last();
        assert forall|i: int| 0 <= i < some.len() implies (#[trigger] some[i]).range.bounded() by {
            assert(some[i] == entries[i]);
        }
        lemma_compacted_along(axis, some);
        let before = compacted_along(axis, some);
        let after = compacted_along(axis, entries);
        assert forall|i: int, j: int| 0 <= i && j == i + 1 && j < after.len() implies !(
        #[trigger] after[i]).merges_with(axis, #[trigger] after[j]) by {
            assert(after[i] == before[i]);
            if j < before.len() {
                assert(!before[i].merges_with(axis, before[j]));
                if after[j] != before[j] {
                    assert(after[j] == before[j].merged(axis, entries.last()));
                    lemma_longer_stays_apart(axis, before[i], before[j], entries.last());
                }
            }
        }
    }
}

/// An entry that does not continue another one along an axis does not once it is longer along it.
proof fn lemma_longer_stays_apart(
    axis: Axis,
    entry: ImageSubresourceSyncInfo,
    next: ImageSubresourceSyncInfo,
    more: ImageSubresourceSyncInfo,
)
    requires
        !entry.merges_with(axis, next),
    ensures
        !entry.merges_with(axis, next.merged(axis, more)),
{
}

/// In a compacted list, an entry whose array layers follow those of the one before it differs from
/// it in something else, and so it is with mip levels before layers are merged.
pub proof fn compacted_neighbors_differ(entries: Seq<ImageSubresourceSyncInfo>, index: int)
    requires
        all_bounded(entries),
        0 <= index,
    ensures
        index + 1 < compacted(entries).len() ==> {
            let entry = compacted(entries)[index];
            let next = compacted(entries)[index + 1];
            next.range.base_array_layer == entry.range.base_array_layer + entry.range.layer_count
                ==> next != (ImageSubresourceSyncInfo {
                range: ImageSubresourceRange {
                    base_array_layer: next.range.base_array_layer,
                    layer_count: next.range.layer_count,
                    ..entry.range
                },
                ..entry
            })
        },
        index + 1 < compacted_along(Axis::MipLevels, entries).len() ==> {
            let entry = compacted_along(Axis::MipLevels, entries)[index];
            let next = compacted_along(Axis::MipLevels, entries)[index + 1];
            next.range.base_mip_level == entry.range.base_mip_level + entry.range.level_count
                ==> next != (ImageSubresourceSyncInfo {
                range: ImageSubresourceRange {
                    base_mip_level: next.range.base_mip_level,
                    level_count: next.range.level_count,
                    ..entry.range
                },
                ..entry
            })
        },
{
    let levels = compacted_along(Axis::MipLevels, entries);
    lemma_bounded(Axis::MipLevels, entries);
    lemma_compacted_along(Axis::MipLevels, entries);
    lemma_compacted_along(Axis::ArrayLayers, levels);
    let next = index + 1;
    if next < levels.len() {
        assert(!levels[index].merges_with(Axis::MipLevels, levels[next]));
    }
    if next < compacted(entries).len() {
        assert(!compacted(entries)[index].merges_with(Axis::ArrayLayers, compacted(entries)[next]));
    }
}

} // verus!
