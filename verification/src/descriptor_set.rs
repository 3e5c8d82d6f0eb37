//! Explicit descriptor set allocation and update support.
//!
//! A descriptor set is allocated from a layout of a pipeline, and filled by writes and copies. Here
//! stand the rules: which layouts can be used, which updates are valid, what a pool has to hold, and
//! in which order updates are applied.
//!
//! Input attachments, texel buffers, and dynamic buffer descriptors are unsupported, because they
//! require render-pass-specific layouts, owned buffer views, or dynamic bind offsets.

use crate::accel_struct::AccelerationStructureInfo;
use crate::buffer::{BufferInfo, BufferSubresourceRange};
use crate::descriptor_set_layout::{
    ascending, DescriptorSetLayout, DescriptorSetLayoutBindingInfo, DescriptorSetLayoutInfo,
};
use crate::error::DriverError;
use crate::image_info::{
    aspects_of_format, depth_and_stencil, format_aspect_mask, ImageInfo, ImageViewInfo,
};
use crate::image_range::{aspect_count, count_bits, lemma_supported_aspects};
use crate::vk;
use vstd::prelude::*;

verus! {

/// Whether a pool can hold descriptors of a type.
pub open spec fn pooled(descriptor_type: i32) -> bool {
    descriptor_type == vk::DESCRIPTOR_TYPE_ACCELERATION_STRUCTURE_KHR
        || descriptor_type == vk::DESCRIPTOR_TYPE_COMBINED_IMAGE_SAMPLER
        || descriptor_type == vk::DESCRIPTOR_TYPE_INPUT_ATTACHMENT
        || descriptor_type == vk::DESCRIPTOR_TYPE_SAMPLED_IMAGE
        || descriptor_type == vk::DESCRIPTOR_TYPE_SAMPLER
        || descriptor_type == vk::DESCRIPTOR_TYPE_STORAGE_BUFFER
        || descriptor_type == vk::DESCRIPTOR_TYPE_STORAGE_BUFFER_DYNAMIC
        || descriptor_type == vk::DESCRIPTOR_TYPE_STORAGE_IMAGE
        || descriptor_type == vk::DESCRIPTOR_TYPE_STORAGE_TEXEL_BUFFER
        || descriptor_type == vk::DESCRIPTOR_TYPE_UNIFORM_BUFFER
        || descriptor_type == vk::DESCRIPTOR_TYPE_UNIFORM_BUFFER_DYNAMIC
        || descriptor_type == vk::DESCRIPTOR_TYPE_UNIFORM_TEXEL_BUFFER
}

/// Descriptor counts and limits used to create a descriptor pool.
#[derive(Clone, Copy, Debug, PartialEq, Eq, Hash, Structural)]
pub struct DescriptorPoolInfo {
    /// The number of descriptors of type `ACCELERATION_STRUCTURE_KHR`.
    pub acceleration_structure_count: u32,
    /// The number of descriptors of type `COMBINED_IMAGE_SAMPLER`.
    pub combined_image_sampler_count: u32,
    /// The number of descriptors of type `INPUT_ATTACHMENT`.
    pub input_attachment_count: u32,
    /// The number of descriptor sets.
    pub max_sets: u32,
    /// The number of descriptors of type `SAMPLED_IMAGE`.
    pub sampled_image_count: u32,
    /// The number of descriptors of type `SAMPLER`.
    pub sampler_count: u32,
    /// The number of descriptors of type `STORAGE_BUFFER`.
    pub storage_buffer_count: u32,
    /// The number of descriptors of type `STORAGE_BUFFER_DYNAMIC`.
    pub storage_buffer_dynamic_count: u32,
    /// The number of descriptors of type `STORAGE_IMAGE`.
    pub storage_image_count: u32,
    /// The number of descriptors of type `STORAGE_TEXEL_BUFFER`.
    pub storage_texel_buffer_count: u32,
    /// The number of descriptors of type `UNIFORM_BUFFER`.
    pub uniform_buffer_count: u32,
    /// The number of descriptors of type `UNIFORM_BUFFER_DYNAMIC`.
    pub uniform_buffer_dynamic_count: u32,
    /// The number of descriptors of type `UNIFORM_TEXEL_BUFFER`.
    pub uniform_texel_buffer_count: u32,
}

/// How many descriptors of one type a pool holds.
#[derive(Clone, Copy, Debug, PartialEq, Eq, Structural)]
pub struct DescriptorPoolSize {
    /// The type of the descriptors.
    pub ty: i32,
    /// The number of descriptors.
    pub descriptor_count: u32,
}

/// The sizes in a list that are not zero.
pub open spec fn nonzero(sizes: Seq<DescriptorPoolSize>) -> Seq<DescriptorPoolSize>
    decreases sizes.len(),
{
    if sizes.len() == 0 {
        sizes
    } else if sizes.last().descriptor_count > 0 {
        nonzero(sizes.drop_last()).push(sizes.last())
    } else {
        nonzero(sizes.drop_last())
    }
}

/// How many descriptors of a type some bindings have.
pub open spec fn type_total(
    bindings: Seq<DescriptorSetLayoutBindingInfo>,
    descriptor_type: i32,
) -> nat
    decreases bindings.len(),
{
    if bindings.len() == 0 {
        0
    } else {
        type_total(bindings.drop_last(), descriptor_type) + if bindings.last().descriptor_type
            == descriptor_type {
            bindings.last().descriptor_count as nat
        } else {
            0
        }
    }
}

/// Why a pool for some bindings cannot be described: the first binding that is of a type that no
/// pool holds, or that makes a count too large to write down, decides.
pub open spec fn pool_error(bindings: Seq<DescriptorSetLayoutBindingInfo>) -> Option<DriverError>
    decreases bindings.len(),
{
    if bindings.len() == 0 {
        None
    } else {
        match pool_error(bindings.drop_last()) {
            Some(err) => Some(err),
            None => if !pooled(bindings.last().descriptor_type) {
                Some(DriverError::Unsupported)
            } else if type_total(bindings, bindings.last().descriptor_type) > u32::MAX {
                Some(DriverError::InvalidData)
            } else {
                None
            },
        }
    }
}

/// Appends the size of a type that is not zero.
fn push_size(sizes: &mut Vec<DescriptorPoolSize>, ty: i32, descriptor_count: u32)
    ensures
        final(sizes)@ == (if descriptor_count > 0 {
            old(sizes)@.push(DescriptorPoolSize { ty, descriptor_count })
        } else {
            old(sizes)@
        }),
{
    if descriptor_count > 0 {
        sizes.push(DescriptorPoolSize { ty, descriptor_count });
    }
}

impl DescriptorPoolInfo {
    /// How many descriptors of a type the pool holds.
    pub open spec fn count(self, descriptor_type: i32) -> u32 {
        if descriptor_type == vk::DESCRIPTOR_TYPE_ACCELERATION_STRUCTURE_KHR {
            self.acceleration_structure_count
        } else if descriptor_type == vk::DESCRIPTOR_TYPE_COMBINED_IMAGE_SAMPLER {
            self.combined_image_sampler_count
        } else if descriptor_type == vk::DESCRIPTOR_TYPE_INPUT_ATTACHMENT {
            self.input_attachment_count
        } else if descriptor_type == vk::DESCRIPTOR_TYPE_SAMPLED_IMAGE {
            self.sampled_image_count
        } else if descriptor_type == vk::DESCRIPTOR_TYPE_SAMPLER {
            self.sampler_count
        } else if descriptor_type == vk::DESCRIPTOR_TYPE_STORAGE_BUFFER {
            self.storage_buffer_count
        } else if descriptor_type == vk::DESCRIPTOR_TYPE_STORAGE_BUFFER_DYNAMIC {
            self.storage_buffer_dynamic_count
        } else if descriptor_type == vk::DESCRIPTOR_TYPE_STORAGE_IMAGE {
            self.storage_image_count
        } else if descriptor_type == vk::DESCRIPTOR_TYPE_STORAGE_TEXEL_BUFFER {
            self.storage_texel_buffer_count
        } else if descriptor_type == vk::DESCRIPTOR_TYPE_UNIFORM_BUFFER {
            self.uniform_buffer_count
        } else if descriptor_type == vk::DESCRIPTOR_TYPE_UNIFORM_BUFFER_DYNAMIC {
            self.uniform_buffer_dynamic_count
        } else if descriptor_type == vk::DESCRIPTOR_TYPE_UNIFORM_TEXEL_BUFFER {
            self.uniform_texel_buffer_count
        } else {
            0
        }
    }

    /// The sizes of all types, in the order in which a pool is created with them.
    pub open spec fn all_sizes(self) -> Seq<DescriptorPoolSize> {
        seq![
            DescriptorPoolSize {
                ty: vk::DESCRIPTOR_TYPE_ACCELERATION_STRUCTURE_KHR,
                descriptor_count: self.acceleration_structure_count,
            },
            DescriptorPoolSize {
                ty: vk::DESCRIPTOR_TYPE_COMBINED_IMAGE_SAMPLER,
                descriptor_count: self.combined_image_sampler_count,
            },
            DescriptorPoolSize {
                ty: vk::DESCRIPTOR_TYPE_INPUT_ATTACHMENT,
                descriptor_count: self.input_attachment_count,
            },
            DescriptorPoolSize {
                ty: vk::DESCRIPTOR_TYPE_SAMPLED_IMAGE,
                descriptor_count: self.sampled_image_count,
            },
            DescriptorPoolSize {
                ty: vk::DESCRIPTOR_TYPE_SAMPLER,
                descriptor_count: self.sampler_count,
            },
            DescriptorPoolSize {
                ty: vk::DESCRIPTOR_TYPE_STORAGE_BUFFER,
                descriptor_count: self.storage_buffer_count,
            },
            DescriptorPoolSize {
                ty: vk::DESCRIPTOR_TYPE_STORAGE_BUFFER_DYNAMIC,
                descriptor_count: self.storage_buffer_dynamic_count,
            },
            DescriptorPoolSize {
                ty: vk::DESCRIPTOR_TYPE_STORAGE_IMAGE,
                descriptor_count: self.storage_image_count,
            },
            DescriptorPoolSize {
                ty: vk::DESCRIPTOR_TYPE_STORAGE_TEXEL_BUFFER,
                descriptor_count: self.storage_texel_buffer_count,
            },
            DescriptorPoolSize {
                ty: vk::DESCRIPTOR_TYPE_UNIFORM_BUFFER,
                descriptor_count: self.uniform_buffer_count,
            },
            DescriptorPoolSize {
                ty: vk::DESCRIPTOR_TYPE_UNIFORM_BUFFER_DYNAMIC,
                descriptor_count: self.uniform_buffer_dynamic_count,
            },
            DescriptorPoolSize {
                ty: vk::DESCRIPTOR_TYPE_UNIFORM_TEXEL_BUFFER,
                descriptor_count: self.uniform_texel_buffer_count,
            },
        ]
    }

    /// The sizes that a pool is created with: those that are not zero.
    pub fn pool_sizes(&self) -> (sizes: Vec<DescriptorPoolSize>)
        ensures
            sizes@ == nonzero(self.all_sizes()),
    {
        let mut sizes: Vec<DescriptorPoolSize> = Vec::new();
        push_size(
            &mut sizes,
            vk::DESCRIPTOR_TYPE_ACCELERATION_STRUCTURE_KHR,
            self.acceleration_structure_count,
        );
        push_size(
            &mut sizes,
            vk::DESCRIPTOR_TYPE_COMBINED_IMAGE_SAMPLER,
            self.combined_image_sampler_count,
        );
        push_size(&mut sizes, vk::DESCRIPTOR_TYPE_INPUT_ATTACHMENT, self.input_attachment_count);
        push_size(&mut sizes, vk::DESCRIPTOR_TYPE_SAMPLED_IMAGE, self.sampled_image_count);
        push_size(&mut sizes, vk::DESCRIPTOR_TYPE_SAMPLER, self.sampler_count);
        push_size(&mut sizes, vk::DESCRIPTOR_TYPE_STORAGE_BUFFER, self.storage_buffer_count);
        push_size(
            &mut sizes,
            vk::DESCRIPTOR_TYPE_STORAGE_BUFFER_DYNAMIC,
            self.storage_buffer_dynamic_count,
        );
        push_size(&mut sizes, vk::DESCRIPTOR_TYPE_STORAGE_IMAGE, self.storage_image_count);
        push_size(
            &mut sizes,
            vk::DESCRIPTOR_TYPE_STORAGE_TEXEL_BUFFER,
            self.storage_texel_buffer_count,
        );
        push_size(&mut sizes, vk::DESCRIPTOR_TYPE_UNIFORM_BUFFER, self.uniform_buffer_count);
        push_size(
            &mut sizes,
            vk::DESCRIPTOR_TYPE_UNIFORM_BUFFER_DYNAMIC,
            self.uniform_buffer_dynamic_count,
        );
        push_size(
            &mut sizes,
            vk::DESCRIPTOR_TYPE_UNIFORM_TEXEL_BUFFER,
            self.uniform_texel_buffer_count,
        );
        proof {
            let all = self.all_sizes();
            lemma_nonzero_prefix(all, 0);
            lemma_nonzero_prefix(all, 1);
            lemma_nonzero_prefix(all, 2);
            lemma_nonzero_prefix(all, 3);
            lemma_nonzero_prefix(all, 4);
            lemma_nonzero_prefix(all, 5);
            lemma_nonzero_prefix(all, 6);
            lemma_nonzero_prefix(all, 7);
            lemma_nonzero_prefix(all, 8);
            lemma_nonzero_prefix(all, 9);
            lemma_nonzero_prefix(all, 10);
            lemma_nonzero_prefix(all, 11);
            assert(all.take(12) =~= all);
            assert(all.take(0) =~= seq![]);
        }
        sizes
    }

    /// Reads how many descriptors of a type the pool holds, where a pool can hold such.
    fn read_count(self, descriptor_type: i32) -> (count: Option<u32>)
        ensures
            count is Some == pooled(descriptor_type),
            count matches Some(count) ==> count == self.count(descriptor_type),
    {
        match descriptor_type {
            vk::DESCRIPTOR_TYPE_ACCELERATION_STRUCTURE_KHR => Some(self.acceleration_structure_count),
            vk::DESCRIPTOR_TYPE_COMBINED_IMAGE_SAMPLER => Some(self.combined_image_sampler_count),
            vk::DESCRIPTOR_TYPE_INPUT_ATTACHMENT => Some(self.input_attachment_count),
            vk::DESCRIPTOR_TYPE_SAMPLED_IMAGE => Some(self.sampled_image_count),
            vk::DESCRIPTOR_TYPE_SAMPLER => Some(self.sampler_count),
            vk::DESCRIPTOR_TYPE_STORAGE_BUFFER => Some(self.storage_buffer_count),
            vk::DESCRIPTOR_TYPE_STORAGE_BUFFER_DYNAMIC => Some(self.storage_buffer_dynamic_count),
            vk::DESCRIPTOR_TYPE_STORAGE_IMAGE => Some(self.storage_image_count),
            vk::DESCRIPTOR_TYPE_STORAGE_TEXEL_BUFFER => Some(self.storage_texel_buffer_count),
            vk::DESCRIPTOR_TYPE_UNIFORM_BUFFER => Some(self.uniform_buffer_count),
            vk::DESCRIPTOR_TYPE_UNIFORM_BUFFER_DYNAMIC => Some(self.uniform_buffer_dynamic_count),
            vk::DESCRIPTOR_TYPE_UNIFORM_TEXEL_BUFFER => Some(self.uniform_texel_buffer_count),
            _ => None,
        }
    }

    /// The pool with another number of descriptors of a type.
    fn with_count(self, descriptor_type: i32, count: u32) -> (info: Self)
        requires
            pooled(descriptor_type),
        ensures
            info.max_sets == self.max_sets,
            forall|ty: i32|
                #[trigger] info.count(ty) == (if ty == descriptor_type {
                    count
                } else {
                    self.count(ty)
                }),
    {
        match descriptor_type {
            vk::DESCRIPTOR_TYPE_ACCELERATION_STRUCTURE_KHR => DescriptorPoolInfo {
                acceleration_structure_count: count,
                ..self
            },
            vk::DESCRIPTOR_TYPE_COMBINED_IMAGE_SAMPLER => DescriptorPoolInfo {
                combined_image_sampler_count: count,
                ..self
            },
            vk::DESCRIPTOR_TYPE_INPUT_ATTACHMENT => DescriptorPoolInfo {
                input_attachment_count: count,
                ..self
            },
            vk::DESCRIPTOR_TYPE_SAMPLED_IMAGE => DescriptorPoolInfo {
                sampled_image_count: count,
                ..self
            },
            vk::DESCRIPTOR_TYPE_SAMPLER => DescriptorPoolInfo { sampler_count: count, ..self },
            vk::DESCRIPTOR_TYPE_STORAGE_BUFFER => DescriptorPoolInfo {
                storage_buffer_count: count,
                ..self
            },
            vk::DESCRIPTOR_TYPE_STORAGE_BUFFER_DYNAMIC => DescriptorPoolInfo {
                storage_buffer_dynamic_count: count,
                ..self
            },
            vk::DESCRIPTOR_TYPE_STORAGE_IMAGE => DescriptorPoolInfo {
                storage_image_count: count,
                ..self
            },
            vk::DESCRIPTOR_TYPE_STORAGE_TEXEL_BUFFER => DescriptorPoolInfo {
                storage_texel_buffer_count: count,
                ..self
            },
            vk::DESCRIPTOR_TYPE_UNIFORM_BUFFER => DescriptorPoolInfo {
                uniform_buffer_count: count,
                ..self
            },
            vk::DESCRIPTOR_TYPE_UNIFORM_BUFFER_DYNAMIC => DescriptorPoolInfo {
                uniform_buffer_dynamic_count: count,
                ..self
            },
            vk::DESCRIPTOR_TYPE_UNIFORM_TEXEL_BUFFER => DescriptorPoolInfo {
                uniform_texel_buffer_count: count,
                ..self
            },
            _ => self,
        }
    }

    /// A pool for one set of a layout.
    pub fn for_layout(layout: &DescriptorSetLayoutInfo) -> (info: Result<Self, DriverError>)
        ensures
            match info {
                Ok(info) => {
                    &&& pool_error(layout.bindings@) is None
                    &&& info.max_sets == 1
                    &&& forall|ty: i32|
                        pooled(ty) ==> #[trigger] info.count(ty) == type_total(layout.bindings@, ty)
                },
                Err(err) => pool_error(layout.bindings@) == Some(err),
            },
    {
        let mut info = DescriptorPoolInfo {
            acceleration_structure_count: 0,
            combined_image_sampler_count: 0,
            input_attachment_count: 0,
            max_sets: 1,
            sampled_image_count: 0,
            sampler_count: 0,
            storage_buffer_count: 0,
            storage_buffer_dynamic_count: 0,
            storage_image_count: 0,
            storage_texel_buffer_count: 0,
            uniform_buffer_count: 0,
            uniform_buffer_dynamic_count: 0,
            uniform_texel_buffer_count: 0,
        };
        let mut index: usize = 0;
        assert(layout.bindings@.take(0) =~= seq![]);
        while index < layout.bindings.len()
            invariant
                index <= layout.bindings@.len(),
                info.max_sets == 1,
                pool_error(layout.bindings@.take(index as int)) is None,
                forall|ty: i32|
                    pooled(ty) ==> #[trigger] info.count(ty) == type_total(
                        layout.bindings@.take(index as int),
                        ty,
                    ),
            decreases layout.bindings@.len() - index,
        {
            let binding = layout.bindings[index];
            let ghost now = layout.bindings@.take(index + 1);
            let ghost before = info;
            proof {
                assert(now.drop_last() =~= layout.bindings@.take(index as int));
                assert(now.last() == binding);
            }
            match info.read_count(binding.descriptor_type) {
                None => {
                    proof {
                        lemma_error_stays(layout.bindings@, index + 1);
                    }
                    return Err(DriverError::Unsupported);
                },
                Some(count) => {
                    match count.checked_add(binding.descriptor_count) {
                        None => {
                            proof {
                                lemma_error_stays(layout.bindings@, index + 1);
                            }
                            return Err(DriverError::InvalidData);
                        },
                        Some(sum) => {
                            info = info.with_count(binding.descriptor_type, sum);
                            assert forall|ty: i32| pooled(ty) implies #[trigger] info.count(ty)
                                == type_total(now, ty) by {
                                assert(before.count(ty) == type_total(now.drop_last(), ty));
                            }
                        },
                    }
                },
            }
            index += 1;
        }
        assert(layout.bindings@.take(index as int) =~= layout.bindings@);
        Ok(info)
    }
}

/// What is left of a list's first sizes.
proof fn lemma_nonzero_prefix(sizes: Seq<DescriptorPoolSize>, index: int)
    requires
        0 <= index < sizes.len(),
    ensures
        nonzero(sizes.take(index + 1)) == (if sizes[index].descriptor_count > 0 {
            nonzero(sizes.take(index)).push(sizes[index])
        } else {
            nonzero(sizes.take(index))
        }),
{
    assert(sizes.take(index + 1).drop_last() =~= sizes.take(index));
    assert(sizes.take(index + 1).last() == sizes[index]);
}

/// What stops a pool for some bindings stops it for more of them.
proof fn lemma_error_stays(bindings: Seq<DescriptorSetLayoutBindingInfo>, len: int)
    requires
        0 <= len <= bindings.len(),
        pool_error(bindings.take(len)) is Some,
    ensures
        pool_error(bindings) == pool_error(bindings.take(len)),
    decreases bindings.len(),
{
    if len < bindings.len() {
        assert(bindings.drop_last().take(len) =~= bindings.take(len));
        lemma_error_stays(bindings.drop_last(), len);
    } else {
        assert(bindings.take(len) =~= bindings);
    }
}

impl Default for DescriptorPoolInfo {
    fn default() -> (info: Self)
        ensures
            info.max_sets == 0,
            forall|ty: i32| #[trigger] info.count(ty) == 0,
    {
        DescriptorPoolInfo {
            acceleration_structure_count: 0,
            combined_image_sampler_count: 0,
            input_attachment_count: 0,
            max_sets: 0,
            sampled_image_count: 0,
            sampler_count: 0,
            storage_buffer_count: 0,
            storage_buffer_dynamic_count: 0,
            storage_image_count: 0,
            storage_texel_buffer_count: 0,
            uniform_buffer_count: 0,
            uniform_buffer_dynamic_count: 0,
            uniform_texel_buffer_count: 0,
        }
    }
}

/// The error for descriptor sets that could not be allocated.
pub fn allocation_error(result: i32) -> (err: DriverError)
    ensures
        err == (if result == vk::ERROR_FRAGMENTED_POOL {
            DriverError::InvalidData
        } else if result == vk::ERROR_OUT_OF_DEVICE_MEMORY || result == vk::ERROR_OUT_OF_HOST_MEMORY
            || result == vk::ERROR_OUT_OF_POOL_MEMORY {
            DriverError::OutOfMemory
        } else {
            DriverError::Unsupported
        }),
{
    match result {
        vk::ERROR_FRAGMENTED_POOL => DriverError::InvalidData,
        vk::ERROR_OUT_OF_DEVICE_MEMORY => DriverError::OutOfMemory,
        vk::ERROR_OUT_OF_HOST_MEMORY => DriverError::OutOfMemory,
        vk::ERROR_OUT_OF_POOL_MEMORY => DriverError::OutOfMemory,
        _ => DriverError::Unsupported,
    }
}

/// Identifies one binding and array element within a descriptor set.
#[derive(Clone, Copy, Debug, PartialEq, Eq, Hash, PartialOrd, Ord, Structural)]
pub struct DescriptorSetBinding {
    /// The descriptor binding index.
    pub binding: u32,
    /// The array element within `binding`.
    pub array_element: u32,
}

impl Default for DescriptorSetBinding {
    fn default() -> (binding: Self)
        ensures
            binding == (DescriptorSetBinding { binding: 0, array_element: 0 }),
    {
        DescriptorSetBinding { binding: 0, array_element: 0 }
    }
}

impl From<u32> for DescriptorSetBinding {
    fn from(binding: u32) -> (converted: Self) {
        DescriptorSetBinding { binding, array_element: 0 }
    }
}

impl vstd::std_specs::convert::FromSpecImpl<u32> for DescriptorSetBinding {
    open spec fn obeys_from_spec() -> bool {
        true
    }

    open spec fn from_spec(binding: u32) -> Self {
        DescriptorSetBinding { binding, array_element: 0 }
    }
}

impl From<(u32, u32)> for DescriptorSetBinding {
    fn from(value: (u32, u32)) -> (converted: Self) {
        DescriptorSetBinding { binding: value.0, array_element: value.1 }
    }
}

impl vstd::std_specs::convert::FromSpecImpl<(u32, u32)> for DescriptorSetBinding {
    open spec fn obeys_from_spec() -> bool {
        true
    }

    open spec fn from_spec(value: (u32, u32)) -> Self {
        DescriptorSetBinding { binding: value.0, array_element: value.1 }
    }
}

impl From<(u32, [u32; 1])> for DescriptorSetBinding {
    fn from(value: (u32, [u32; 1])) -> (converted: Self) {
        let array_element: u32 = value.1[0];
        DescriptorSetBinding { binding: value.0, array_element }
    }
}

impl vstd::std_specs::convert::FromSpecImpl<(u32, [u32; 1])> for DescriptorSetBinding {
    open spec fn obeys_from_spec() -> bool {
        true
    }

    open spec fn from_spec(value: (u32, [u32; 1])) -> Self {
        DescriptorSetBinding { binding: value.0, array_element: value.1[0] }
    }
}

/// Information used to allocate a [`DescriptorSet`].
#[derive(Clone, Copy, Debug, PartialEq, Eq, Hash, Structural)]
pub struct DescriptorSetInfo {
    /// The pipeline descriptor set index whose layout will be used.
    pub set: u32,
}

/// Builder for [`DescriptorSetInfo`].
#[derive(Clone, Copy, Debug)]
pub struct DescriptorSetInfoBuilder {
    set: u32,
}

impl DescriptorSetInfo {
    /// Creates a default descriptor set information builder.
    pub fn builder() -> (builder: DescriptorSetInfoBuilder)
        ensures
            builder.built() == (DescriptorSetInfo { set: 0 }),
    {
        DescriptorSetInfoBuilder { set: 0 }
    }

    /// Converts this information into a builder.
    pub fn into_builder(self) -> (builder: DescriptorSetInfoBuilder)
        ensures
            builder.built() == self,
    {
        DescriptorSetInfoBuilder { set: self.set }
    }
}

impl Default for DescriptorSetInfo {
    fn default() -> (info: Self)
        ensures
            info == (DescriptorSetInfo { set: 0 }),
    {
        DescriptorSetInfo { set: 0 }
    }
}

impl DescriptorSetInfoBuilder {
    /// The information that the builder describes.
    pub closed spec fn built(self) -> DescriptorSetInfo {
        DescriptorSetInfo { set: self.set }
    }

    /// Selects the pipeline descriptor set index whose layout will be used.
    pub fn set(self, set: u32) -> (builder: Self)
        ensures
            builder.built() == (DescriptorSetInfo { set }),
    {
        DescriptorSetInfoBuilder { set }
    }

    /// Builds descriptor set information.
    pub fn build(self) -> (info: DescriptorSetInfo)
        ensures
            info == self.built(),
    {
        DescriptorSetInfo { set: self.set }
    }
}

impl Default for DescriptorSetInfoBuilder {
    fn default() -> (builder: Self)
        ensures
            builder.built() == (DescriptorSetInfo { set: 0 }),
    {
        DescriptorSetInfoBuilder { set: 0 }
    }
}

impl From<DescriptorSetInfoBuilder> for DescriptorSetInfo {
    fn from(builder: DescriptorSetInfoBuilder) -> (info: Self) {
        builder.build()
    }
}

impl vstd::std_specs::convert::FromSpecImpl<DescriptorSetInfoBuilder> for DescriptorSetInfo {
    open spec fn obeys_from_spec() -> bool {
        true
    }

    open spec fn from_spec(builder: DescriptorSetInfoBuilder) -> Self {
        builder.built()
    }
}

/// The descriptor set layouts of a pipeline, by their set indices.
#[derive(Debug)]
pub struct PipelineDescriptorInfo {
    /// Set indices with their layouts.
    pub layouts: Vec<(u32, DescriptorSetLayout)>,
}

impl PipelineDescriptorInfo {
    /// Set indices are in ascending order, and so are the bindings of each layout.
    pub open spec fn wf(self) -> bool {
        &&& forall|i: int, j: int|
            0 <= i < j < self.layouts@.len() ==> (#[trigger] self.layouts@[i]).0 < (
            #[trigger] self.layouts@[j]).0
        &&& forall|i: int|
            0 <= i < self.layouts@.len() ==> ascending((#[trigger] self.layouts@[i]).1.info.bindings@)
    }

    /// Whether there is a layout at a set index.
    pub open spec fn has(self, set: u32) -> bool {
        exists|i: int| 0 <= i < self.layouts@.len() && (#[trigger] self.layouts@[i]).0 == set
    }

    /// The layout at a set index.
    pub open spec fn at(self, set: u32) -> DescriptorSetLayout {
        self.layouts@[choose|i: int|
            0 <= i < self.layouts@.len() && (#[trigger] self.layouts@[i]).0 == set].1
    }

    /// Returns the layout at a set index, where there is one.
    pub fn get(&self, set: u32) -> (layout: Option<&DescriptorSetLayout>)
        requires
            self.wf(),
        ensures
            layout is Some == self.has(set),
            layout matches Some(layout) ==> *layout == self.at(set),
    {
        let mut index: usize = 0;
        while index < self.layouts.len()
            invariant
                index <= self.layouts@.len(),
                self.wf(),
                forall|i: int| 0 <= i < index ==> (#[trigger] self.layouts@[i]).0 != set,
            decreases self.layouts@.len() - index,
        {
            if self.layouts[index].0 == set {
                proof {
                    assert(self.layouts@[index as int].0 == set);
                    let i = choose|i: int|
                        0 <= i < self.layouts@.len() && (#[trigger] self.layouts@[i]).0 == set;
                    assert(i == index);
                }
                return Some(&self.layouts[index].1);
            }
            index += 1;
        }
        None
    }
}

/// A compute, graphics, or ray tracing pipeline that can provide a descriptor set layout.
pub trait DescriptorSetPipeline {
    /// The layouts of the pipeline.
    spec fn descriptors(&self) -> PipelineDescriptorInfo;

    /// The device of the pipeline.
    spec fn device_id(&self) -> u64;

    /// The layouts of the pipeline.
    fn descriptor_info(&self) -> (info: &PipelineDescriptorInfo)
        ensures
            *info == self.descriptors(),
    ;

    /// The device of the pipeline.
    fn device(&self) -> (device: u64)
        ensures
            device == self.device_id(),
    ;
}

/// What a device allows of buffer descriptors.
#[derive(Clone, Copy, Debug, PartialEq, Eq, Structural)]
pub struct DescriptorLimits {
    /// The largest range of a storage buffer descriptor.
    pub max_storage_buffer_range: u32,
    /// The largest range of a uniform buffer descriptor.
    pub max_uniform_buffer_range: u32,
    /// What the offset of a storage buffer descriptor is a multiple of.
    pub min_storage_buffer_offset_alignment: u64,
    /// What the offset of a uniform buffer descriptor is a multiple of.
    pub min_uniform_buffer_offset_alignment: u64,
}

/// A descriptor set that was allocated.
#[derive(Debug)]
pub struct DescriptorSet {
    /// The native handle of the set.
    pub handle: u64,
    /// The information used to allocate the set.
    pub info: DescriptorSetInfo,
    /// The layout of the set.
    pub layout: DescriptorSetLayout,
}

/// What a descriptor is updated with.
#[allow(inconsistent_fields)]
#[derive(Debug)]
pub enum DescriptorSetUpdate<'a> {
    /// An acceleration structure.
    AccelerationStructure {
        /// The device of the acceleration structure.
        device: u64,
        /// The native handle of the acceleration structure.
        handle: u64,
        /// Information used to create the acceleration structure.
        info: AccelerationStructureInfo,
    },
    /// A range of a buffer.
    Buffer {
        /// The device of the buffer.
        device: u64,
        /// The native handle of the buffer.
        handle: u64,
        /// Information used to create the buffer.
        info: BufferInfo,
        /// The range.
        range: BufferSubresourceRange,
    },
    /// Descriptors of another set.
    Copy {
        /// The number of descriptors.
        descriptor_count: u32,
        /// The other set.
        source: &'a DescriptorSet,
        /// The first of the descriptors.
        source_binding: DescriptorSetBinding,
    },
    /// A view of an image.
    Image {
        /// The device of the image.
        device: u64,
        /// Information used to create the image.
        info: ImageInfo,
        /// The view.
        view: ImageViewInfo,
    },
}

/// One write or copy performed while allocating a [`DescriptorSet`].
#[derive(Debug)]
pub struct DescriptorSetUpdateInfo<'a> {
    /// The first descriptor that is updated.
    pub destination: DescriptorSetBinding,
    /// What it is updated with.
    pub update: DescriptorSetUpdate<'a>,
}

impl<'a> DescriptorSetUpdateInfo<'a> {
    /// Writes an acceleration structure descriptor.
    pub fn acceleration_structure(
        destination: DescriptorSetBinding,
        device: u64,
        handle: u64,
        info: AccelerationStructureInfo,
    ) -> (update: Self)
        ensures
            update == (DescriptorSetUpdateInfo {
                destination,
                update: DescriptorSetUpdate::AccelerationStructure { device, handle, info },
            }),
    {
        DescriptorSetUpdateInfo {
            destination,
            update: DescriptorSetUpdate::AccelerationStructure { device, handle, info },
        }
    }

    /// Writes a whole-buffer descriptor.
    pub fn buffer(destination: DescriptorSetBinding, device: u64, handle: u64, info: BufferInfo) -> (
    update: Self)
        ensures
            update == (DescriptorSetUpdateInfo {
                destination,
                update: DescriptorSetUpdate::Buffer {
                    device,
                    handle,
                    info,
                    range: BufferSubresourceRange { start: 0, end: info.size },
                },
            }),
    {
        Self::buffer_range(
            destination,
            device,
            handle,
            info,
            BufferSubresourceRange { start: 0, end: info.size },
        )
    }

    /// Writes a descriptor for a range of a buffer.
    pub fn buffer_range(
        destination: DescriptorSetBinding,
        device: u64,
        handle: u64,
        info: BufferInfo,
        range: BufferSubresourceRange,
    ) -> (update: Self)
        ensures
            update == (DescriptorSetUpdateInfo {
                destination,
                update: DescriptorSetUpdate::Buffer { device, handle, info, range },
            }),
    {
        DescriptorSetUpdateInfo {
            destination,
            update: DescriptorSetUpdate::Buffer { device, handle, info, range },
        }
    }

    /// Copies one descriptor from an existing descriptor set.
    pub fn copy(
        source: &'a DescriptorSet,
        source_binding: DescriptorSetBinding,
        destination: DescriptorSetBinding,
    ) -> (update: Self)
        ensures
            update == (DescriptorSetUpdateInfo {
                destination,
                update: DescriptorSetUpdate::Copy { descriptor_count: 1, source, source_binding },
            }),
    {
        Self::copy_many(source, source_binding, destination, 1)
    }

    /// Copies consecutive descriptors from an existing descriptor set.
    ///
    /// The source and destination ranges must each remain within one reflected binding.
    pub fn copy_many(
        source: &'a DescriptorSet,
        source_binding: DescriptorSetBinding,
        destination: DescriptorSetBinding,
        descriptor_count: u32,
    ) -> (update: Self)
        ensures
            update == (DescriptorSetUpdateInfo {
                destination,
                update: DescriptorSetUpdate::Copy { descriptor_count, source, source_binding },
            }),
    {
        DescriptorSetUpdateInfo {
            destination,
            update: DescriptorSetUpdate::Copy { descriptor_count, source, source_binding },
        }
    }

    /// Writes a descriptor using the image's default view.
    ///
    /// Depth/stencil formats require [`Self::image_view`] with exactly one selected aspect.
    pub fn image(destination: DescriptorSetBinding, device: u64, info: ImageInfo) -> (update: Self)
        requires
            info.viewable(),
        ensures
            update == (DescriptorSetUpdateInfo {
                destination,
                update: DescriptorSetUpdate::Image { device, info, view: info.whole_view() },
            }),
    {
        Self::image_view(destination, device, info, info.into_image_view())
    }

    /// Writes a descriptor using a specific image view.
    pub fn image_view(
        destination: DescriptorSetBinding,
        device: u64,
        info: ImageInfo,
        view: ImageViewInfo,
    ) -> (update: Self)
        ensures
            update == (DescriptorSetUpdateInfo {
                destination,
                update: DescriptorSetUpdate::Image { device, info, view },
            }),
    {
        DescriptorSetUpdateInfo {
            destination,
            update: DescriptorSetUpdate::Image { device, info, view },
        }
    }
}

/// A write that was found valid.
#[derive(Clone, Copy, Debug, PartialEq, Eq, Structural)]
pub struct DescriptorWrite {
    /// The descriptor that is written.
    pub destination: DescriptorSetBinding,
    /// The type of the descriptor.
    pub descriptor_type: i32,
    /// What is written.
    pub content: DescriptorContent,
}

/// What a write writes.
#[derive(Clone, Copy, Debug, PartialEq, Eq, Structural)]
pub enum DescriptorContent {
    /// An acceleration structure, by its handle.
    AccelerationStructure(u64),
    /// A range of a buffer.
    Buffer {
        /// The handle of the buffer.
        handle: u64,
        /// Where the range starts.
        offset: u64,
        /// The size of the range, or the value that stands for all that remains.
        range: u64,
    },
    /// A view of an image.
    Image {
        /// The layout in which the image is used.
        image_layout: i32,
        /// The handle of the view.
        image_view: u64,
    },
}

/// A copy that was found valid.
#[derive(Clone, Copy, Debug, PartialEq, Eq, Structural)]
pub struct DescriptorCopy {
    /// The number of descriptors.
    pub descriptor_count: u32,
    /// The first descriptor that is written.
    pub destination: DescriptorSetBinding,
    /// The set that is read.
    pub source: u64,
    /// The first descriptor that is read.
    pub source_binding: DescriptorSetBinding,
}

/// Whether a set with a layout can be allocated by itself.
pub open spec fn allocatable(bindings: Seq<DescriptorSetLayoutBindingInfo>) -> bool {
    forall|i: int| 0 <= i < bindings.len() ==> !restricted((#[trigger] bindings[i]).descriptor_type)
}

/// Whether descriptors of a type need more than a set by itself.
pub open spec fn restricted(descriptor_type: i32) -> bool {
    descriptor_type == vk::DESCRIPTOR_TYPE_INPUT_ATTACHMENT || descriptor_type
        == vk::DESCRIPTOR_TYPE_STORAGE_BUFFER_DYNAMIC || descriptor_type
        == vk::DESCRIPTOR_TYPE_STORAGE_TEXEL_BUFFER || descriptor_type
        == vk::DESCRIPTOR_TYPE_UNIFORM_BUFFER_DYNAMIC || descriptor_type
        == vk::DESCRIPTOR_TYPE_UNIFORM_TEXEL_BUFFER
}

/// Whether descriptors from a binding on lie in one binding of a layout.
pub open spec fn in_binding(
    bindings: Seq<DescriptorSetLayoutBindingInfo>,
    binding: DescriptorSetBinding,
    descriptor_count: u32,
) -> bool {
    &&& DescriptorSetLayoutInfo::lookup(bindings, binding.binding) is Some
    &&& descriptor_count > 0
    &&& binding.array_element + descriptor_count <= DescriptorSetLayoutInfo::lookup(
        bindings,
        binding.binding,
    )->0.descriptor_count
}

/// The layout in which a descriptor of a type uses an image.
pub open spec fn image_layout_of(descriptor_type: i32) -> Option<i32> {
    if descriptor_type == vk::DESCRIPTOR_TYPE_COMBINED_IMAGE_SAMPLER || descriptor_type
        == vk::DESCRIPTOR_TYPE_SAMPLED_IMAGE {
        Some(vk::IMAGE_LAYOUT_SHADER_READ_ONLY_OPTIMAL)
    } else if descriptor_type == vk::DESCRIPTOR_TYPE_STORAGE_IMAGE {
        Some(vk::IMAGE_LAYOUT_GENERAL)
    } else {
        None
    }
}

/// What an offset and a size of a buffer descriptor have to obey: the usage of the buffer, the
/// alignment of offsets and the largest size.
pub open spec fn buffer_rules(limits: DescriptorLimits, descriptor_type: i32) -> Option<
    (u32, u64, u64),
> {
    if descriptor_type == vk::DESCRIPTOR_TYPE_STORAGE_BUFFER {
        Some(
            (
                vk::BUFFER_USAGE_STORAGE_BUFFER,
                limits.min_storage_buffer_offset_alignment,
                limits.max_storage_buffer_range as u64,
            ),
        )
    } else if descriptor_type == vk::DESCRIPTOR_TYPE_UNIFORM_BUFFER {
        Some(
            (
                vk::BUFFER_USAGE_UNIFORM_BUFFER,
                limits.min_uniform_buffer_offset_alignment,
                limits.max_uniform_buffer_range as u64,
            ),
        )
    } else {
        None
    }
}

/// Whether a range of a buffer can be described.
pub open spec fn buffer_range_valid(
    limits: DescriptorLimits,
    descriptor_type: i32,
    info: BufferInfo,
    range: BufferSubresourceRange,
) -> bool {
    let end = range.resolved(info.size).end;
    &&& buffer_rules(limits, descriptor_type) matches Some(rules)
    &&& info.usage & rules.0 == rules.0
    &&& range.start < end <= info.size
    &&& rules.1 > 1 ==> range.start % rules.1 == 0
    &&& end - range.start <= rules.2
}

/// A count of mip levels or array layers from a first one on, which may stand for all that remain.
pub open spec fn view_count(count: u32, base: u32, total: u32, remaining: u32) -> int {
    if count == remaining {
        total - base
    } else {
        count as int
    }
}

/// Whether a view of an image can be described.
pub open spec fn image_view_valid(
    descriptor_type: i32,
    info: ImageInfo,
    view: ImageViewInfo,
) -> bool {
    let usage = if descriptor_type == vk::DESCRIPTOR_TYPE_STORAGE_IMAGE {
        vk::IMAGE_USAGE_STORAGE
    } else {
        vk::IMAGE_USAGE_SAMPLED
    };
    let levels = view_count(
        view.mip_level_count,
        view.base_mip_level,
        info.mip_level_count,
        vk::REMAINING_MIP_LEVELS,
    );
    let layers = view_count(
        view.array_layer_count,
        view.base_array_layer,
        info.array_layer_count,
        vk::REMAINING_ARRAY_LAYERS,
    );
    &&& image_layout_of(descriptor_type) is Some
    &&& info.usage & usage == usage
    &&& view.format != vk::FORMAT_UNDEFINED
    &&& count_bits(view.aspect_mask, 0) == 1
    &&& aspects_of_format(info.format) & view.aspect_mask == view.aspect_mask
    &&& 0 < levels
    &&& view.base_mip_level + levels <= info.mip_level_count
    &&& 0 < layers
    &&& view.base_array_layer + layers <= info.array_layer_count
    &&& view.format == info.format || info.flags & vk::IMAGE_CREATE_MUTABLE_FORMAT
        == vk::IMAGE_CREATE_MUTABLE_FORMAT
}

/// The device of what an update sets a descriptor to.
pub open spec fn update_device(update: DescriptorSetUpdateInfo) -> u64 {
    match update.update {
        DescriptorSetUpdate::AccelerationStructure { device, .. } => device,
        DescriptorSetUpdate::Buffer { device, .. } => device,
        DescriptorSetUpdate::Copy { source, .. } => source.layout.device,
        DescriptorSetUpdate::Image { device, .. } => device,
    }
}

/// Whether an update fits a set with a layout, whatever devices they are of.
pub open spec fn update_fits(
    layout: DescriptorSetLayout,
    limits: DescriptorLimits,
    update: DescriptorSetUpdateInfo,
) -> bool {
    let bindings = layout.info.bindings@;
    let target = DescriptorSetLayoutInfo::lookup(bindings, update.destination.binding)->0;
    &&& in_binding(bindings, update.destination, 1)
    &&& match update.update {
        DescriptorSetUpdate::AccelerationStructure { info, .. } => {
            &&& target.descriptor_type == vk::DESCRIPTOR_TYPE_ACCELERATION_STRUCTURE_KHR
            &&& info.acceleration_structure_type == vk::ACCELERATION_STRUCTURE_TYPE_GENERIC
                || info.acceleration_structure_type == vk::ACCELERATION_STRUCTURE_TYPE_TOP_LEVEL
        },
        DescriptorSetUpdate::Buffer { info, range, .. } => buffer_range_valid(
            limits,
            target.descriptor_type,
            info,
            range,
        ),
        DescriptorSetUpdate::Copy { descriptor_count, source, source_binding } => {
            let from = source.layout.info.bindings@;
            let origin = DescriptorSetLayoutInfo::lookup(from, source_binding.binding)->0;
            &&& in_binding(bindings, update.destination, descriptor_count)
            &&& in_binding(from, source_binding, descriptor_count)
            &&& origin.descriptor_type == target.descriptor_type
            &&& !(target.descriptor_type == vk::DESCRIPTOR_TYPE_SAMPLER
                && target.immutable_sampler is Some)
        },
        DescriptorSetUpdate::Image { info, view, .. } => image_view_valid(
            target.descriptor_type,
            info,
            view,
        ),
    }
}

/// Whether an update of a set of a device is valid: it is of that device, and fits the layout of
/// the set.
pub open spec fn update_valid(
    device: u64,
    layout: DescriptorSetLayout,
    limits: DescriptorLimits,
    update: DescriptorSetUpdateInfo,
) -> bool {
    update_device(update) == device && update_fits(layout, limits, update)
}

/// Whether the layouts that an update speaks of have their bindings in ascending order.
pub open spec fn update_wf(layout: DescriptorSetLayout, update: DescriptorSetUpdateInfo) -> bool {
    &&& ascending(layout.info.bindings@)
    &&& update.update matches DescriptorSetUpdate::Copy { source, .. } ==> ascending(
        source.layout.info.bindings@,
    )
}

impl DescriptorSet {
    /// The device which owns this descriptor set.
    pub fn device(&self) -> (device: u64)
        ensures
            device == self.layout.device,
    {
        self.layout.device
    }

    /// The native Vulkan handle of this descriptor set.
    pub fn handle(&self) -> (handle: u64)
        ensures
            handle == self.handle,
    {
        self.handle
    }

    /// Gets the information used to allocate this descriptor set.
    pub fn info(&self) -> (info: DescriptorSetInfo)
        ensures
            info == self.info,
    {
        self.info
    }

    /// Whether the set can be used where a pipeline has a layout at a set index.
    pub fn is_compatible(&self, set: u32, layout: &DescriptorSetLayout) -> (compatible: bool)
        ensures
            compatible == (self.info.set == set && self.layout.same_layout(*layout)),
    {
        self.info.set == set && self.layout.is_same(layout)
    }

    /// Checks that a set with a layout can be allocated by itself.
    pub fn validate_layout(layout: &DescriptorSetLayoutInfo) -> (valid: Result<(), DriverError>)
        ensures
            valid == (if allocatable(layout.bindings@) {
                Ok::<(), DriverError>(())
            } else {
                Err(DriverError::Unsupported)
            }),
    {
        let mut index: usize = 0;
        while index < layout.bindings.len()
            invariant
                index <= layout.bindings@.len(),
                forall|i: int|
                    0 <= i < index ==> !restricted((#[trigger] layout.bindings@[i]).descriptor_type),
            decreases layout.bindings@.len() - index,
        {
            match layout.bindings[index].descriptor_type {
                vk::DESCRIPTOR_TYPE_INPUT_ATTACHMENT
                | vk::DESCRIPTOR_TYPE_STORAGE_BUFFER_DYNAMIC
                | vk::DESCRIPTOR_TYPE_STORAGE_TEXEL_BUFFER
                | vk::DESCRIPTOR_TYPE_UNIFORM_BUFFER_DYNAMIC
                | vk::DESCRIPTOR_TYPE_UNIFORM_TEXEL_BUFFER => {
                    assert(restricted(layout.bindings@[index as int].descriptor_type));
                    return Err(DriverError::Unsupported);
                },
                _ => {},
            }
            index += 1;
        }
        Ok(())
    }

    /// The layout of a pipeline that a set is allocated with.
    pub fn pipeline_layout<P: DescriptorSetPipeline>(pipeline: &P, info: DescriptorSetInfo) -> (
    layout: Result<&DescriptorSetLayout, DriverError>)
        requires
            pipeline.descriptors().wf(),
        ensures
            !pipeline.descriptors().has(info.set) ==> layout == Err::<
                &DescriptorSetLayout,
                DriverError,
            >(DriverError::InvalidData),
            pipeline.descriptors().has(info.set) ==> layout == (if allocatable(
                pipeline.descriptors().at(info.set).info.bindings@,
            ) {
                Ok::<&DescriptorSetLayout, DriverError>(&pipeline.descriptors().at(info.set))
            } else {
                Err(DriverError::Unsupported)
            }),
    {
        match pipeline.descriptor_info().get(info.set) {
            None => Err(DriverError::InvalidData),
            Some(layout) => match Self::validate_layout(&layout.info) {
                Ok(_) => Ok(layout),
                Err(err) => Err(err),
            },
        }
    }

    /// The layout in which a descriptor of a type uses an image, where it does.
    pub fn image_layout(descriptor_type: i32) -> (layout: Option<i32>)
        ensures
            layout == image_layout_of(descriptor_type),
    {
        match descriptor_type {
            vk::DESCRIPTOR_TYPE_COMBINED_IMAGE_SAMPLER | vk::DESCRIPTOR_TYPE_SAMPLED_IMAGE => Some(
                vk::IMAGE_LAYOUT_SHADER_READ_ONLY_OPTIMAL,
            ),
            vk::DESCRIPTOR_TYPE_STORAGE_IMAGE => Some(vk::IMAGE_LAYOUT_GENERAL),
            _ => None,
        }
    }

    /// The binding of a layout in which descriptors lie.
    pub fn validate_binding(
        layout: &DescriptorSetLayoutInfo,
        binding: DescriptorSetBinding,
        descriptor_count: u32,
    ) -> (info: Result<DescriptorSetLayoutBindingInfo, DriverError>)
        requires
            ascending(layout.bindings@),
        ensures
            info == (if in_binding(layout.bindings@, binding, descriptor_count) {
                Ok::<DescriptorSetLayoutBindingInfo, DriverError>(
                    DescriptorSetLayoutInfo::lookup(layout.bindings@, binding.binding)->0,
                )
            } else {
                Err(DriverError::InvalidData)
            }),
    {
        let info = match layout.binding(binding.binding) {
            None => {
                return Err(DriverError::InvalidData);
            },
            Some(info) => info,
        };
        let end: u32 = match binding.array_element.checked_add(descriptor_count) {
            None => {
                return Err(DriverError::InvalidData);
            },
            Some(end) => end,
        };
        if descriptor_count == 0 || end > info.descriptor_count {
            return Err(DriverError::InvalidData);
        }
        Ok(info)
    }

    /// What a buffer descriptor of a type has to obey, where the type is one of a buffer.
    fn buffer_rules(limits: &DescriptorLimits, descriptor_type: i32) -> (rules: Option<
        (u32, u64, u64),
    >)
        ensures
            rules == buffer_rules(*limits, descriptor_type),
    {
        match descriptor_type {
            vk::DESCRIPTOR_TYPE_STORAGE_BUFFER => Some(
                (
                    vk::BUFFER_USAGE_STORAGE_BUFFER,
                    limits.min_storage_buffer_offset_alignment,
                    limits.max_storage_buffer_range as u64,
                ),
            ),
            vk::DESCRIPTOR_TYPE_UNIFORM_BUFFER => Some(
                (
                    vk::BUFFER_USAGE_UNIFORM_BUFFER,
                    limits.min_uniform_buffer_offset_alignment,
                    limits.max_uniform_buffer_range as u64,
                ),
            ),
            _ => None,
        }
    }

    /// Whether a range of a buffer can be described.
    fn validate_buffer(
        limits: &DescriptorLimits,
        descriptor_type: i32,
        info: BufferInfo,
        range: BufferSubresourceRange,
    ) -> (valid: bool)
        ensures
            valid == buffer_range_valid(*limits, descriptor_type, info, range),
    {
        let (required_usage, required_alignment, max_range) = match Self::buffer_rules(
            limits,
            descriptor_type,
        ) {
            None => {
                return false;
            },
            Some(rules) => rules,
        };
        let range_size: u64 = if range.end == vk::WHOLE_SIZE {
            info.size.saturating_sub(range.start)
        } else {
            range.end.saturating_sub(range.start)
        };
        !(info.usage & required_usage != required_usage || range.start >= info.size || range.end
            != vk::WHOLE_SIZE && (range.end <= range.start || range.end > info.size)
            || required_alignment > 1 && range.start % required_alignment != 0 || range_size == 0
            || range_size > max_range)
    }

    /// Whether a view of an image can be described.
    fn validate_image(descriptor_type: i32, info: ImageInfo, view: ImageViewInfo) -> (valid: bool)
        ensures
            valid == image_view_valid(descriptor_type, info, view),
    {
        let required_usage: u32 = match descriptor_type {
            vk::DESCRIPTOR_TYPE_COMBINED_IMAGE_SAMPLER | vk::DESCRIPTOR_TYPE_SAMPLED_IMAGE => {
                vk::IMAGE_USAGE_SAMPLED
            },
            vk::DESCRIPTOR_TYPE_STORAGE_IMAGE => vk::IMAGE_USAGE_STORAGE,
            _ => {
                return false;
            },
        };
        let image_aspects: u32 = format_aspect_mask(info.format);
        let mip_level_count: u32 = if view.mip_level_count == vk::REMAINING_MIP_LEVELS {
            info.mip_level_count.saturating_sub(view.base_mip_level)
        } else {
            view.mip_level_count
        };
        let array_layer_count: u32 = if view.array_layer_count == vk::REMAINING_ARRAY_LAYERS {
            info.array_layer_count.saturating_sub(view.base_array_layer)
        } else {
            view.array_layer_count
        };
        !(info.usage & required_usage != required_usage || view.format == vk::FORMAT_UNDEFINED
            || aspect_count(view.aspect_mask) != 1 || image_aspects & view.aspect_mask
            != view.aspect_mask || view.base_mip_level >= info.mip_level_count || mip_level_count
            == 0 || mip_level_count > info.mip_level_count - view.base_mip_level
            || view.base_array_layer >= info.array_layer_count || array_layer_count == 0
            || array_layer_count > info.array_layer_count - view.base_array_layer || view.format
            != info.format && info.flags & vk::IMAGE_CREATE_MUTABLE_FORMAT
            != vk::IMAGE_CREATE_MUTABLE_FORMAT)
    }

    /// Checks an update of a set of a device with a layout.
    pub fn validate_update(
        device: u64,
        layout: &DescriptorSetLayout,
        limits: &DescriptorLimits,
        update: &DescriptorSetUpdateInfo<'_>,
    ) -> (valid: Result<(), DriverError>)
        requires
            update_wf(*layout, *update),
        ensures
            valid == (if update_valid(device, *layout, *limits, *update) {
                Ok::<(), DriverError>(())
            } else {
                Err(DriverError::InvalidData)
            }),
    {
        let target = match Self::validate_binding(&layout.info, update.destination, 1) {
            Ok(target) => target,
            Err(err) => {
                return Err(err);
            },
        };
        let valid: bool = match &update.update {
            DescriptorSetUpdate::AccelerationStructure { device: owner, handle: _, info } => {
                target.descriptor_type == vk::DESCRIPTOR_TYPE_ACCELERATION_STRUCTURE_KHR && *owner
                    == device && (info.acceleration_structure_type
                    == vk::ACCELERATION_STRUCTURE_TYPE_GENERIC || info.acceleration_structure_type
                    == vk::ACCELERATION_STRUCTURE_TYPE_TOP_LEVEL)
            },
            DescriptorSetUpdate::Buffer { device: owner, handle: _, info, range } => {
                *owner == device && Self::validate_buffer(
                    limits,
                    target.descriptor_type,
                    *info,
                    *range,
                )
            },
            DescriptorSetUpdate::Copy { descriptor_count, source, source_binding } => {
                match (
                    Self::validate_binding(&layout.info, update.destination, *descriptor_count),
                    Self::validate_binding(
                        &source.layout.info,
                        *source_binding,
                        *descriptor_count,
                    ),
                ) {
                    (Ok(destination_info), Ok(source_info)) => source.device() == device
                        && source_info.descriptor_type == destination_info.descriptor_type && !(
                    destination_info.descriptor_type == vk::DESCRIPTOR_TYPE_SAMPLER
                        && destination_info.immutable_sampler.is_some()),
                    _ => false,
                }
            },
            DescriptorSetUpdate::Image { device: owner, info, view } => {
                *owner == device && Self::validate_image(
                    target.descriptor_type,
                    *info,
                    *view,
                )
            },
        };
        if valid {
            Ok(())
        } else {
            Err(DriverError::InvalidData)
        }
    }
}

/// What a valid update becomes, given the view that was made for it where it writes an image.
pub open spec fn write_of(
    layout: DescriptorSetLayout,
    update: DescriptorSetUpdateInfo,
    image_view: u64,
) -> Option<DescriptorWrite> {
    let descriptor_type = DescriptorSetLayoutInfo::lookup(
        layout.info.bindings@,
        update.destination.binding,
    )->0.descriptor_type;
    let content = match update.update {
        DescriptorSetUpdate::AccelerationStructure { handle, .. } => Some(
            DescriptorContent::AccelerationStructure(handle),
        ),
        DescriptorSetUpdate::Buffer { handle, range, .. } => Some(
            DescriptorContent::Buffer {
                handle,
                offset: range.start,
                range: if range.end == vk::WHOLE_SIZE {
                    vk::WHOLE_SIZE
                } else {
                    (range.end - range.start) as u64
                },
            },
        ),
        DescriptorSetUpdate::Copy { .. } => None,
        DescriptorSetUpdate::Image { .. } => Some(
            DescriptorContent::Image {
                image_layout: image_layout_of(descriptor_type)->0,
                image_view,
            },
        ),
    };
    match content {
        Some(content) => Some(
            DescriptorWrite { destination: update.destination, descriptor_type, content },
        ),
        None => None,
    }
}

/// What an update becomes where it copies.
pub open spec fn copy_of(update: DescriptorSetUpdateInfo) -> Option<DescriptorCopy> {
    match update.update {
        DescriptorSetUpdate::Copy { descriptor_count, source, source_binding } => Some(
            DescriptorCopy {
                descriptor_count,
                destination: update.destination,
                source: source.handle,
                source_binding,
            },
        ),
        _ => None,
    }
}

/// The updates that a new set starts with. All writes are applied before the copies, whatever order
/// they were given in.
#[derive(Debug)]
pub struct DescriptorSetUpdates {
    /// The writes, in the order in which they were given.
    pub writes: Vec<DescriptorWrite>,
    /// The copies, in the order in which they were given.
    pub copies: Vec<DescriptorCopy>,
}

/// The writes among the first of some updates.
pub open spec fn all_writes(
    layout: DescriptorSetLayout,
    updates: Seq<DescriptorSetUpdateInfo>,
    image_views: Seq<u64>,
) -> Seq<DescriptorWrite>
    decreases updates.len(),
{
    if updates.len() == 0 {
        seq![]
    } else {
        let before = all_writes(layout, updates.drop_last(), image_views);
        match write_of(layout, updates.last(), image_views[updates.len() - 1]) {
            Some(write) => before.push(write),
            None => before,
        }
    }
}

/// The copies among some updates.
pub open spec fn all_copies(updates: Seq<DescriptorSetUpdateInfo>) -> Seq<DescriptorCopy>
    decreases updates.len(),
{
    if updates.len() == 0 {
        seq![]
    } else {
        let before = all_copies(updates.drop_last());
        match copy_of(updates.last()) {
            Some(copy) => before.push(copy),
            None => before,
        }
    }
}

/// Why updates cannot be applied to a set of a device, given what making the view of each of them
/// that writes an image gave: the first update that is not valid, or whose view was not made,
/// decides.
pub open spec fn updates_error(
    device: u64,
    layout: DescriptorSetLayout,
    limits: DescriptorLimits,
    updates: Seq<DescriptorSetUpdateInfo>,
    image_views: Seq<Result<u64, DriverError>>,
) -> Option<DriverError>
    decreases updates.len(),
{
    if updates.len() == 0 {
        None
    } else {
        match updates_error(device, layout, limits, updates.drop_last(), image_views) {
            Some(err) => Some(err),
            None => if !update_valid(device, layout, limits, updates.last()) {
                Some(DriverError::InvalidData)
            } else if updates.last().update is Image {
                match image_views[updates.len() - 1] {
                    Ok(_) => None,
                    Err(err) => Some(err),
                }
            } else {
                None
            },
        }
    }
}

/// The views in a list of outcomes.
pub open spec fn made_views(image_views: Seq<Result<u64, DriverError>>) -> Seq<u64> {
    image_views.map_values(
        |view: Result<u64, DriverError>|
            match view {
                Ok(handle) => handle,
                Err(_) => 0,
            },
    )
}

impl DescriptorSetUpdates {
    /// Starts without updates.
    pub fn new() -> (updates: Self)
        ensures
            updates.writes@ == Seq::<DescriptorWrite>::empty(),
            updates.copies@ == Seq::<DescriptorCopy>::empty(),
    {
        DescriptorSetUpdates { writes: Vec::new(), copies: Vec::new() }
    }

    /// Adds a valid update, given the view that was made for it where it writes an image.
    pub fn push(
        &mut self,
        layout: &DescriptorSetLayout,
        limits: &DescriptorLimits,
        update: &DescriptorSetUpdateInfo<'_>,
        image_view: u64,
    )
        requires
            update_wf(*layout, *update),
            update_fits(*layout, *limits, *update),
        ensures
            final(self).writes@ == (match write_of(*layout, *update, image_view) {
                Some(write) => old(self).writes@.push(write),
                None => old(self).writes@,
            }),
            final(self).copies@ == (match copy_of(*update) {
                Some(copy) => old(self).copies@.push(copy),
                None => old(self).copies@,
            }),
    {
        let descriptor_type: i32 = match layout.info.binding(update.destination.binding) {
            Some(info) => info.descriptor_type,
            None => 0,
        };
        let destination = update.destination;
        match &update.update {
            DescriptorSetUpdate::AccelerationStructure { device: _, handle, info: _ } => {
                self.writes.push(
                    DescriptorWrite {
                        destination,
                        descriptor_type,
                        content: DescriptorContent::AccelerationStructure(*handle),
                    },
                );
            },
            DescriptorSetUpdate::Buffer { device: _, handle, info: _, range } => {
                let size: u64 = if range.end == vk::WHOLE_SIZE {
                    vk::WHOLE_SIZE
                } else {
                    range.end - range.start
                };
                self.writes.push(
                    DescriptorWrite {
                        destination,
                        descriptor_type,
                        content: DescriptorContent::Buffer {
                            handle: *handle,
                            offset: range.start,
                            range: size,
                        },
                    },
                );
            },
            DescriptorSetUpdate::Copy { descriptor_count, source, source_binding } => {
                self.copies.push(
                    DescriptorCopy {
                        descriptor_count: *descriptor_count,
                        destination,
                        source: source.handle,
                        source_binding: *source_binding,
                    },
                );
            },
            DescriptorSetUpdate::Image { device: _, info: _, view: _ } => {
                if let Some(image_layout) = DescriptorSet::image_layout(descriptor_type) {
                    self.writes.push(
                        DescriptorWrite {
                            destination,
                            descriptor_type,
                            content: DescriptorContent::Image { image_layout, image_view },
                        },
                    );
                }
            },
        }
    }

    /// Prepares the updates that a new set starts with, given what making the view of each of them
    /// that writes an image gave.
    pub fn prepare(
        device: u64,
        layout: &DescriptorSetLayout,
        limits: &DescriptorLimits,
        updates: &Vec<DescriptorSetUpdateInfo<'_>>,
        image_views: &Vec<Result<u64, DriverError>>,
    ) -> (prepared: Result<Self, DriverError>)
        requires
            forall|i: int| 0 <= i < updates@.len() ==> update_wf(*layout, #[trigger] updates@[i]),
            image_views@.len() == updates@.len(),
        ensures
            match prepared {
                Ok(prepared) => {
                    &&& updates_error(device, *layout, *limits, updates@, image_views@) is None
                    &&& prepared.writes@ == all_writes(*layout, updates@, made_views(image_views@))
                    &&& prepared.copies@ == all_copies(updates@)
                },
                Err(err) => updates_error(device, *layout, *limits, updates@, image_views@) == Some(
                    err,
                ),
            },
    {
        let mut prepared = DescriptorSetUpdates::new();
        let mut index: usize = 0;
        assert(updates@.take(0) =~= seq![]);
        while index < updates.len()
            invariant
                index <= updates@.len() == image_views@.len(),
                forall|i: int|
                    0 <= i < updates@.len() ==> update_wf(*layout, #[trigger] updates@[i]),
                updates_error(
                    device,
                    *layout,
                    *limits,
                    updates@.take(index as int),
                    image_views@,
                ) is None,
                prepared.writes@ == all_writes(
                    *layout,
                    updates@.take(index as int),
                    made_views(image_views@),
                ),
                prepared.copies@ == all_copies(updates@.take(index as int)),
            decreases updates@.len() - index,
        {
            let update = &updates[index];
            proof {
                let now = updates@.take(index + 1);
                assert(now.drop_last() =~= updates@.take(index as int));
                assert(now.last() == updates@[index as int]);
                assert(update_wf(*layout, updates@[index as int]));
                if updates_error(device, *layout, *limits, now, image_views@) is Some {
                    lemma_first_error(device, *layout, *limits, updates@, image_views@, index + 1);
                }
            }
            if let Err(err) = DescriptorSet::validate_update(device, layout, limits, update) {
                return Err(err);
            }
            let mut image_view: u64 = 0;
            match &image_views[index] {
                Ok(handle) => {
                    image_view = *handle;
                },
                Err(err) => {
                    if let DescriptorSetUpdate::Image { device: _, info: _, view: _ } =
                        &update.update {
                        return Err(*err);
                    }
                },
            }
            prepared.push(layout, limits, update, image_view);
            index += 1;
        }
        assert(updates@.take(index as int) =~= updates@);
        Ok(prepared)
    }
}

/// Why a set of a device cannot be allocated and updated, given the layout that it is allocated
/// with: an update decides before the pool does.
pub open spec fn set_error(
    device: u64,
    layout: DescriptorSetLayout,
    limits: DescriptorLimits,
    updates: Seq<DescriptorSetUpdateInfo>,
    image_views: Seq<Result<u64, DriverError>>,
) -> Option<DriverError> {
    if !allocatable(layout.info.bindings@) {
        Some(DriverError::Unsupported)
    } else {
        match updates_error(device, layout, limits, updates, image_views) {
            Some(err) => Some(err),
            None => pool_error(layout.info.bindings@),
        }
    }
}

impl DescriptorSet {
    /// What a set of a pipeline is allocated from and filled with, given what making the view of
    /// each update that writes an image gave.
    pub fn plan<P: DescriptorSetPipeline>(
        pipeline: &P,
        info: DescriptorSetInfo,
        limits: &DescriptorLimits,
        updates: &Vec<DescriptorSetUpdateInfo<'_>>,
        image_views: &Vec<Result<u64, DriverError>>,
    ) -> (plan: Result<(DescriptorPoolInfo, DescriptorSetUpdates), DriverError>)
        requires
            pipeline.descriptors().wf(),
            forall|i: int|
                0 <= i < updates@.len() && pipeline.descriptors().has(info.set) ==> update_wf(
                    pipeline.descriptors().at(info.set),
                    #[trigger] updates@[i],
                ),
            image_views@.len() == updates@.len(),
        ensures
            !pipeline.descriptors().has(info.set) ==> plan == Err::<
                (DescriptorPoolInfo, DescriptorSetUpdates),
                DriverError,
            >(DriverError::InvalidData),
            pipeline.descriptors().has(info.set) ==> {
                let device = pipeline.device_id();
                let layout = pipeline.descriptors().at(info.set);
                match plan {
                    Ok((pool, filled)) => {
                        &&& set_error(device, layout, *limits, updates@, image_views@) is None
                        &&& pool.max_sets == 1
                        &&& forall|ty: i32|
                            pooled(ty) ==> #[trigger] pool.count(ty) == type_total(
                                layout.info.bindings@,
                                ty,
                            )
                        &&& filled.writes@ == all_writes(layout, updates@, made_views(image_views@))
                        &&& filled.copies@ == all_copies(updates@)
                    },
                    Err(err) => set_error(device, layout, *limits, updates@, image_views@) == Some(
                        err,
                    ),
                }
            },
    {
        let layout = match Self::pipeline_layout(pipeline, info) {
            Ok(layout) => layout,
            Err(err) => {
                return Err(err);
            },
        };
        let filled = match DescriptorSetUpdates::prepare(
            pipeline.device(),
            layout,
            limits,
            updates,
            image_views,
        ) {
            Ok(filled) => filled,
            Err(err) => {
                return Err(err);
            },
        };
        match DescriptorPoolInfo::for_layout(&layout.info) {
            Ok(pool) => Ok((pool, filled)),
            Err(err) => Err(err),
        }
    }
}

/// The first error among updates decides.
proof fn lemma_first_error(
    device: u64,
    layout: DescriptorSetLayout,
    limits: DescriptorLimits,
    updates: Seq<DescriptorSetUpdateInfo>,
    image_views: Seq<Result<u64, DriverError>>,
    len: int,
)
    requires
        0 <= len <= updates.len(),
        updates_error(device, layout, limits, updates.take(len), image_views) is Some,
    ensures
        updates_error(device, layout, limits, updates, image_views) == updates_error(
            device,
            layout,
            limits,
            updates.take(len),
            image_views,
        ),
    decreases updates.len(),
{
    if len < updates.len() {
        assert(updates.drop_last().take(len) =~= updates.take(len));
        lemma_first_error(device, layout, limits, updates.drop_last(), image_views, len);
    } else {
        assert(updates.take(len) =~= updates);
    }
}

/// A layout whose sets can be allocated by themselves has a pool, unless it has descriptors of a
/// type that no pool holds, or more of one type than can be counted.
pub proof fn pool_fits_layout(bindings: Seq<DescriptorSetLayoutBindingInfo>)
    requires
        forall|i: int|
            0 <= i < bindings.len() ==> pooled((#[trigger] bindings[i]).descriptor_type),
        forall|ty: i32| #[trigger] type_total(bindings, ty) <= u32::MAX,
    ensures
        pool_error(bindings) is None,
    decreases bindings.len(),
{
    if bindings.len() > 0 {
        let some = bindings.drop_last();
        assert(pooled(bindings[bindings.len() - 1].descriptor_type));
        assert forall|i: int| 0 <= i < some.len() implies pooled(
            (#[trigger] some[i]).descriptor_type,
        ) by {
            assert(some[i] == bindings[i]);
        }
        assert forall|ty: i32| #[trigger] type_total(some, ty) <= u32::MAX by {
            assert(type_total(bindings, ty) <= u32::MAX);
        }
        pool_fits_layout(some);
    }
}

/// An update of one descriptor with a range of a buffer.
pub open spec fn buffer_update<'a>(
    destination: DescriptorSetBinding,
    device: u64,
    handle: u64,
    info: BufferInfo,
    range: BufferSubresourceRange,
) -> DescriptorSetUpdateInfo<'a> {
    DescriptorSetUpdateInfo {
        destination,
        update: DescriptorSetUpdate::Buffer { device, handle, info, range },
    }
}

/// A uniform buffer descriptor of a set takes a whole buffer exactly where the buffer is of the same
/// device, can be used as a uniform buffer, is not empty, and is not larger than uniform buffer
/// descriptors can be. A storage buffer descriptor does so with the usage and the size of those.
pub proof fn whole_buffers_fit_by_usage_and_size(
    device: u64,
    layout: DescriptorSetLayout,
    limits: DescriptorLimits,
    destination: DescriptorSetBinding,
    owner: u64,
    handle: u64,
    info: BufferInfo,
)
    requires
        in_binding(layout.info.bindings@, destination, 1),
        info.size != 0xffff_ffff_ffff_ffff,
    ensures
        ({
            let ty = DescriptorSetLayoutInfo::lookup(
                layout.info.bindings@,
                destination.binding,
            )->0.descriptor_type;
            let whole = BufferSubresourceRange { start: 0, end: info.size };
            let valid = update_valid(
                device,
                layout,
                limits,
                buffer_update(destination, owner, handle, info, whole),
            );
            &&& ty == vk::DESCRIPTOR_TYPE_UNIFORM_BUFFER ==> (valid <==> owner == device
                && info.usage & vk::BUFFER_USAGE_UNIFORM_BUFFER != 0 && 1 <= info.size
                <= limits.max_uniform_buffer_range)
            &&& ty == vk::DESCRIPTOR_TYPE_STORAGE_BUFFER ==> (valid <==> owner == device
                && info.usage & vk::BUFFER_USAGE_STORAGE_BUFFER != 0 && 1 <= info.size
                <= limits.max_storage_buffer_range)
            &&& ty != vk::DESCRIPTOR_TYPE_UNIFORM_BUFFER && ty
                != vk::DESCRIPTOR_TYPE_STORAGE_BUFFER ==> !valid
        }),
{
    let usage = info.usage;
    assert((usage & 0x10 != 0) == (usage & 0x10 == 0x10) && (usage & 0x20 != 0) == (usage & 0x20
        == 0x20)) by (bit_vector);
}

/// A uniform or storage buffer descriptor of a set takes a range of a buffer exactly where it could
/// take a buffer of that size, the range lies in the buffer, and it starts at a multiple of the
/// alignment that the device asks for.
pub proof fn buffer_ranges_fit_by_alignment(
    device: u64,
    layout: DescriptorSetLayout,
    limits: DescriptorLimits,
    destination: DescriptorSetBinding,
    owner: u64,
    handle: u64,
    info: BufferInfo,
    range: BufferSubresourceRange,
)
    requires
        range.end != 0xffff_ffff_ffff_ffff,
    ensures
        ({
            let ty = DescriptorSetLayoutInfo::lookup(
                layout.info.bindings@,
                destination.binding,
            )->0.descriptor_type;
            let alignment = if ty == vk::DESCRIPTOR_TYPE_UNIFORM_BUFFER {
                limits.min_uniform_buffer_offset_alignment
            } else {
                limits.min_storage_buffer_offset_alignment
            };
            let size = (range.end - range.start) as u64;
            update_valid(
                device,
                layout,
                limits,
                buffer_update(destination, owner, handle, info, range),
            ) <==> {
                &&& range.start < range.end <= info.size
                &&& alignment == 0 || range.start % alignment == 0
                &&& update_valid(
                    device,
                    layout,
                    limits,
                    buffer_update(
                        destination,
                        owner,
                        handle,
                        BufferInfo { size, ..info },
                        BufferSubresourceRange { start: 0, end: size },
                    ),
                )
            }
        }),
{
}

/// A range that stands for all of a buffer from an offset on is as valid as the range that ends where
/// the buffer does.
pub proof fn open_ranges_end_with_the_buffer(
    limits: DescriptorLimits,
    descriptor_type: i32,
    info: BufferInfo,
    start: u64,
)
    requires
        info.size != 0xffff_ffff_ffff_ffff,
    ensures
        buffer_range_valid(
            limits,
            descriptor_type,
            info,
            BufferSubresourceRange { start, end: 0xffff_ffff_ffff_ffff },
        ) == buffer_range_valid(
            limits,
            descriptor_type,
            info,
            BufferSubresourceRange { start, end: info.size },
        ),
{
}

/// Storage image descriptors use images with storage usage, in the general layout. Sampled image
/// descriptors, with or without a sampler, use images with sampled usage, in the layout for shader
/// reads. No other descriptor uses an image.
pub proof fn image_descriptors_follow_usage(
    descriptor_type: i32,
    info: ImageInfo,
    view: ImageViewInfo,
)
    ensures
        image_view_valid(descriptor_type, info, view) ==> {
            if descriptor_type == vk::DESCRIPTOR_TYPE_STORAGE_IMAGE {
                &&& info.usage & vk::IMAGE_USAGE_STORAGE != 0
                &&& image_layout_of(descriptor_type) == Some(vk::IMAGE_LAYOUT_GENERAL)
            } else {
                &&& descriptor_type == vk::DESCRIPTOR_TYPE_SAMPLED_IMAGE || descriptor_type
                    == vk::DESCRIPTOR_TYPE_COMBINED_IMAGE_SAMPLER
                &&& info.usage & vk::IMAGE_USAGE_SAMPLED != 0
                &&& image_layout_of(descriptor_type) == Some(
                    vk::IMAGE_LAYOUT_SHADER_READ_ONLY_OPTIMAL,
                )
            }
        },
{
    let usage = info.usage;
    assert((usage & 0x4 == 0x4 ==> usage & 0x4 != 0) && (usage & 0x8 == 0x8 ==> usage & 0x8 != 0))
        by (bit_vector);
}

/// The default view of an image can be described exactly where the image has the usage that the
/// descriptor needs, a format, a single aspect, and some layers and levels.
pub proof fn default_views_can_be_described(descriptor_type: i32, info: ImageInfo)
    requires
        info.array_layer_count != 0xffff_ffff,
        info.mip_level_count != 0xffff_ffff,
    ensures
        image_view_valid(descriptor_type, info, info.whole_view()) <==> {
            &&& descriptor_type == vk::DESCRIPTOR_TYPE_STORAGE_IMAGE && info.usage
                & vk::IMAGE_USAGE_STORAGE != 0 || (descriptor_type
                == vk::DESCRIPTOR_TYPE_SAMPLED_IMAGE || descriptor_type
                == vk::DESCRIPTOR_TYPE_COMBINED_IMAGE_SAMPLER) && info.usage
                & vk::IMAGE_USAGE_SAMPLED != 0
            &&& info.format != 0
            &&& !depth_and_stencil(info.format)
            &&& info.array_layer_count > 0
            &&& info.mip_level_count > 0
        },
{
    let usage = info.usage;
    let aspects = aspects_of_format(info.format);
    assert((usage & 0x4 == 0x4) == (usage & 0x4 != 0) && (usage & 0x8 == 0x8) == (usage & 0x8 != 0))
        by (bit_vector);
    assert(aspects & aspects == aspects) by (bit_vector);
    assert(2u32 | 4u32 == 6u32) by (bit_vector);
    lemma_supported_aspects(aspects);
}

/// A view of an image shows layers and levels that the image has, one aspect of it, and its format
/// unless the image can be viewed in others.
pub proof fn described_views_lie_in_their_image(
    descriptor_type: i32,
    info: ImageInfo,
    view: ImageViewInfo,
)
    requires
        image_view_valid(descriptor_type, info, view),
    ensures
        view.base_array_layer < info.array_layer_count,
        view.base_mip_level < info.mip_level_count,
        view.array_layer_count != 0xffff_ffff ==> 0 < view.array_layer_count
            <= info.array_layer_count - view.base_array_layer,
        view.mip_level_count != 0xffff_ffff ==> 0 < view.mip_level_count <= info.mip_level_count
            - view.base_mip_level,
        info.flags & vk::IMAGE_CREATE_MUTABLE_FORMAT == 0 ==> view.format == info.format,
        aspects_of_format(info.format) & view.aspect_mask == view.aspect_mask,
        count_bits(view.aspect_mask, 0) == 1,
{
    let flags = info.flags;
    assert(flags & 0x8 == 0x8 ==> flags & 0x8 != 0) by (bit_vector);
}

/// A set by itself can have descriptors of exactly those types in a pool that an update can describe,
/// and samplers. The others need a render pass, a view of a buffer, or an offset.
pub proof fn restricted_types_have_no_update(descriptor_type: i32, limits: DescriptorLimits)
    requires
        pooled(descriptor_type),
    ensures
        restricted(descriptor_type) <==> {
            &&& descriptor_type != vk::DESCRIPTOR_TYPE_SAMPLER
            &&& descriptor_type != vk::DESCRIPTOR_TYPE_ACCELERATION_STRUCTURE_KHR
            &&& image_layout_of(descriptor_type) is None
            &&& buffer_rules(limits, descriptor_type) is None
        },
{
}

/// The types that a pool holds are those from 0 to 10, and acceleration structures.
pub proof fn pooled_types_are_the_first_ones(descriptor_type: i32)
    ensures
        pooled(descriptor_type) <==> 0 <= descriptor_type <= 10 || descriptor_type
            == vk::DESCRIPTOR_TYPE_ACCELERATION_STRUCTURE_KHR,
{
}

proof fn lemma_nonzero_contains(sizes: Seq<DescriptorPoolSize>, size: DescriptorPoolSize)
    ensures
        nonzero(sizes).contains(size) <==> sizes.contains(size) && size.descriptor_count > 0,
    decreases sizes.len(),
{
    if sizes.len() > 0 {
        let some = sizes.drop_last();
        let last = sizes.last();
        lemma_nonzero_contains(some, size);
        assert(sizes.contains(size) <==> some.contains(size) || size == last) by {
            if sizes.contains(size) {
                let i = choose|i: int| 0 <= i < sizes.len() && sizes[i] == size;
                if i < some.len() {
                    assert(some[i] == size);
                }
            }
            if some.contains(size) {
                let i = choose|i: int| 0 <= i < some.len() && some[i] == size;
                assert(sizes[i] == size);
            }
            assert(sizes[sizes.len() - 1] == last);
        }
        let before = nonzero(some);
        assert(before.push(last).contains(size) <==> before.contains(size) || size == last) by {
            if before.push(last).contains(size) {
                let i = choose|i: int| 0 <= i < before.len() + 1 && before.push(last)[i] == size;
                if i < before.len() {
                    assert(before[i] == size);
                }
            }
            if before.contains(size) {
                let i = choose|i: int| 0 <= i < before.len() && before[i] == size;
                assert(before.push(last)[i] == size);
            }
            assert(before.push(last)[before.len() as int] == last);
        }
    }
}

/// A pool is created with a size for each type that it holds some descriptors of, and that size is
/// the number of them; and with no other sizes.
pub proof fn pools_hold_what_they_count(info: DescriptorPoolInfo, ty: i32, count: u32)
    ensures
        nonzero(info.all_sizes()).contains(DescriptorPoolSize { ty, descriptor_count: count })
            <==> pooled(ty) && count > 0 && info.count(ty) == count,
{
    let all = info.all_sizes();
    let size = DescriptorPoolSize { ty, descriptor_count: count };
    lemma_nonzero_contains(all, size);
    if pooled(ty) && info.count(ty) == count {
        assert(exists|i: int| 0 <= i < 12 && #[trigger] all[i] == size) by {
            assert(all[0] == size || all[1] == size || all[2] == size || all[3] == size || all[4]
                == size || all[5] == size || all[6] == size || all[7] == size || all[8] == size
                || all[9] == size || all[10] == size || all[11] == size);
        }
    }
}

/// The numbers of descriptors of the types that are numbered from 0 to 10 stand in the fields of
/// their names.
pub proof fn pool_counts_are_named(info: DescriptorPoolInfo)
    ensures
        Seq::new(11, |ty: int| info.count(ty as i32)) == seq![
            info.sampler_count,
            info.combined_image_sampler_count,
            info.sampled_image_count,
            info.storage_image_count,
            info.uniform_texel_buffer_count,
            info.storage_texel_buffer_count,
            info.uniform_buffer_count,
            info.storage_buffer_count,
            info.uniform_buffer_dynamic_count,
            info.storage_buffer_dynamic_count,
            info.input_attachment_count,
        ],
{
}

/// A write writes to the descriptor that the update names, with the type that its binding has, the
/// handle that the update gives, and, for a buffer, the bytes from the start to the end of the range.
pub proof fn writes_say_what_updates_say(
    device: u64,
    layout: DescriptorSetLayout,
    limits: DescriptorLimits,
    update: DescriptorSetUpdateInfo,
    image_view: u64,
)
    requires
        update_valid(device, layout, limits, update),
    ensures
        write_of(layout, update, image_view) is None <==> update.update is Copy,
        copy_of(update) is Some <==> update.update is Copy,
        write_of(layout, update, image_view) matches Some(write) ==> {
            &&& write.destination == update.destination
            &&& write.descriptor_type == DescriptorSetLayoutInfo::lookup(
                layout.info.bindings@,
                update.destination.binding,
            )->0.descriptor_type
            &&& match (update.update, write.content) {
                (
                    DescriptorSetUpdate::AccelerationStructure { handle, .. },
                    DescriptorContent::AccelerationStructure(written),
                ) => written == handle && write.descriptor_type
                    == vk::DESCRIPTOR_TYPE_ACCELERATION_STRUCTURE_KHR,
                (
                    DescriptorSetUpdate::Buffer { handle, info, range, .. },
                    DescriptorContent::Buffer { handle: written, offset, range: size },
                ) => {
                    &&& written == handle
                    &&& offset == range.start
                    &&& size == vk::WHOLE_SIZE || offset + size == range.end <= info.size
                    &&& size == vk::WHOLE_SIZE ==> range.end == vk::WHOLE_SIZE
                },
                (
                    DescriptorSetUpdate::Image { .. },
                    DescriptorContent::Image { image_layout, image_view: written },
                ) => written == image_view && (image_layout == vk::IMAGE_LAYOUT_GENERAL
                    <==> write.descriptor_type == vk::DESCRIPTOR_TYPE_STORAGE_IMAGE) && (
                image_layout == vk::IMAGE_LAYOUT_SHADER_READ_ONLY_OPTIMAL <==> write.descriptor_type
                    != vk::DESCRIPTOR_TYPE_STORAGE_IMAGE),
                _ => false,
            }
        },
        (update.update, copy_of(update)) matches (
            DescriptorSetUpdate::Copy { descriptor_count, source, source_binding },
            Some(copy),
        ) ==> {
            &&& copy.descriptor_count == descriptor_count > 0
            &&& copy.destination == update.destination
            &&& copy.source == source.handle
            &&& copy.source_binding == source_binding
        },
{
}

/// Each update becomes either a write or a copy, and none becomes both.
pub proof fn updates_become_writes_or_copies(
    layout: DescriptorSetLayout,
    updates: Seq<DescriptorSetUpdateInfo>,
    image_views: Seq<u64>,
    index: int,
)
    requires
        0 <= index < updates.len(),
    ensures
        all_writes(layout, updates, image_views).len() + all_copies(updates).len() == updates.len(),
        write_of(layout, updates[index], image_views[index]) matches Some(write) ==> all_writes(
            layout,
            updates,
            image_views,
        ).contains(write),
        copy_of(updates[index]) matches Some(copy) ==> all_copies(updates).contains(copy),
    decreases updates.len(),
{
    let some = updates.drop_last();
    let last = updates.len() - 1;
    let writes = all_writes(layout, some, image_views);
    let copies = all_copies(some);
    let all = all_writes(layout, updates, image_views);
    let every = all_copies(updates);
    if index < last {
        updates_become_writes_or_copies(layout, some, image_views, index);
        assert(some[index] == updates[index]);
        if let Some(write) = write_of(layout, updates[index], image_views[index]) {
            let i = choose|i: int| 0 <= i < writes.len() && writes[i] == write;
            assert(all[i] == write);
        }
        if let Some(copy) = copy_of(updates[index]) {
            let i = choose|i: int| 0 <= i < copies.len() && copies[i] == copy;
            assert(every[i] == copy);
        }
    } else {
        if last > 0 {
            updates_become_writes_or_copies(layout, some, image_views, 0);
        }
        if let Some(write) = write_of(layout, updates[index], image_views[index]) {
            assert(all[all.len() - 1] == write);
        }
        if let Some(copy) = copy_of(updates[index]) {
            assert(every[every.len() - 1] == copy);
        }
    }
}

/// Updates can be applied exactly where each of them is valid, and the view of each that writes an
/// image was made.
pub proof fn updates_apply_where_all_are_valid(
    device: u64,
    layout: DescriptorSetLayout,
    limits: DescriptorLimits,
    updates: Seq<DescriptorSetUpdateInfo>,
    image_views: Seq<Result<u64, DriverError>>,
)
    ensures
        updates_error(device, layout, limits, updates, image_views) is None <==> forall|i: int|
            0 <= i < updates.len() ==> update_valid(
                device,
                layout,
                limits,
                #[trigger] updates[i],
            ) && (updates[i].update is Image ==> image_views[i] is Ok),
    decreases updates.len(),
{
    if updates.len() > 0 {
        let some = updates.drop_last();
        let last = updates.len() - 1;
        updates_apply_where_all_are_valid(device, layout, limits, some, image_views);
        assert forall|i: int| 0 <= i < some.len() implies #[trigger] some[i] == updates[i] by {}
        if updates_error(device, layout, limits, updates, image_views) is None {
            assert forall|i: int| 0 <= i < updates.len() implies update_valid(
                device,
                layout,
                limits,
                #[trigger] updates[i],
            ) && (updates[i].update is Image ==> image_views[i] is Ok) by {
                if i < last {
                    assert(some[i] == updates[i]);
                }
            }
        } else {
            assert(updates[last] == updates.last());
            if updates_error(device, layout, limits, some, image_views) is Some {
                let i = choose|i: int|
                    0 <= i < some.len() && !(update_valid(
                        device,
                        layout,
                        limits,
                        #[trigger] some[i],
                    ) && (some[i].update is Image ==> image_views[i] is Ok));
                assert(updates[i] == some[i]);
            }
        }
    }
}

/// An acceleration structure can be described exactly where it is of the device and is not one of
/// geometry, and a copy exactly where as many descriptors of the same type stand in both sets, none
/// of them with a sampler of its own.
pub proof fn structures_and_copies_fit(
    device: u64,
    layout: DescriptorSetLayout,
    limits: DescriptorLimits,
    update: DescriptorSetUpdateInfo,
)
    requires
        in_binding(layout.info.bindings@, update.destination, 1),
    ensures
        ({
            let target = DescriptorSetLayoutInfo::lookup(
                layout.info.bindings@,
                update.destination.binding,
            )->0;
            let valid = update_valid(device, layout, limits, update);
            match update.update {
                DescriptorSetUpdate::AccelerationStructure { device: owner, info, .. } => valid ==> {
                    &&& owner == device
                    &&& target.descriptor_type == vk::DESCRIPTOR_TYPE_ACCELERATION_STRUCTURE_KHR
                    &&& info.acceleration_structure_type
                        != vk::ACCELERATION_STRUCTURE_TYPE_BOTTOM_LEVEL
                },
                DescriptorSetUpdate::Copy { descriptor_count, source, source_binding } => valid
                    ==> {
                    let origin = DescriptorSetLayoutInfo::lookup(
                        source.layout.info.bindings@,
                        source_binding.binding,
                    );
                    &&& source.layout.device == device
                    &&& origin matches Some(origin)
                    &&& origin.descriptor_type == target.descriptor_type
                    &&& 0 < descriptor_count
                    &&& source_binding.array_element + descriptor_count <= origin.descriptor_count
                    &&& update.destination.array_element + descriptor_count
                        <= target.descriptor_count
                    &&& target.immutable_sampler is Some ==> target.descriptor_type
                        != vk::DESCRIPTOR_TYPE_SAMPLER
                },
                _ => true,
            }
        }),
        update.update matches DescriptorSetUpdate::AccelerationStructure { device: owner, info, .. }
            ==> (owner == device && DescriptorSetLayoutInfo::lookup(
            layout.info.bindings@,
            update.destination.binding,
        )->0.descriptor_type == vk::DESCRIPTOR_TYPE_ACCELERATION_STRUCTURE_KHR
            && info.acceleration_structure_type == vk::ACCELERATION_STRUCTURE_TYPE_TOP_LEVEL
            ==> update_valid(device, layout, limits, update)),
{
}

/// Descriptors of a type are counted list by list: a binding adds its own count to its own type, and
/// nothing to any other.
pub proof fn descriptors_are_counted_by_type(
    first: Seq<DescriptorSetLayoutBindingInfo>,
    second: Seq<DescriptorSetLayoutBindingInfo>,
    descriptor_type: i32,
)
    ensures
        type_total(first + second, descriptor_type) == type_total(first, descriptor_type)
            + type_total(second, descriptor_type),
        second.len() == 1 && second[0].descriptor_type == descriptor_type ==> type_total(
            second,
            descriptor_type,
        ) == second[0].descriptor_count,
        second.len() == 1 && second[0].descriptor_type != descriptor_type ==> type_total(
            second,
            descriptor_type,
        ) == 0,
    decreases second.len(),
{
    if second.len() == 0 {
        assert(first + second =~= first);
    } else {
        descriptors_are_counted_by_type(first, second.drop_last(), descriptor_type);
        assert((first + second).drop_last() =~= first + second.drop_last());
        assert((first + second).last() == second.last());
        assert(second.len() == 1 ==> second.drop_last().len() == 0);
    }
}

/// Where a layout has a pool, all of its descriptors are of types that pools hold, and there are no
/// more of any type than can be counted. Where it has none, some first bindings tell why: the last
/// of them is of another type, which is unsupported, or makes its type too many, which is invalid.
pub proof fn pools_are_refused_for_a_binding(
    bindings: Seq<DescriptorSetLayoutBindingInfo>,
    descriptor_type: i32,
    index: int,
)
    ensures
        pool_error(bindings) is None ==> {
            &&& 0 <= index < bindings.len() ==> pooled(bindings[index].descriptor_type)
            &&& type_total(bindings, descriptor_type) <= 0xffff_ffff
        },
        pool_error(bindings) is Some ==> exists|count: int|
            {
                &&& 0 < count <= bindings.len()
                &&& pool_error(bindings.take(count - 1)) is None
                &&& if pooled((#[trigger] bindings.take(count)).last().descriptor_type) {
                    &&& pool_error(bindings) == Some(DriverError::InvalidData)
                    &&& type_total(
                        bindings.take(count),
                        bindings.take(count).last().descriptor_type,
                    ) > 0xffff_ffff
                } else {
                    pool_error(bindings) == Some(DriverError::Unsupported)
                }
            },
    decreases bindings.len(),
{
    if bindings.len() > 0 {
        let some = bindings.drop_last();
        pools_are_refused_for_a_binding(some, descriptor_type, index);
        if pool_error(some) is Some {
            let count = choose|count: int|
                {
                    &&& 0 < count <= some.len()
                    &&& pool_error(some.take(count - 1)) is None
                    &&& if pooled((#[trigger] some.take(count)).last().descriptor_type) {
                        &&& pool_error(some) == Some(DriverError::InvalidData)
                        &&& type_total(
                            some.take(count),
                            some.take(count).last().descriptor_type,
                        ) > 0xffff_ffff
                    } else {
                        pool_error(some) == Some(DriverError::Unsupported)
                    }
                };
            assert(some.take(count) =~= bindings.take(count));
            assert(some.take(count - 1) =~= bindings.take(count - 1));
        } else {
            let count = bindings.len() as int;
            assert(bindings.take(count) =~= bindings);
            assert(bindings.take(count - 1) =~= some);
            if 0 <= index < some.len() {
                assert(some[index] == bindings[index]);
            }
        }
    }
}

/// A set is made just where its layout needs nothing more than a set, all updates apply and there is
/// a pool for it. What stands first of these is reported first.
pub proof fn sets_are_made_where_nothing_is_refused(
    device: u64,
    layout: DescriptorSetLayout,
    limits: DescriptorLimits,
    updates: Seq<DescriptorSetUpdateInfo>,
    image_views: Seq<Result<u64, DriverError>>,
)
    ensures
        ({
            let refused = set_error(device, layout, limits, updates, image_views);
            let not_applied = updates_error(device, layout, limits, updates, image_views);
            let not_pooled = pool_error(layout.info.bindings@);
            let restricts = exists|i: int|
                0 <= i < layout.info.bindings@.len() && restricted(
                    (#[trigger] layout.info.bindings@[i]).descriptor_type,
                );
            &&& restricts ==> refused == Some(DriverError::Unsupported)
            &&& !restricts && not_applied is Some ==> refused == not_applied
            &&& !restricts && not_applied is None ==> refused == not_pooled
        }),
{
}

/// A view that was made is named by its handle, and one that was not is named by none.
pub proof fn made_views_are_named(image_views: Seq<Result<u64, DriverError>>, index: int)
    requires
        0 <= index < image_views.len(),
    ensures
        made_views(image_views).len() == image_views.len(),
        image_views[index] matches Ok(handle) ==> made_views(image_views)[index] == handle,
        image_views[index] is Err ==> made_views(image_views)[index] == 0,
{
}

/// Descriptors lie in a binding where there are some and the last of them is one of the binding's.
pub proof fn descriptors_lie_in_bindings(
    bindings: Seq<DescriptorSetLayoutBindingInfo>,
    place: DescriptorSetBinding,
    count: u32,
    index: int,
)
    requires
        ascending(bindings),
        0 <= index < bindings.len(),
        bindings[index].binding == place.binding,
    ensures
        in_binding(bindings, place, count) <==> count > 0 && place.array_element + (count - 1)
            < bindings[index].descriptor_count,
{
    crate::descriptor_set_layout::bindings_are_found_by_index(bindings, index);
}

} // verus!
