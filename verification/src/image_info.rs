//! Descriptions of images and image views.

use crate::error::DriverError;
use crate::image_range::{supported_aspects, ImageSubresourceRange};
use crate::memory::MemoryLocation;
use crate::vk;
use vstd::prelude::*;

verus! {

/// Whether images of a format have a depth aspect and a stencil aspect.
pub open spec fn depth_and_stencil(format: i32) -> bool {
    format == vk::FORMAT_D16_UNORM_S8_UINT || format == vk::FORMAT_D24_UNORM_S8_UINT || format
        == vk::FORMAT_D32_SFLOAT_S8_UINT
}

/// The aspects of images of a format.
pub open spec fn aspects_of_format(format: i32) -> u32 {
    if format == vk::FORMAT_D16_UNORM || format == vk::FORMAT_D32_SFLOAT || format
        == vk::FORMAT_X8_D24_UNORM_PACK32 {
        vk::IMAGE_ASPECT_DEPTH
    } else if format == vk::FORMAT_S8_UINT {
        vk::IMAGE_ASPECT_STENCIL
    } else if depth_and_stencil(format) {
        vk::IMAGE_ASPECT_DEPTH | vk::IMAGE_ASPECT_STENCIL
    } else {
        vk::IMAGE_ASPECT_COLOR
    }
}

/// The aspects of images of a format.
pub fn format_aspect_mask(format: i32) -> (aspect_mask: u32)
    ensures
        aspect_mask == aspects_of_format(format),
        supported_aspects(aspect_mask),
{
    if format == vk::FORMAT_D16_UNORM || format == vk::FORMAT_D32_SFLOAT || format
        == vk::FORMAT_X8_D24_UNORM_PACK32 {
        vk::IMAGE_ASPECT_DEPTH
    } else if format == vk::FORMAT_S8_UINT {
        vk::IMAGE_ASPECT_STENCIL
    } else if format == vk::FORMAT_D16_UNORM_S8_UINT || format == vk::FORMAT_D24_UNORM_S8_UINT
        || format == vk::FORMAT_D32_SFLOAT_S8_UINT {
        vk::IMAGE_ASPECT_DEPTH | vk::IMAGE_ASPECT_STENCIL
    } else {
        vk::IMAGE_ASPECT_COLOR
    }
}

/// Specifies sample counts supported for an image used for storage operation.
#[derive(Clone, Copy, Debug, PartialEq, Eq, Hash, Structural)]
pub enum SampleCount {
    /// Single image sample. This is the usual mode, and the default value.
    Type1,
    /// Multiple image samples.
    Type2,
    /// Multiple image samples.
    Type4,
    /// Multiple image samples.
    Type8,
    /// Multiple image samples.
    Type16,
    /// Multiple image samples.
    Type32,
    /// Multiple image samples.
    Type64,
}

impl Default for SampleCount {
    fn default() -> (count: Self)
        ensures
            count == SampleCount::Type1,
    {
        SampleCount::Type1
    }
}

impl SampleCount {
    /// The number of samples.
    pub open spec fn samples(self) -> u32 {
        match self {
            SampleCount::Type1 => 1,
            SampleCount::Type2 => 2,
            SampleCount::Type4 => 4,
            SampleCount::Type8 => 8,
            SampleCount::Type16 => 16,
            SampleCount::Type32 => 32,
            SampleCount::Type64 => 64,
        }
    }

    /// Returns `true` when the value represents a single sample mode.
    pub fn is_single(self) -> (single: bool)
        ensures
            single == (self.samples() == 1),
    {
        matches!(self, SampleCount::Type1)
    }

    /// Returns `true` when the value represents a multiple sample mode.
    pub fn is_multiple(self) -> (multiple: bool)
        ensures
            multiple == (self.samples() > 1),
    {
        matches!(
            self,
            SampleCount::Type2 | SampleCount::Type4 | SampleCount::Type8 | SampleCount::Type16
                | SampleCount::Type32 | SampleCount::Type64
        )
    }

    /// The flag of the sample count, which is the number of samples.
    pub fn into_flags(self) -> (flags: u32)
        ensures
            flags == self.samples(),
    {
        match self {
            SampleCount::Type1 => vk::SAMPLE_COUNT_1,
            SampleCount::Type2 => vk::SAMPLE_COUNT_2,
            SampleCount::Type4 => vk::SAMPLE_COUNT_4,
            SampleCount::Type8 => vk::SAMPLE_COUNT_8,
            SampleCount::Type16 => vk::SAMPLE_COUNT_16,
            SampleCount::Type32 => vk::SAMPLE_COUNT_32,
            SampleCount::Type64 => vk::SAMPLE_COUNT_64,
        }
    }
}

/// Information used to create an image.
#[derive(Clone, Copy, Debug, PartialEq, Eq, Hash, Structural)]
pub struct ImageInfo {
    /// Specifies a dedicated memory allocation managed by the Vulkan driver and not by the
    /// internal memory allocation pool that transient resources share.
    pub alloc_dedicated: bool,
    /// The number of layers in the image.
    pub array_layer_count: u32,
    /// Image extent of the Z axis, when describing a three dimensional image.
    pub depth: u32,
    /// A bitmask describing additional parameters of the image.
    pub flags: u32,
    /// The format and type of the texel blocks that will be contained in the image.
    pub format: i32,
    /// Image extent of the Y axis, when describing a two or three dimensional image.
    pub height: u32,
    /// Specifies an image whose memory is host-visible and may be mapped for reads.
    pub host_readable: bool,
    /// Specifies an image whose memory is host-visible and may be mapped for writes.
    pub host_writable: bool,
    /// The number of levels of detail available for minified sampling of the image.
    pub mip_level_count: u32,
    /// Specifies the number of samples per texel.
    pub sample_count: SampleCount,
    /// Whether the image is accessible from a single queue family (`EXCLUSIVE`) or from multiple
    /// queue families (`CONCURRENT`).
    pub sharing_mode: i32,
    /// Specifies the tiling arrangement of the texel blocks in memory.
    pub tiling: i32,
    /// The basic dimensionality of the image.
    pub ty: i32,
    /// A bitmask describing the intended usage of the image.
    pub usage: u32,
    /// Image extent of the X axis.
    pub width: u32,
}

/// Builds a [`ImageInfo`]; what is not set takes its default.
#[derive(Clone, Copy, Debug)]
pub struct ImageInfoBuilder {
    /// See [`ImageInfo::alloc_dedicated`].
    pub alloc_dedicated: Option<bool>,
    /// See [`ImageInfo::array_layer_count`].
    pub array_layer_count: Option<u32>,
    /// See [`ImageInfo::depth`].
    pub depth: Option<u32>,
    /// See [`ImageInfo::flags`].
    pub flags: Option<u32>,
    /// See [`ImageInfo::format`].
    pub format: Option<i32>,
    /// See [`ImageInfo::height`].
    pub height: Option<u32>,
    /// See [`ImageInfo::host_readable`].
    pub host_readable: Option<bool>,
    /// See [`ImageInfo::host_writable`].
    pub host_writable: Option<bool>,
    /// See [`ImageInfo::mip_level_count`].
    pub mip_level_count: Option<u32>,
    /// See [`ImageInfo::sample_count`].
    pub sample_count: Option<SampleCount>,
    /// See [`ImageInfo::sharing_mode`].
    pub sharing_mode: Option<i32>,
    /// See [`ImageInfo::tiling`].
    pub tiling: Option<i32>,
    /// See [`ImageInfo::ty`].
    pub ty: Option<i32>,
    /// See [`ImageInfo::usage`].
    pub usage: Option<u32>,
    /// See [`ImageInfo::width`].
    pub width: Option<u32>,
}

impl ImageInfo {
    /// The builder in which every field is set to this value's.
    pub open spec fn as_builder(self) -> ImageInfoBuilder {
        ImageInfoBuilder {
            alloc_dedicated: Some(self.alloc_dedicated),
            array_layer_count: Some(self.array_layer_count),
            depth: Some(self.depth),
            flags: Some(self.flags),
            format: Some(self.format),
            height: Some(self.height),
            host_readable: Some(self.host_readable),
            host_writable: Some(self.host_writable),
            mip_level_count: Some(self.mip_level_count),
            sample_count: Some(self.sample_count),
            sharing_mode: Some(self.sharing_mode),
            tiling: Some(self.tiling),
            ty: Some(self.ty),
            usage: Some(self.usage),
            width: Some(self.width),
        }
    }

    /// Creates a default `ImageInfoBuilder`.
    pub fn builder() -> (builder: ImageInfoBuilder)
        ensures
            builder == ImageInfoBuilder::unset(),
    {
        ImageInfoBuilder::default()
    }

    /// Converts an `ImageInfo` into a `ImageInfoBuilder`.
    pub fn into_builder(self) -> (builder: ImageInfoBuilder)
        ensures
            builder == self.as_builder(),
    {
        ImageInfoBuilder {
            alloc_dedicated: Some(self.alloc_dedicated),
            array_layer_count: Some(self.array_layer_count),
            depth: Some(self.depth),
            flags: Some(self.flags),
            format: Some(self.format),
            height: Some(self.height),
            host_readable: Some(self.host_readable),
            host_writable: Some(self.host_writable),
            mip_level_count: Some(self.mip_level_count),
            sample_count: Some(self.sample_count),
            sharing_mode: Some(self.sharing_mode),
            tiling: Some(self.tiling),
            ty: Some(self.ty),
            usage: Some(self.usage),
            width: Some(self.width),
        }
    }
}

impl ImageInfoBuilder {
    /// The builder in which nothing is set.
    pub open spec fn unset() -> Self {
        ImageInfoBuilder {
            alloc_dedicated: None,
            array_layer_count: None,
            depth: None,
            flags: None,
            format: None,
            height: None,
            host_readable: None,
            host_writable: None,
            mip_level_count: None,
            sample_count: None,
            sharing_mode: None,
            tiling: None,
            ty: None,
            usage: None,
            width: None,
        }
    }

    /// The value that the builder describes.
    pub open spec fn built(self) -> ImageInfo {
        ImageInfo {
            alloc_dedicated: self.alloc_dedicated.unwrap_or(false),
            array_layer_count: self.array_layer_count.unwrap_or(1),
            depth: self.depth.unwrap_or(0),
            flags: self.flags.unwrap_or(0),
            format: self.format.unwrap_or(vk::FORMAT_UNDEFINED),
            height: self.height.unwrap_or(0),
            host_readable: self.host_readable.unwrap_or(false),
            host_writable: self.host_writable.unwrap_or(false),
            mip_level_count: self.mip_level_count.unwrap_or(1),
            sample_count: self.sample_count.unwrap_or(SampleCount::Type1),
            sharing_mode: self.sharing_mode.unwrap_or(vk::SHARING_MODE_EXCLUSIVE),
            tiling: self.tiling.unwrap_or(vk::IMAGE_TILING_OPTIMAL),
            ty: self.ty.unwrap_or(vk::IMAGE_TYPE_2D),
            usage: self.usage.unwrap_or(0),
            width: self.width.unwrap_or(0),
        }
    }

    /// Sets [`ImageInfo::alloc_dedicated`].
    pub fn alloc_dedicated(self, alloc_dedicated: bool) -> (builder: Self)
        ensures
            builder == (ImageInfoBuilder { alloc_dedicated: Some(alloc_dedicated), ..self }),
    {
        ImageInfoBuilder { alloc_dedicated: Some(alloc_dedicated), ..self }
    }

    /// Sets [`ImageInfo::array_layer_count`].
    pub fn array_layer_count(self, array_layer_count: u32) -> (builder: Self)
        ensures
            builder == (ImageInfoBuilder { array_layer_count: Some(array_layer_count), ..self }),
    {
        ImageInfoBuilder { array_layer_count: Some(array_layer_count), ..self }
    }

    /// Sets [`ImageInfo::depth`].
    pub fn depth(self, depth: u32) -> (builder: Self)
        ensures
            builder == (ImageInfoBuilder { depth: Some(depth), ..self }),
    {
        ImageInfoBuilder { depth: Some(depth), ..self }
    }

    /// Sets [`ImageInfo::flags`].
    pub fn flags(self, flags: u32) -> (builder: Self)
        ensures
            builder == (ImageInfoBuilder { flags: Some(flags), ..self }),
    {
        ImageInfoBuilder { flags: Some(flags), ..self }
    }

    /// Sets [`ImageInfo::format`].
    pub fn format(self, format: i32) -> (builder: Self)
        ensures
            builder == (ImageInfoBuilder { format: Some(format), ..self }),
    {
        ImageInfoBuilder { format: Some(format), ..self }
    }

    /// Sets [`ImageInfo::height`].
    pub fn height(self, height: u32) -> (builder: Self)
        ensures
            builder == (ImageInfoBuilder { height: Some(height), ..self }),
    {
        ImageInfoBuilder { height: Some(height), ..self }
    }

    /// Sets [`ImageInfo::host_readable`].
    pub fn host_readable(self, host_readable: bool) -> (builder: Self)
        ensures
            builder == (ImageInfoBuilder { host_readable: Some(host_readable), ..self }),
    {
        ImageInfoBuilder { host_readable: Some(host_readable), ..self }
    }

    /// Sets [`ImageInfo::host_writable`].
    pub fn host_writable(self, host_writable: bool) -> (builder: Self)
        ensures
            builder == (ImageInfoBuilder { host_writable: Some(host_writable), ..self }),
    {
        ImageInfoBuilder { host_writable: Some(host_writable), ..self }
    }

    /// Sets [`ImageInfo::mip_level_count`].
    pub fn mip_level_count(self, mip_level_count: u32) -> (builder: Self)
        ensures
            builder == (ImageInfoBuilder { mip_level_count: Some(mip_level_count), ..self }),
    {
        ImageInfoBuilder { mip_level_count: Some(mip_level_count), ..self }
    }

    /// Sets [`ImageInfo::sample_count`].
    pub fn sample_count(self, sample_count: SampleCount) -> (builder: Self)
        ensures
            builder == (ImageInfoBuilder { sample_count: Some(sample_count), ..self }),
    {
        ImageInfoBuilder { sample_count: Some(sample_count), ..self }
    }

    /// Sets [`ImageInfo::sharing_mode`].
    pub fn sharing_mode(self, sharing_mode: i32) -> (builder: Self)
        ensures
            builder == (ImageInfoBuilder { sharing_mode: Some(sharing_mode), ..self }),
    {
        ImageInfoBuilder { sharing_mode: Some(sharing_mode), ..self }
    }

    /// Sets [`ImageInfo::tiling`].
    pub fn tiling(self, tiling: i32) -> (builder: Self)
        ensures
            builder == (ImageInfoBuilder { tiling: Some(tiling), ..self }),
    {
        ImageInfoBuilder { tiling: Some(tiling), ..self }
    }

    /// Sets [`ImageInfo::ty`].
    pub fn ty(self, ty: i32) -> (builder: Self)
        ensures
            builder == (ImageInfoBuilder { ty: Some(ty), ..self }),
    {
        ImageInfoBuilder { ty: Some(ty), ..self }
    }

    /// Sets [`ImageInfo::usage`].
    pub fn usage(self, usage: u32) -> (builder: Self)
        ensures
            builder == (ImageInfoBuilder { usage: Some(usage), ..self }),
    {
        ImageInfoBuilder { usage: Some(usage), ..self }
    }

    /// Sets [`ImageInfo::width`].
    pub fn width(self, width: u32) -> (builder: Self)
        ensures
            builder == (ImageInfoBuilder { width: Some(width), ..self }),
    {
        ImageInfoBuilder { width: Some(width), ..self }
    }

    /// Builds a new `ImageInfo`.
    pub fn build(self) -> (info: ImageInfo)
        ensures
            info == self.built(),
    {
        ImageInfo {
            alloc_dedicated: self.alloc_dedicated.unwrap_or(false),
            array_layer_count: self.array_layer_count.unwrap_or(1),
            depth: self.depth.unwrap_or(0),
            flags: self.flags.unwrap_or(0),
            format: self.format.unwrap_or(vk::FORMAT_UNDEFINED),
            height: self.height.unwrap_or(0),
            host_readable: self.host_readable.unwrap_or(false),
            host_writable: self.host_writable.unwrap_or(false),
            mip_level_count: self.mip_level_count.unwrap_or(1),
            sample_count: self.sample_count.unwrap_or(SampleCount::Type1),
            sharing_mode: self.sharing_mode.unwrap_or(vk::SHARING_MODE_EXCLUSIVE),
            tiling: self.tiling.unwrap_or(vk::IMAGE_TILING_OPTIMAL),
            ty: self.ty.unwrap_or(vk::IMAGE_TYPE_2D),
            usage: self.usage.unwrap_or(0),
            width: self.width.unwrap_or(0),
        }
    }
}

impl Default for ImageInfoBuilder {
    fn default() -> (builder: Self)
        ensures
            builder == ImageInfoBuilder::unset(),
    {
        ImageInfoBuilder {
            alloc_dedicated: None,
            array_layer_count: None,
            depth: None,
            flags: None,
            format: None,
            height: None,
            host_readable: None,
            host_writable: None,
            mip_level_count: None,
            sample_count: None,
            sharing_mode: None,
            tiling: None,
            ty: None,
            usage: None,
            width: None,
        }
    }
}

impl From<ImageInfoBuilder> for ImageInfo {
    fn from(builder: ImageInfoBuilder) -> (info: Self) {
        builder.build()
    }
}

impl vstd::std_specs::convert::FromSpecImpl<ImageInfoBuilder> for ImageInfo {
    open spec fn obeys_from_spec() -> bool {
        true
    }

    open spec fn from_spec(builder: ImageInfoBuilder) -> Self {
        builder.built()
    }
}

/// Building what a value was converted into gives the value back.
pub proof fn image_info_round_trip(info: ImageInfo)
    ensures
        info.as_builder().built() == info,
{
}

impl ImageInfo {
    /// An image of a type and extent, with everything else at its default.
    pub open spec fn plain(
        ty: i32,
        width: u32,
        height: u32,
        depth: u32,
        array_layer_count: u32,
        format: i32,
        usage: u32,
    ) -> Self {
        ImageInfo {
            ty,
            width,
            height,
            depth,
            array_layer_count,
            format,
            usage,
            ..ImageInfoBuilder::unset().built()
        }
    }

    fn new(
        ty: i32,
        width: u32,
        height: u32,
        depth: u32,
        array_layer_count: u32,
        format: i32,
        usage: u32,
    ) -> (info: Self)
        ensures
            info == Self::plain(ty, width, height, depth, array_layer_count, format, usage),
    {
        ImageInfo {
            alloc_dedicated: false,
            ty,
            width,
            height,
            depth,
            array_layer_count,
            format,
            usage,
            flags: 0,
            host_readable: false,
            host_writable: false,
            sharing_mode: vk::SHARING_MODE_EXCLUSIVE,
            tiling: vk::IMAGE_TILING_OPTIMAL,
            mip_level_count: 1,
            sample_count: SampleCount::Type1,
        }
    }

    /// Specifies a cube image.
    pub fn cube(size: u32, format: i32, usage: u32) -> (info: ImageInfo)
        ensures
            info == (ImageInfo {
                flags: vk::IMAGE_CREATE_CUBE_COMPATIBLE,
                ..Self::plain(vk::IMAGE_TYPE_2D, size, size, 1, 6, format, usage)
            }),
    {
        let mut info = Self::new(vk::IMAGE_TYPE_2D, size, size, 1, 6, format, usage);
        info.flags = vk::IMAGE_CREATE_CUBE_COMPATIBLE;
        info
    }

    /// Specifies a one-dimensional image.
    pub fn image_1d(size: u32, format: i32, usage: u32) -> (info: ImageInfo)
        ensures
            info == Self::plain(vk::IMAGE_TYPE_1D, size, 1, 1, 1, format, usage),
    {
        Self::new(vk::IMAGE_TYPE_1D, size, 1, 1, 1, format, usage)
    }

    /// Specifies a two-dimensional image.
    pub fn image_2d(width: u32, height: u32, format: i32, usage: u32) -> (info: ImageInfo)
        ensures
            info == Self::plain(vk::IMAGE_TYPE_2D, width, height, 1, 1, format, usage),
    {
        Self::new(vk::IMAGE_TYPE_2D, width, height, 1, 1, format, usage)
    }

    /// Specifies a two-dimensional image array.
    pub fn image_2d_array(
        width: u32,
        height: u32,
        array_layer_count: u32,
        format: i32,
        usage: u32,
    ) -> (info: ImageInfo)
        ensures
            info == Self::plain(
                vk::IMAGE_TYPE_2D,
                width,
                height,
                1,
                array_layer_count,
                format,
                usage,
            ),
    {
        Self::new(vk::IMAGE_TYPE_2D, width, height, 1, array_layer_count, format, usage)
    }

    /// Specifies a three-dimensional image.
    pub fn image_3d(width: u32, height: u32, depth: u32, format: i32, usage: u32) -> (info:
        ImageInfo)
        ensures
            info == Self::plain(vk::IMAGE_TYPE_3D, width, height, depth, 1, format, usage),
    {
        Self::new(vk::IMAGE_TYPE_3D, width, height, depth, 1, format, usage)
    }

    /// Whether the image's type is one that views can have.
    pub open spec fn viewable(self) -> bool {
        ||| self.ty == vk::IMAGE_TYPE_1D
        ||| self.ty == vk::IMAGE_TYPE_2D
        ||| self.ty == vk::IMAGE_TYPE_3D
    }

    /// The type of a view of the whole image.
    pub open spec fn view_type(self) -> i32 {
        let cube = self.flags & vk::IMAGE_CREATE_CUBE_COMPATIBLE == vk::IMAGE_CREATE_CUBE_COMPATIBLE;
        if self.ty == vk::IMAGE_TYPE_3D {
            vk::IMAGE_VIEW_TYPE_3D
        } else if self.ty == vk::IMAGE_TYPE_1D {
            if self.array_layer_count == 1 {
                vk::IMAGE_VIEW_TYPE_1D
            } else {
                vk::IMAGE_VIEW_TYPE_1D_ARRAY
            }
        } else if self.array_layer_count == 1 {
            vk::IMAGE_VIEW_TYPE_2D
        } else if cube && self.array_layer_count == 6 {
            vk::IMAGE_VIEW_TYPE_CUBE
        } else if cube && self.array_layer_count > 6 {
            vk::IMAGE_VIEW_TYPE_CUBE_ARRAY
        } else {
            vk::IMAGE_VIEW_TYPE_2D_ARRAY
        }
    }

    /// The view of the whole image.
    pub open spec fn whole_view(self) -> ImageViewInfo {
        ImageViewInfo {
            array_layer_count: self.array_layer_count,
            aspect_mask: aspects_of_format(self.format),
            base_array_layer: 0,
            base_mip_level: 0,
            format: self.format,
            mip_level_count: self.mip_level_count,
            ty: self.view_type(),
        }
    }

    /// The whole image.
    pub open spec fn whole_range(self) -> ImageSubresourceRange {
        ImageSubresourceRange {
            aspect_mask: aspects_of_format(self.format),
            base_mip_level: 0,
            level_count: self.mip_level_count,
            base_array_layer: 0,
            layer_count: self.array_layer_count,
        }
    }

    /// A range with counts that stand for all that remains replaced by numbers.
    pub open spec fn resolved(self, range: ImageSubresourceRange) -> ImageSubresourceRange {
        ImageSubresourceRange {
            layer_count: if range.layer_count == vk::REMAINING_ARRAY_LAYERS {
                (self.array_layer_count - range.base_array_layer) as u32
            } else {
                range.layer_count
            },
            level_count: if range.level_count == vk::REMAINING_MIP_LEVELS {
                (self.mip_level_count - range.base_mip_level) as u32
            } else {
                range.level_count
            },
            ..range
        }
    }

    /// Whether the counts of a range can be resolved: what remains is not less than nothing.
    pub open spec fn resolvable(self, range: ImageSubresourceRange) -> bool {
        &&& range.layer_count == vk::REMAINING_ARRAY_LAYERS ==> range.base_array_layer
            <= self.array_layer_count
        &&& range.level_count == vk::REMAINING_MIP_LEVELS ==> range.base_mip_level
            <= self.mip_level_count
    }

    /// Provides an `ImageViewInfo` for this format, type, aspect, array elements, and mip levels.
    pub fn into_image_view(self) -> (view: ImageViewInfo)
        requires
            self.viewable(),
        ensures
            view == self.whole_view(),
    {
        match ImageViewInfo::from_image_info(self) {
            Ok(view) => view,
            Err(_) => vstd::pervasive::unreached(),
        }
    }

    /// Replaces counts that stand for all that remains.
    pub fn resolve_subresource_counts(self, range: ImageSubresourceRange) -> (resolved:
        ImageSubresourceRange)
        requires
            self.resolvable(range),
        ensures
            resolved == self.resolved(range),
    {
        let mut resolved = range;
        if range.layer_count == vk::REMAINING_ARRAY_LAYERS {
            resolved.layer_count = self.array_layer_count - range.base_array_layer;
        }
        if range.level_count == vk::REMAINING_MIP_LEVELS {
            resolved.level_count = self.mip_level_count - range.base_mip_level;
        }
        resolved
    }

    /// Whether a range is the whole image.
    pub fn is_full_subresource_range(self, range: ImageSubresourceRange) -> (full: bool)
        ensures
            full == (range == self.whole_range()),
    {
        range.aspect_mask == format_aspect_mask(self.format) && range.base_array_layer == 0
            && range.layer_count == self.array_layer_count && range.base_mip_level == 0
            && range.level_count == self.mip_level_count
    }

    /// Returns `true` if this image is an array.
    pub fn is_array(self) -> (array: bool)
        ensures
            array == (self.array_layer_count > 1),
    {
        self.array_layer_count > 1
    }

    /// Whether the image can be viewed as a cube or cube array.
    pub open spec fn is_cube_image(self) -> bool {
        &&& self.ty == vk::IMAGE_TYPE_2D
        &&& self.width == self.height
        &&& self.depth == 1
        &&& self.array_layer_count >= 6
        &&& self.flags & vk::IMAGE_CREATE_CUBE_COMPATIBLE == vk::IMAGE_CREATE_CUBE_COMPATIBLE
    }

    /// Returns `true` if this image is a cube or cube array.
    pub fn is_cube(self) -> (cube: bool)
        ensures
            cube == self.is_cube_image(),
    {
        self.ty == vk::IMAGE_TYPE_2D && self.width == self.height && self.depth == 1
            && self.array_layer_count >= 6 && self.flags & vk::IMAGE_CREATE_CUBE_COMPATIBLE
            == vk::IMAGE_CREATE_CUBE_COMPATIBLE
    }

    /// Returns `true` if this image is a cube array.
    pub fn is_cube_array(self) -> (cube_array: bool)
        ensures
            cube_array == (self.is_cube_image() && self.array_layer_count > 6),
    {
        self.is_cube() && self.array_layer_count > 6
    }

    /// Returns `true` if this information specifies host-visible memory.
    pub fn is_host_visible(self) -> (visible: bool)
        ensures
            visible == (self.host_readable || self.host_writable),
    {
        self.host_readable || self.host_writable
    }

    /// The memory to allocate: images that the host writes are held where uploads are fast, even
    /// if it also reads them.
    pub fn memory_location(self) -> (location: MemoryLocation)
        ensures
            location == MemoryLocation::CpuToGpu <==> self.host_writable,
            location == MemoryLocation::GpuToCpu <==> self.host_readable && !self.host_writable,
    {
        if self.host_writable {
            MemoryLocation::CpuToGpu
        } else if self.host_readable {
            MemoryLocation::GpuToCpu
        } else {
            MemoryLocation::GpuOnly
        }
    }

    /// The queue families to name when the image is created, out of all the families of the
    /// device, or an error for an image that has no use.
    pub fn queue_family_indices(&self, families: &Vec<u32>) -> (named: Result<
        Vec<u32>,
        DriverError,
    >)
        ensures
            self.usage == 0 ==> named is Err && named->Err_0 == DriverError::InvalidData,
            self.usage != 0 ==> named is Ok && named->Ok_0@ == (if self.sharing_mode
                == vk::SHARING_MODE_CONCURRENT {
                families@
            } else {
                seq![]
            }),
    {
        if self.usage == 0 {
            return Err(DriverError::InvalidData);
        }
        if self.sharing_mode == vk::SHARING_MODE_CONCURRENT {
            Ok(families.clone())
        } else {
            Ok(Vec::new())
        }
    }
}

impl ImageInfoBuilder {
    /// Provides an `ImageViewInfo` for this format, type, aspect, array elements, and mip levels.
    pub fn into_image_view(self) -> (view: ImageViewInfoBuilder)
        requires
            self.built().viewable(),
        ensures
            view == self.built().whole_view().as_builder(),
    {
        self.build().into_image_view().into_builder()
    }
}

/// Information used to reinterpret an existing image.
#[derive(Clone, Copy, Debug, PartialEq, Eq, Hash, Structural)]
pub struct ImageViewInfo {
    /// The number of layers that will be contained in the view.
    pub array_layer_count: u32,
    /// The portion of the image that will be contained in the view.
    pub aspect_mask: u32,
    /// The first array layer that will be contained in the view.
    pub base_array_layer: u32,
    /// The first mip level that will be contained in the view.
    pub base_mip_level: u32,
    /// The format and type of the texel blocks that will be contained in the view.
    pub format: i32,
    /// The number of mip levels that will be contained in the view.
    pub mip_level_count: u32,
    /// The basic dimensionality of the view.
    pub ty: i32,
}

/// Builds a [`ImageViewInfo`]; what is not set takes its default.
#[derive(Clone, Copy, Debug)]
pub struct ImageViewInfoBuilder {
    /// See [`ImageViewInfo::array_layer_count`].
    pub array_layer_count: Option<u32>,
    /// See [`ImageViewInfo::aspect_mask`].
    pub aspect_mask: Option<u32>,
    /// See [`ImageViewInfo::base_array_layer`].
    pub base_array_layer: Option<u32>,
    /// See [`ImageViewInfo::base_mip_level`].
    pub base_mip_level: Option<u32>,
    /// See [`ImageViewInfo::format`].
    pub format: Option<i32>,
    /// See [`ImageViewInfo::mip_level_count`].
    pub mip_level_count: Option<u32>,
    /// See [`ImageViewInfo::ty`].
    pub ty: Option<i32>,
}

impl ImageViewInfo {
    /// The builder in which every field is set to this value's.
    pub open spec fn as_builder(self) -> ImageViewInfoBuilder {
        ImageViewInfoBuilder {
            array_layer_count: Some(self.array_layer_count),
            aspect_mask: Some(self.aspect_mask),
            base_array_layer: Some(self.base_array_layer),
            base_mip_level: Some(self.base_mip_level),
            format: Some(self.format),
            mip_level_count: Some(self.mip_level_count),
            ty: Some(self.ty),
        }
    }

    /// Converts an `ImageViewInfo` into a `ImageViewInfoBuilder`.
    pub fn into_builder(self) -> (builder: ImageViewInfoBuilder)
        ensures
            builder == self.as_builder(),
    {
        ImageViewInfoBuilder {
            array_layer_count: Some(self.array_layer_count),
            aspect_mask: Some(self.aspect_mask),
            base_array_layer: Some(self.base_array_layer),
            base_mip_level: Some(self.base_mip_level),
            format: Some(self.format),
            mip_level_count: Some(self.mip_level_count),
            ty: Some(self.ty),
        }
    }
}

impl ImageViewInfoBuilder {
    /// The builder in which nothing is set.
    pub open spec fn unset() -> Self {
        ImageViewInfoBuilder {
            array_layer_count: None,
            aspect_mask: None,
            base_array_layer: None,
            base_mip_level: None,
            format: None,
            mip_level_count: None,
            ty: None,
        }
    }

    /// The value that the builder describes.
    pub open spec fn built(self) -> ImageViewInfo {
        ImageViewInfo {
            array_layer_count: self.array_layer_count.unwrap_or(vk::REMAINING_ARRAY_LAYERS),
            aspect_mask: self.aspect_mask.unwrap_or(vk::IMAGE_ASPECT_COLOR),
            base_array_layer: self.base_array_layer.unwrap_or(0),
            base_mip_level: self.base_mip_level.unwrap_or(0),
            format: self.format.unwrap_or(vk::FORMAT_UNDEFINED),
            mip_level_count: self.mip_level_count.unwrap_or(vk::REMAINING_MIP_LEVELS),
            ty: self.ty.unwrap_or(vk::IMAGE_VIEW_TYPE_2D),
        }
    }

    /// Sets [`ImageViewInfo::array_layer_count`].
    pub fn array_layer_count(self, array_layer_count: u32) -> (builder: Self)
        ensures
            builder == (ImageViewInfoBuilder {
                array_layer_count: Some(array_layer_count),
                ..self
            }),
    {
        ImageViewInfoBuilder { array_layer_count: Some(array_layer_count), ..self }
    }

    /// Sets [`ImageViewInfo::aspect_mask`].
    pub fn aspect_mask(self, aspect_mask: u32) -> (builder: Self)
        ensures
            builder == (ImageViewInfoBuilder { aspect_mask: Some(aspect_mask), ..self }),
    {
        ImageViewInfoBuilder { aspect_mask: Some(aspect_mask), ..self }
    }

    /// Sets [`ImageViewInfo::base_array_layer`].
    pub fn base_array_layer(self, base_array_layer: u32) -> (builder: Self)
        ensures
            builder == (ImageViewInfoBuilder { base_array_layer: Some(base_array_layer), ..self }),
    {
        ImageViewInfoBuilder { base_array_layer: Some(base_array_layer), ..self }
    }

    /// Sets [`ImageViewInfo::base_mip_level`].
    pub fn base_mip_level(self, base_mip_level: u32) -> (builder: Self)
        ensures
            builder == (ImageViewInfoBuilder { base_mip_level: Some(base_mip_level), ..self }),
    {
        ImageViewInfoBuilder { base_mip_level: Some(base_mip_level), ..self }
    }

    /// Sets [`ImageViewInfo::format`].
    pub fn format(self, format: i32) -> (builder: Self)
        ensures
            builder == (ImageViewInfoBuilder { format: Some(format), ..self }),
    {
        ImageViewInfoBuilder { format: Some(format), ..self }
    }

    /// Sets [`ImageViewInfo::mip_level_count`].
    pub fn mip_level_count(self, mip_level_count: u32) -> (builder: Self)
        ensures
            builder == (ImageViewInfoBuilder { mip_level_count: Some(mip_level_count), ..self }),
    {
        ImageViewInfoBuilder { mip_level_count: Some(mip_level_count), ..self }
    }

    /// Sets [`ImageViewInfo::ty`].
    pub fn ty(self, ty: i32) -> (builder: Self)
        ensures
            builder == (ImageViewInfoBuilder { ty: Some(ty), ..self }),
    {
        ImageViewInfoBuilder { ty: Some(ty), ..self }
    }

    /// Builds a new `ImageViewInfo`.
    pub fn build(self) -> (info: ImageViewInfo)
        ensures
            info == self.built(),
    {
        ImageViewInfo {
            array_layer_count: self.array_layer_count.unwrap_or(vk::REMAINING_ARRAY_LAYERS),
            aspect_mask: self.aspect_mask.unwrap_or(vk::IMAGE_ASPECT_COLOR),
            base_array_layer: self.base_array_layer.unwrap_or(0),
            base_mip_level: self.base_mip_level.unwrap_or(0),
            format: self.format.unwrap_or(vk::FORMAT_UNDEFINED),
            mip_level_count: self.mip_level_count.unwrap_or(vk::REMAINING_MIP_LEVELS),
            ty: self.ty.unwrap_or(vk::IMAGE_VIEW_TYPE_2D),
        }
    }
}

impl Default for ImageViewInfoBuilder {
    fn default() -> (builder: Self)
        ensures
            builder == ImageViewInfoBuilder::unset(),
    {
        ImageViewInfoBuilder {
            array_layer_count: None,
            aspect_mask: None,
            base_array_layer: None,
            base_mip_level: None,
            format: None,
            mip_level_count: None,
            ty: None,
        }
    }
}

impl From<ImageViewInfoBuilder> for ImageViewInfo {
    fn from(builder: ImageViewInfoBuilder) -> (info: Self) {
        builder.build()
    }
}

impl vstd::std_specs::convert::FromSpecImpl<ImageViewInfoBuilder> for ImageViewInfo {
    open spec fn obeys_from_spec() -> bool {
        true
    }

    open spec fn from_spec(builder: ImageViewInfoBuilder) -> Self {
        builder.built()
    }
}

/// Building what a value was converted into gives the value back.
pub proof fn image_view_info_round_trip(info: ImageViewInfo)
    ensures
        info.as_builder().built() == info,
{
}

impl ImageViewInfo {
    /// Specifies a default view with the given `format` and `ty` values.
    ///
    /// Automatically sets [`aspect_mask`](Self::aspect_mask) to a suggested value.
    pub fn new(format: i32, ty: i32) -> (view: ImageViewInfo)
        ensures
            view == (ImageViewInfo {
                aspect_mask: aspects_of_format(format),
                format,
                ty,
                ..ImageViewInfoBuilder::unset().built()
            }),
    {
        ImageViewInfo {
            array_layer_count: vk::REMAINING_ARRAY_LAYERS,
            aspect_mask: format_aspect_mask(format),
            base_array_layer: 0,
            base_mip_level: 0,
            format,
            mip_level_count: vk::REMAINING_MIP_LEVELS,
            ty,
        }
    }

    /// Creates an image view description from image creation info.
    pub fn from_image_info(info: ImageInfo) -> (view: Result<Self, DriverError>)
        ensures
            info.viewable() ==> view == Ok::<Self, DriverError>(info.whole_view()),
            !info.viewable() ==> view == Err::<Self, DriverError>(DriverError::InvalidData),
    {
        let cube: bool = info.flags & vk::IMAGE_CREATE_CUBE_COMPATIBLE
            == vk::IMAGE_CREATE_CUBE_COMPATIBLE;
        let ty: i32 = if info.ty == vk::IMAGE_TYPE_1D && info.array_layer_count == 1 {
            vk::IMAGE_VIEW_TYPE_1D
        } else if info.ty == vk::IMAGE_TYPE_1D {
            vk::IMAGE_VIEW_TYPE_1D_ARRAY
        } else if info.ty == vk::IMAGE_TYPE_2D && info.array_layer_count == 1 {
            vk::IMAGE_VIEW_TYPE_2D
        } else if info.ty == vk::IMAGE_TYPE_2D && info.array_layer_count == 6 && cube {
            vk::IMAGE_VIEW_TYPE_CUBE
        } else if info.ty == vk::IMAGE_TYPE_2D && cube && info.array_layer_count > 6 {
            vk::IMAGE_VIEW_TYPE_CUBE_ARRAY
        } else if info.ty == vk::IMAGE_TYPE_2D {
            vk::IMAGE_VIEW_TYPE_2D_ARRAY
        } else if info.ty == vk::IMAGE_TYPE_3D {
            vk::IMAGE_VIEW_TYPE_3D
        } else {
            return Err(DriverError::InvalidData);
        };
        Ok(
            ImageViewInfo {
                array_layer_count: info.array_layer_count,
                aspect_mask: format_aspect_mask(info.format),
                base_array_layer: 0,
                base_mip_level: 0,
                format: info.format,
                mip_level_count: info.mip_level_count,
                ty,
            },
        )
    }
}

impl From<ImageViewInfo> for ImageSubresourceRange {
    fn from(info: ImageViewInfo) -> (range: Self) {
        ImageSubresourceRange {
            aspect_mask: info.aspect_mask,
            base_mip_level: info.base_mip_level,
            level_count: info.mip_level_count,
            base_array_layer: info.base_array_layer,
            layer_count: info.array_layer_count,
        }
    }
}

impl vstd::std_specs::convert::FromSpecImpl<ImageViewInfo> for ImageSubresourceRange {
    open spec fn obeys_from_spec() -> bool {
        true
    }

    open spec fn from_spec(info: ImageViewInfo) -> Self {
        ImageSubresourceRange {
            aspect_mask: info.aspect_mask,
            base_mip_level: info.base_mip_level,
            level_count: info.mip_level_count,
            base_array_layer: info.base_array_layer,
            layer_count: info.array_layer_count,
        }
    }
}

/// The view of a whole image has the dimensions of the image. It is a view of cubes exactly where
/// the image can be viewed as cubes and has the layers for one, and a view of an array exactly where
/// the image has more than one layer that is not a face of a single cube.
pub proof fn views_have_the_dimensions_of_their_image(info: ImageInfo)
    requires
        info.viewable(),
    ensures
        ({
            let ty = info.whole_view().ty;
            let cubes = info.ty == vk::IMAGE_TYPE_2D && info.flags
                & vk::IMAGE_CREATE_CUBE_COMPATIBLE != 0 && info.array_layer_count >= 6;
            &&& info.ty == vk::IMAGE_TYPE_1D <==> ty == vk::IMAGE_VIEW_TYPE_1D || ty
                == vk::IMAGE_VIEW_TYPE_1D_ARRAY
            &&& info.ty == vk::IMAGE_TYPE_2D <==> ty == vk::IMAGE_VIEW_TYPE_2D || ty
                == vk::IMAGE_VIEW_TYPE_2D_ARRAY || ty == vk::IMAGE_VIEW_TYPE_CUBE || ty
                == vk::IMAGE_VIEW_TYPE_CUBE_ARRAY
            &&& info.ty == vk::IMAGE_TYPE_3D <==> ty == vk::IMAGE_VIEW_TYPE_3D
            &&& cubes <==> ty == vk::IMAGE_VIEW_TYPE_CUBE || ty == vk::IMAGE_VIEW_TYPE_CUBE_ARRAY
            &&& info.is_cube_image() ==> cubes
            &&& (ty == vk::IMAGE_VIEW_TYPE_1D_ARRAY || ty == vk::IMAGE_VIEW_TYPE_2D_ARRAY || ty
                == vk::IMAGE_VIEW_TYPE_CUBE_ARRAY) <==> info.ty != vk::IMAGE_TYPE_3D
                && info.array_layer_count != 1 && !(cubes && info.array_layer_count == 6)
        }),
{
    let flags = info.flags;
    assert((flags & 0x10 != 0) == (flags & 0x10 == 0x10)) by (bit_vector);
}

/// The view of a whole image shows all of it: its format, and every aspect, layer and level.
pub proof fn views_show_the_whole_image(info: ImageInfo, layer: int, level: int)
    ensures
        ({
            let view = info.whole_view();
            let range = ImageSubresourceRange {
                aspect_mask: view.aspect_mask,
                base_mip_level: view.base_mip_level,
                level_count: view.mip_level_count,
                base_array_layer: view.base_array_layer,
                layer_count: view.array_layer_count,
            };
            &&& view.format == info.format
            &&& view.aspect_mask == aspects_of_format(info.format)
            &&& range.has_layer(layer) <==> 0 <= layer < info.array_layer_count
            &&& range.has_level(level) <==> 0 <= level < info.mip_level_count
            &&& range == info.whole_range()
        }),
{
}

/// Where a range stands for all that remains, its resolved form has every layer and level from its
/// first one on, and no more than the image; where it does not, it stays.
pub proof fn resolved_ranges_have_what_remains(
    info: ImageInfo,
    range: ImageSubresourceRange,
    layer: int,
    level: int,
)
    requires
        info.resolvable(range),
    ensures
        ({
            let resolved = info.resolved(range);
            &&& resolved.aspect_mask == range.aspect_mask
            &&& resolved.base_array_layer == range.base_array_layer
            &&& resolved.base_mip_level == range.base_mip_level
            &&& if range.layer_count == 0xffff_ffff {
                resolved.has_layer(layer) <==> range.base_array_layer <= layer
                    < info.array_layer_count
            } else {
                resolved.layer_count == range.layer_count
            }
            &&& if range.level_count == 0xffff_ffff {
                resolved.has_level(level) <==> range.base_mip_level <= level < info.mip_level_count
            } else {
                resolved.level_count == range.level_count
            }
        }),
{
}

/// The formats that have no color aspect are the ones from 124 to 130: those before 127 have a
/// depth aspect, those behind it have a depth and a stencil aspect, and 127 has a stencil aspect.
pub proof fn aspects_follow_formats(format: i32)
    ensures
        ({
            let aspects = aspects_of_format(format);
            &&& aspects & vk::IMAGE_ASPECT_COLOR != 0 <==> !(124 <= format <= 130)
            &&& aspects & vk::IMAGE_ASPECT_DEPTH != 0 <==> 124 <= format <= 130 && format != 127
            &&& aspects & vk::IMAGE_ASPECT_STENCIL != 0 <==> 127 <= format <= 130
            &&& depth_and_stencil(format) <==> 127 < format <= 130
        }),
{
    assert(2u32 | 4u32 == 6 && 1u32 & 1u32 == 1 && 1u32 & 2u32 == 0 && 1u32 & 4u32 == 0 && 2u32
        & 1u32 == 0 && 2u32 & 2u32 == 2 && 2u32 & 4u32 == 0 && 4u32 & 1u32 == 0 && 4u32 & 2u32 == 0
        && 4u32 & 4u32 == 4 && 6u32 & 1u32 == 0 && 6u32 & 2u32 == 2 && 6u32 & 4u32 == 4)
        by (bit_vector);
}

/// Sample counts are the powers of two up to 64, each twice the one before it, and the number of
/// samples tells the count.
pub proof fn sample_counts_double(a: SampleCount, b: SampleCount)
    ensures
        a.samples() == b.samples() <==> a == b,
        1 <= a.samples() <= 64,
        a.samples() == 1 || exists|half: SampleCount| 2 * #[trigger] half.samples() == a.samples(),
        a.samples() == 64 || exists|double: SampleCount| #[trigger] double.samples() == 2
            * a.samples(),
        a == SampleCount::Type1 <==> a.samples() == 1,
{
    assert(SampleCount::Type1.samples() == 1 && SampleCount::Type2.samples() == 2
        && SampleCount::Type4.samples() == 4 && SampleCount::Type8.samples() == 8
        && SampleCount::Type16.samples() == 16 && SampleCount::Type32.samples() == 32
        && SampleCount::Type64.samples() == 64);
}

/// A field that was set is built as it was set, whatever else was, and one that was not set has its
/// default.
pub proof fn image_info_fields_are_built_apart(builder: ImageInfoBuilder)
    ensures
        ({
            let built = builder.built();
            &&& builder.alloc_dedicated matches Some(value) ==> built.alloc_dedicated == value
            &&& builder.array_layer_count matches Some(value) ==> built.array_layer_count == value
            &&& builder.depth matches Some(value) ==> built.depth == value
            &&& builder.flags matches Some(value) ==> built.flags == value
            &&& builder.format matches Some(value) ==> built.format == value
            &&& builder.height matches Some(value) ==> built.height == value
            &&& builder.host_readable matches Some(value) ==> built.host_readable == value
            &&& builder.host_writable matches Some(value) ==> built.host_writable == value
            &&& builder.mip_level_count matches Some(value) ==> built.mip_level_count == value
            &&& builder.sample_count matches Some(value) ==> built.sample_count == value
            &&& builder.sharing_mode matches Some(value) ==> built.sharing_mode == value
            &&& builder.tiling matches Some(value) ==> built.tiling == value
            &&& builder.ty matches Some(value) ==> built.ty == value
            &&& builder.usage matches Some(value) ==> built.usage == value
            &&& builder.width matches Some(value) ==> built.width == value
            &&& builder.alloc_dedicated is None ==> !built.alloc_dedicated
            &&& builder.array_layer_count is None ==> built.array_layer_count == 1
            &&& builder.depth is None ==> built.depth == 0
            &&& builder.flags is None ==> built.flags == 0
            &&& builder.format is None ==> built.format == vk::FORMAT_UNDEFINED
            &&& builder.height is None ==> built.height == 0
            &&& builder.host_readable is None ==> !built.host_readable
            &&& builder.host_writable is None ==> !built.host_writable
            &&& builder.mip_level_count is None ==> built.mip_level_count == 1
            &&& builder.sample_count is None ==> built.sample_count == SampleCount::Type1
            &&& builder.sharing_mode is None ==> built.sharing_mode == vk::SHARING_MODE_EXCLUSIVE
            &&& builder.tiling is None ==> built.tiling == vk::IMAGE_TILING_OPTIMAL
            &&& builder.ty is None ==> built.ty == vk::IMAGE_TYPE_2D
            &&& builder.usage is None ==> built.usage == 0
            &&& builder.width is None ==> built.width == 0
        }),
{
}

/// A field that was set is built as it was set, whatever else was, and one that was not set has its
/// default.
pub proof fn image_view_info_fields_are_built_apart(builder: ImageViewInfoBuilder)
    ensures
        ({
            let built = builder.built();
            &&& builder.array_layer_count matches Some(value) ==> built.array_layer_count == value
            &&& builder.aspect_mask matches Some(value) ==> built.aspect_mask == value
            &&& builder.base_array_layer matches Some(value) ==> built.base_array_layer == value
            &&& builder.base_mip_level matches Some(value) ==> built.base_mip_level == value
            &&& builder.format matches Some(value) ==> built.format == value
            &&& builder.mip_level_count matches Some(value) ==> built.mip_level_count == value
            &&& builder.ty matches Some(value) ==> built.ty == value
            &&& builder.array_layer_count is None ==> built.array_layer_count
                == vk::REMAINING_ARRAY_LAYERS
            &&& builder.aspect_mask is None ==> built.aspect_mask == vk::IMAGE_ASPECT_COLOR
            &&& builder.base_array_layer is None ==> built.base_array_layer == 0
            &&& builder.base_mip_level is None ==> built.base_mip_level == 0
            &&& builder.format is None ==> built.format == vk::FORMAT_UNDEFINED
            &&& builder.mip_level_count is None ==> built.mip_level_count
                == vk::REMAINING_MIP_LEVELS
            &&& builder.ty is None ==> built.ty == vk::IMAGE_VIEW_TYPE_2D
        }),
{
}

/// An image is one of cubes just where its whole view is and its faces are square and flat. It stays
/// one with any more layers and levels, of any format and for any use.
pub proof fn cubes_have_square_faces(info: ImageInfo, more: u32)
    requires
        info.viewable(),
    ensures
        info.is_cube_image() <==> {
            &&& info.whole_view().ty == vk::IMAGE_VIEW_TYPE_CUBE || info.whole_view().ty
                == vk::IMAGE_VIEW_TYPE_CUBE_ARRAY
            &&& info.width == info.height
            &&& info.depth == 1
        },
        more >= info.array_layer_count && info.is_cube_image() ==> (ImageInfo {
            array_layer_count: more,
            ..info
        }).is_cube_image(),
        (ImageInfo { mip_level_count: more, ..info }).is_cube_image() == info.is_cube_image(),
        (ImageInfo { usage: more, ..info }).is_cube_image() == info.is_cube_image(),
{
}

/// An image that is described by its shape alone has that shape, one level, one sample and no flags.
pub proof fn plain_images_have_their_shape(
    ty: i32,
    width: u32,
    height: u32,
    depth: u32,
    layers: u32,
    format: i32,
    usage: u32,
)
    ensures
        ({
            let info = ImageInfo::plain(ty, width, height, depth, layers, format, usage);
            &&& info.ty == ty
            &&& info.width == width
            &&& info.height == height
            &&& info.depth == depth
            &&& info.array_layer_count == layers
            &&& info.format == format
            &&& info.usage == usage
            &&& info.mip_level_count == 1
            &&& info.sample_count.samples() == 1
            &&& info.flags == 0
            &&& !info.host_readable
            &&& !info.host_writable
        }),
{
}

} // verus!
