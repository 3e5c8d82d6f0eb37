//! A bare image on which access tracking is measured.

use crate::access::AccessType;
use crate::dense_map::subresource_count;
use crate::grid::Grid;
use crate::image::{accessed, resolves_in_image, same_grid, Image};
use crate::image_access::swap_blocks;
use crate::image_info::ImageInfo;
use crate::image_range::ImageSubresourceRange;
use crate::vk;
use vstd::prelude::*;

verus! {

/// The image that accesses are measured on.
pub open spec fn harness_info(layers: u32, mips: u32, format: i32) -> ImageInfo {
    ImageInfo {
        array_layer_count: layers,
        mip_level_count: mips,
        ..ImageInfo::plain(vk::IMAGE_TYPE_2D, 1, 1, 1, 1, format, 0)
    }
}

/// Swaps accesses of an image that has no native object.
#[derive(Debug)]
pub struct SwapAccessBenchHarness {
    image: Image,
}

impl SwapAccessBenchHarness {
    /// The image of the harness.
    pub closed spec fn info(&self) -> ImageInfo {
        self.image.info()
    }

    /// The access of each subresource.
    pub closed spec fn accesses(&self) -> Grid<AccessType> {
        self.image.accesses()
    }

    /// The tracked state fits the image.
    pub closed spec fn wf(&self) -> bool {
        self.image.wf()
    }

    /// A harness for a color, depth or stencil image of some layers and mip levels.
    pub fn new(layers: u32, mips: u32, format: i32) -> (harness: Self)
        requires
            subresource_count(harness_info(layers, mips, format)) <= u32::MAX,
        ensures
            harness.wf(),
            harness.info() == harness_info(layers, mips, format),
            same_grid(
                harness.accesses(),
                |a: int, l: int, m: int| AccessType::Nothing,
                harness.info(),
            ),
    {
        let info = ImageInfo::image_2d(1, 1, format, 0).into_builder().array_layer_count(
            layers,
        ).mip_level_count(mips).build();
        SwapAccessBenchHarness { image: Image::new(0, info) }
    }

    /// Keeps track of some access to a range, and returns the accesses that it had.
    pub fn swap_access(&mut self, next_access: AccessType, access_range: ImageSubresourceRange) -> (
    previous: Vec<(AccessType, ImageSubresourceRange)>)
        requires
            old(self).wf(),
            resolves_in_image(old(self).info(), access_range),
        ensures
            final(self).wf(),
            final(self).info() == old(self).info(),
            same_grid(
                final(self).accesses(),
                accessed(
                    old(self).accesses(),
                    old(self).info(),
                    next_access,
                    old(self).info().resolved(access_range),
                ),
                old(self).info(),
            ),
            previous@ == swap_blocks(
                old(self).accesses(),
                old(self).info(),
                old(self).info().resolved(access_range),
            ),
    {
        self.image.swap_access(next_access, access_range)
    }
}

} // verus!
