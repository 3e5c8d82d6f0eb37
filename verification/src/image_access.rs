//! Access tracking of images.

use crate::access::{
    access_codes_are_distinct, access_type_from_u8, access_type_into_u8, AccessType,
    ACCESS_TYPE_COUNT,
};
use crate::dense_map::{
    block_range, first_ordinal, format_aspect_count, grid_blocks, grid_window,
    lemma_format_aspect_count, lemma_same_blocks, lemma_same_grid_blocks, lemma_uniform_range,
    place_in_map, place_in_range, range_extent, range_fits, subresource_count, DenseMap,
    SubresourceValue,
};
use crate::grid::{
    blocks_are_disjoint, blocks_cover_grid, blocks_from, blocks_hold_values, blocks_lie_in_grid,
    in_block, inside, Block, Extent, Grid, Place,
};
use crate::image_info::{aspects_of_format, format_aspect_mask, ImageInfo};
use crate::image_range::{
    aspect_count, aspect_mask_at_ordinal, aspect_ordinal, count_bits, lemma_aspects_apart,
    lemma_supported_aspects, nth_bit, rank_of, supported_aspects, ImageSubresourceRange,
};
use crate::image_subresources::subresource_at;
use vstd::prelude::*;

verus! {

/// The numbers of aspects, array layers and mip levels of an image.
pub open spec fn image_extent(info: ImageInfo) -> Extent {
    (
        format_aspect_count(info.format) as int,
        info.array_layer_count as int,
        info.mip_level_count as int,
    )
}

/// Whether a range is a part of an image that is not empty.
pub open spec fn range_in_image(info: ImageInfo, range: ImageSubresourceRange) -> bool {
    &&& aspects_of_format(info.format) & range.aspect_mask == range.aspect_mask
    &&& range_fits(image_extent(info), range)
}

/// Whether a place of an image lies in a range.
pub open spec fn in_range(info: ImageInfo, range: ImageSubresourceRange, a: int, l: int, m: int) -> bool {
    inside(range_extent(range), place_in_range(image_extent(info), range, (a, l, m)))
}

/// The aspects that a range in an image can have, by their numbers.
proof fn lemma_range_aspects(info: ImageInfo, range: ImageSubresourceRange)
    requires
        range_in_image(info, range),
    ensures
        supported_aspects(aspects_of_format(info.format)),
        format_aspect_count(info.format) == count_bits(aspects_of_format(info.format), 0),
        ({
            let format = aspects_of_format(info.format);
            let mask = range.aspect_mask;
            &&& format == 1 || format == 2 || format == 4 || format == 6
            &&& mask == format || format == 6 && (mask == 2 || mask == 4)
        }),
{
    lemma_format_aspect_count(info.format);
    lemma_supported_aspects(range.aspect_mask);
    assert(2u32 | 4u32 == 6u32) by (bit_vector);
    lemma_supported_aspects(aspects_of_format(info.format));
    assert(1u32 & 2u32 == 0 && 1u32 & 4u32 == 0 && 1u32 & 6u32 == 0 && 2u32 & 1u32 == 0 && 2u32
        & 4u32 == 0 && 2u32 & 6u32 == 2 && 4u32 & 1u32 == 0 && 4u32 & 2u32 == 0 && 4u32 & 6u32 == 4
        && 6u32 & 1u32 == 0) by (bit_vector);
}

/// All places of an image lie in the range of all its subresources.
pub proof fn lemma_whole_range(
    info: ImageInfo,
    range: ImageSubresourceRange,
    a: int,
    l: int,
    m: int,
)
    requires
        range == info.whole_range() || range == info.resolved(info.whole_range()),
        range_in_image(info, range),
        inside(image_extent(info), (a, l, m)),
    ensures
        in_range(info, range, a, l, m),
{
    lemma_range_aspects(info, range);
    lemma_supported_aspects(range.aspect_mask);
}

/// The ordinal in an image of an aspect of a range.
pub proof fn lemma_ordinal(info: ImageInfo, range: ImageSubresourceRange, k: int)
    requires
        range_in_image(info, range),
        0 <= k < range_extent(range).0,
    ensures
        rank_of(aspects_of_format(info.format), 0, nth_bit(range.aspect_mask, 0, k as nat)) == Some(
            (first_ordinal(image_extent(info), range) + k) as nat,
        ),
        0 <= first_ordinal(image_extent(info), range) + k < image_extent(info).0,
{
    lemma_range_aspects(info, range);
    lemma_supported_aspects(range.aspect_mask);
    lemma_supported_aspects(aspects_of_format(info.format));
}

/// The access of an image with a single subresource.
#[derive(Debug)]
pub struct UniformAccess(u8);

impl UniformAccess {
    /// The access.
    pub closed spec fn access(self) -> AccessType {
        AccessType::of_code(self.0 as u64)
    }

    /// The state is the code of an access.
    pub closed spec fn wf(self) -> bool {
        self.0 < ACCESS_TYPE_COUNT
    }

    /// Starts with an access.
    pub fn new(access: AccessType) -> (state: Self)
        ensures
            state.wf(),
            state.access() == access,
    {
        proof {
            access_codes_are_distinct(access, access);
        }
        UniformAccess(access_type_into_u8(access))
    }

    /// Reads the access.
    pub fn load(&self) -> (access: AccessType)
        requires
            self.wf(),
        ensures
            access == self.access(),
    {
        access_type_from_u8(self.0)
    }

    /// Replaces the access, and returns the one that the range had.
    pub fn swap(&mut self, next_access: AccessType, access_range: ImageSubresourceRange) -> (
    previous: (AccessType, ImageSubresourceRange))
        requires
            old(self).wf(),
        ensures
            final(self).wf(),
            final(self).access() == next_access,
            previous == (old(self).access(), access_range),
    {
        proof {
            access_codes_are_distinct(next_access, next_access);
        }
        let previous: AccessType = access_type_from_u8(self.0);
        self.0 = access_type_into_u8(next_access);
        (previous, access_range)
    }
}

/// The accesses of an image with a depth and a stencil subresource.
#[derive(Debug)]
pub struct DualAspectAccess(u8, u8);

impl DualAspectAccess {
    /// The access of an aspect, by its ordinal.
    pub closed spec fn access(self, aspect: int) -> AccessType {
        AccessType::of_code(
            if aspect == 0 {
                self.0 as u64
            } else {
                self.1 as u64
            },
        )
    }

    /// The access of each subresource.
    pub open spec fn grid(self) -> Grid<AccessType> {
        |a: int, l: int, m: int| self.access(a)
    }

    /// The state is made of codes of accesses.
    pub closed spec fn wf(self) -> bool {
        self.0 < ACCESS_TYPE_COUNT && self.1 < ACCESS_TYPE_COUNT
    }

    /// Starts with the same access for both aspects.
    pub fn new(access: AccessType) -> (state: Self)
        ensures
            state.wf(),
            state.access(0) == access,
            state.access(1) == access,
    {
        proof {
            access_codes_are_distinct(access, access);
        }
        let code: u8 = access_type_into_u8(access);
        DualAspectAccess(code, code)
    }

    /// Reads the access of an aspect, by its ordinal.
    pub fn load(&self, aspect_idx: usize) -> (access: AccessType)
        requires
            self.wf(),
            aspect_idx < 2,
        ensures
            access == self.access(aspect_idx as int),
    {
        if aspect_idx == 0 {
            access_type_from_u8(self.0)
        } else {
            access_type_from_u8(self.1)
        }
    }

    /// Replaces the access of an aspect, and returns the one that it had.
    fn replace(&mut self, aspect_idx: usize, next_access: AccessType) -> (previous: AccessType)
        requires
            old(self).wf(),
            aspect_idx < 2,
        ensures
            final(self).wf(),
            previous == old(self).access(aspect_idx as int),
            final(self).access(aspect_idx as int) == next_access,
            final(self).access(1 - aspect_idx) == old(self).access(1 - aspect_idx),
    {
        proof {
            access_codes_are_distinct(next_access, next_access);
        }
        let previous: AccessType = self.load(aspect_idx);
        if aspect_idx == 0 {
            self.0 = access_type_into_u8(next_access);
        } else {
            self.1 = access_type_into_u8(next_access);
        }
        previous
    }

    /// Replaces the accesses of the aspects in a range, and returns those that they had, aspect by
    /// aspect.
    pub fn swap(
        &mut self,
        info: ImageInfo,
        next_access: AccessType,
        access_range: ImageSubresourceRange,
    ) -> (previous: Vec<(AccessType, ImageSubresourceRange)>)
        requires
            old(self).wf(),
            image_extent(info) == (2int, 1int, 1int),
            range_in_image(info, access_range),
        ensures
            final(self).wf(),
            forall|a: int|
                0 <= a < 2 ==> #[trigger] final(self).access(a) == (if in_range(
                    info,
                    access_range,
                    a,
                    0,
                    0,
                ) {
                    next_access
                } else {
                    old(self).access(a)
                }),
            previous@ == aspect_blocks(old(self).grid(), info, access_range),
    {
        let format_aspects: u32 = format_aspect_mask(info.format);
        let count: u8 = aspect_count(access_range.aspect_mask);
        let ghost base = first_ordinal(image_extent(info), access_range);
        proof {
            lemma_range_aspects(info, access_range);
            lemma_supported_aspects(access_range.aspect_mask);
            lemma_supported_aspects(format_aspects);
            lemma_supported_aspects(nth_bit(access_range.aspect_mask, 0, 0));
        }
        let mut previous: Vec<(AccessType, ImageSubresourceRange)> = Vec::new();
        let mut aspect: u8 = 0;
        while aspect < count
            invariant
                self.wf(),
                aspect <= count,
                count == range_extent(access_range).0,
                image_extent(info) == (2int, 1int, 1int),
                range_in_image(info, access_range),
                base == first_ordinal(image_extent(info), access_range),
                base + count <= 2,
                format_aspects == 6,
                access_range.aspect_mask == 6 || access_range.aspect_mask == 2
                    || access_range.aspect_mask == 4,
                access_range.aspect_mask != 6 ==> count == 1,
                nth_bit(access_range.aspect_mask, 0, 0) == (if access_range.aspect_mask == 6 {
                    2u32
                } else {
                    access_range.aspect_mask
                }),
                access_range.aspect_mask == 6 ==> nth_bit(access_range.aspect_mask, 0, 1) == 4,
                rank_of(6, 0, 2) == Some(0nat),
                rank_of(6, 0, 4) == Some(1nat),
                base == (if access_range.aspect_mask == 4 {
                    1int
                } else {
                    0
                }),
                forall|a: int|
                    0 <= a < 2 ==> #[trigger] self.access(a) == (if base <= a < base + aspect {
                        next_access
                    } else {
                        old(self).access(a)
                    }),
                previous@ == aspect_blocks(old(self).grid(), info, access_range).take(aspect as int),
            decreases count - aspect,
        {
            let bit: u32 = aspect_mask_at_ordinal(access_range.aspect_mask, aspect as u32);
            let range = ImageSubresourceRange { aspect_mask: bit, ..access_range };
            let aspect_idx: usize = aspect_ordinal(format_aspects, bit) as usize;
            assert(aspect_idx == base + aspect);
            let previous_access: AccessType = self.replace(aspect_idx, next_access);
            previous.push((previous_access, range));
            proof {
                let all = aspect_blocks(old(self).grid(), info, access_range);
                assert(all[aspect as int] == (previous_access, range));
                assert(previous@ =~= all.take(aspect + 1));
            }
            aspect += 1;
        }
        assert(previous@ =~= aspect_blocks(old(self).grid(), info, access_range));
        previous
    }
}

/// The accesses of the aspects in a range of an image with one array layer and mip level, aspect by
/// aspect.
pub open spec fn aspect_blocks(
    grid: Grid<AccessType>,
    info: ImageInfo,
    range: ImageSubresourceRange,
) -> Seq<(AccessType, ImageSubresourceRange)> {
    Seq::new(
        range_extent(range).0 as nat,
        |i: int|
            (
                grid(first_ordinal(image_extent(info), range) + i, 0, 0),
                ImageSubresourceRange {
                    aspect_mask: nth_bit(range.aspect_mask, 0, i as nat),
                    ..range
                },
            ),
    )
}

/// What replacing the accesses of a range returns: the accesses that it had, block by block, and
/// aspect by aspect where there is one depth and one stencil subresource.
pub open spec fn swap_blocks(
    grid: Grid<AccessType>,
    info: ImageInfo,
    range: ImageSubresourceRange,
) -> Seq<(AccessType, ImageSubresourceRange)> {
    if image_extent(info) == (2int, 1int, 1int) {
        aspect_blocks(grid, info, range)
    } else {
        grid_blocks(grid, image_extent(info), range)
    }
}

/// Grids with the same accesses report the same blocks.
pub proof fn lemma_same_swap_blocks(
    a: Grid<AccessType>,
    b: Grid<AccessType>,
    info: ImageInfo,
    range: ImageSubresourceRange,
)
    requires
        range_in_image(info, range),
        forall|x: int, l: int, m: int|
            inside(image_extent(info), (x, l, m)) ==> #[trigger] a(x, l, m) == b(x, l, m),
    ensures
        swap_blocks(a, info, range) == swap_blocks(b, info, range),
{
    lemma_range_aspects(info, range);
    lemma_supported_aspects(range.aspect_mask);
    lemma_supported_aspects(aspects_of_format(info.format));
    if image_extent(info) == (2int, 1int, 1int) {
        assert(aspect_blocks(a, info, range) =~= aspect_blocks(b, info, range));
    } else {
        lemma_same_grid_blocks(a, b, image_extent(info), range);
    }
}

/// The range of a block of a range has a place of the range exactly where the block has it.
proof fn lemma_block_range_contains(range: ImageSubresourceRange, block: Block, p: Place)
    requires
        supported_aspects(range.aspect_mask),
        range.bounded(),
        inside(range_extent(range), p),
        0 <= block.from.0 < block.to.0 <= range_extent(range).0,
        0 <= block.from.1 < block.to.1 <= range_extent(range).1,
        0 <= block.from.2 < block.to.2 <= range_extent(range).2,
    ensures
        range.contains(block_range(range, block)),
        block_range(range, block).contains(subresource_at(range, p)) == in_block(block, p),
{
    let mask = range.aspect_mask;
    lemma_supported_aspects(mask);
    lemma_aspects_apart(mask, block.from.0 as nat, p.0 as nat);
    lemma_aspects_apart(mask, p.0 as nat, block.from.0 as nat);
    assert(mask & mask == mask) by (bit_vector);
}

/// An access of a range is told of ranges inside it. Each subresource of the range is in exactly
/// one of them, paired with the access that the subresource had.
pub proof fn swap_is_exact(
    grid: Grid<AccessType>,
    info: ImageInfo,
    range: ImageSubresourceRange,
    p: Place,
)
    requires
        range_in_image(info, range),
        inside(range_extent(range), p),
    ensures
        ({
            let blocks = swap_blocks(grid, info, range);
            let at = subresource_at(range, p);
            let place = place_in_map(image_extent(info), range, p);
            &&& forall|i: int| 0 <= i < blocks.len() ==> range.contains((#[trigger] blocks[i]).1)
            &&& exists|i: int|
                0 <= i < blocks.len() && (#[trigger] blocks[i]).1.contains(at) && blocks[i].0
                    == grid(place.0, place.1, place.2) && forall|j: int|
                    0 <= j < blocks.len() && (#[trigger] blocks[j]).1.contains(at) ==> j == i
        }),
{
    let blocks = swap_blocks(grid, info, range);
    let at = subresource_at(range, p);
    let extent = range_extent(range);
    lemma_supported_aspects(range.aspect_mask);
    if image_extent(info) == (2int, 1int, 1int) {
        assert forall|j: int| 0 <= j < blocks.len() implies range.contains(
            (#[trigger] blocks[j]).1,
        ) && blocks[j].1.contains(at) == (j == p.0) by {
            lemma_aspects_apart(range.aspect_mask, j as nat, p.0 as nat);
        }
        assert(blocks[p.0].1.contains(at));
    } else {
        let window = grid_window(grid, image_extent(info), range);
        let inner = blocks_from(window, extent, (0, 0, 0));
        assert forall|j: int| 0 <= j < blocks.len() implies range.contains(
            (#[trigger] blocks[j]).1,
        ) && blocks[j].1.contains(at) == in_block(inner[j].1, p) by {
            blocks_lie_in_grid(window, extent, j);
            lemma_block_range_contains(range, inner[j].1, p);
        }
        blocks_cover_grid(window, extent, p);
        let i = choose|i: int| 0 <= i < inner.len() && in_block((#[trigger] inner[i]).1, p);
        blocks_hold_values(window, extent, i, p);
        assert(blocks[i].1.contains(at));
        assert forall|j: int|
            0 <= j < blocks.len() && (#[trigger] blocks[j]).1.contains(at) implies j == i by {
            if j < i {
                blocks_are_disjoint(window, extent, (0, 0, 0), j, i, p);
            } else if i < j {
                blocks_are_disjoint(window, extent, (0, 0, 0), i, j, p);
            }
        }
    }
}

/// Whether the access of an image with more subresources is held once, or for each of them.
#[derive(Clone, Copy, Debug, PartialEq, Eq, Structural)]
pub enum DenseAccessState {
    /// All subresources have the access that is held.
    Uniform,
    /// The map of subresources is being made.
    Promoting,
    /// The map of subresources holds their accesses.
    Dense,
}

/// An access and the way it is held, packed into one word: the state in the upper byte, and the
/// code of the access in the lower one.
#[derive(Debug)]
pub struct DenseAccess(u16);

/// The weight of the state in a packed word.
pub const STATE_WEIGHT: u16 = 256;

impl DenseAccess {
    /// The packed word.
    pub closed spec fn word(self) -> u16 {
        self.0
    }

    /// The access in the word.
    pub closed spec fn access(self) -> AccessType {
        AccessType::of_code((self.0 % STATE_WEIGHT) as u64)
    }

    /// The state in the word.
    pub closed spec fn spec_state(self) -> DenseAccessState {
        if self.0 / STATE_WEIGHT == 0 {
            DenseAccessState::Uniform
        } else if self.0 / STATE_WEIGHT == 1 {
            DenseAccessState::Promoting
        } else {
            DenseAccessState::Dense
        }
    }

    /// The word holds a state and the code of an access.
    pub closed spec fn wf(self) -> bool {
        self.0 / STATE_WEIGHT <= 2 && self.0 % STATE_WEIGHT < ACCESS_TYPE_COUNT
    }

    /// Starts with one access for all subresources.
    pub fn new(access: AccessType) -> (state: Self)
        ensures
            state.wf(),
            state.access() == access,
            state.spec_state() == DenseAccessState::Uniform,
            state.word() == access.code(),
    {
        proof {
            access_codes_are_distinct(access, access);
        }
        DenseAccess(access_type_into_u8(access) as u16)
    }

    /// Reads the access in the word.
    pub fn load(&self) -> (access: AccessType)
        requires
            self.wf(),
        ensures
            access == self.access(),
    {
        access_type_from_u8((self.0 % STATE_WEIGHT) as u8)
    }

    /// Reads the state in the word.
    pub fn state(&self) -> (state: DenseAccessState)
        requires
            self.wf(),
        ensures
            state == self.spec_state(),
    {
        if self.0 / STATE_WEIGHT == 0 {
            DenseAccessState::Uniform
        } else if self.0 / STATE_WEIGHT == 1 {
            DenseAccessState::Promoting
        } else {
            DenseAccessState::Dense
        }
    }

    /// Whether the map of subresources holds their accesses.
    pub fn is_dense_active(&self) -> (active: bool)
        requires
            self.wf(),
        ensures
            active == (self.spec_state() == DenseAccessState::Dense),
    {
        self.state() == DenseAccessState::Dense
    }

    /// Whether the access is not held once for all subresources.
    pub fn uses_dense(&self) -> (uses: bool)
        requires
            self.wf(),
        ensures
            uses == (self.spec_state() != DenseAccessState::Uniform),
    {
        self.state() != DenseAccessState::Uniform
    }

    /// Says that the map of subresources holds their accesses, and keeps the access in the word.
    pub fn set_dense(&mut self)
        requires
            old(self).wf(),
        ensures
            final(self).wf(),
            final(self).access() == old(self).access(),
            final(self).spec_state() == DenseAccessState::Dense,
    {
        self.0 = self.0 % STATE_WEIGHT + 2 * STATE_WEIGHT;
    }

    /// Says that the map of subresources is being made, and keeps the access in the word.
    pub fn set_promoting(&mut self)
        requires
            old(self).wf(),
        ensures
            final(self).wf(),
            final(self).access() == old(self).access(),
            final(self).spec_state() == DenseAccessState::Promoting,
    {
        self.0 = self.0 % STATE_WEIGHT + STATE_WEIGHT;
    }

    /// Holds one access for all subresources.
    pub fn set_uniform(&mut self, next_access: AccessType)
        ensures
            final(self).wf(),
            final(self).access() == next_access,
            final(self).spec_state() == DenseAccessState::Uniform,
    {
        proof {
            access_codes_are_distinct(next_access, next_access);
        }
        self.0 = access_type_into_u8(next_access) as u16;
    }

    /// Replaces the access of all subresources, and returns the one that they had.
    pub fn swap_range(&mut self, next_access: AccessType, access_range: ImageSubresourceRange) -> (
    previous: (AccessType, ImageSubresourceRange))
        requires
            old(self).wf(),
        ensures
            final(self).wf(),
            final(self).access() == next_access,
            final(self).spec_state() == DenseAccessState::Uniform,
            previous == (old(self).access(), access_range),
    {
        let previous: AccessType = self.load();
        self.set_uniform(next_access);
        (previous, access_range)
    }

    /// Makes the map of subresources where it is not there yet; they all have the access that was
    /// held for them.
    pub fn ensure_dense(&mut self, dense: &mut Option<DenseMap<AccessType>>, info: ImageInfo)
        requires
            old(self).wf(),
            subresource_count(info) <= u32::MAX,
            old(self).spec_state() == DenseAccessState::Dense ==> dense_fits(*old(dense), info),
        ensures
            final(self).wf(),
            final(self).spec_state() == DenseAccessState::Dense,
            dense_fits(*final(dense), info),
            old(self).spec_state() == DenseAccessState::Dense ==> *final(dense) == *old(dense),
            old(self).spec_state() != DenseAccessState::Dense ==> forall|a: int, l: int, m: int|
                inside(image_extent(info), (a, l, m)) ==> #[trigger] final(dense)->0.at(a, l, m)
                    == old(self).access(),
    {
        if self.is_dense_active() {
            return;
        }
        self.set_promoting();
        let current: AccessType = self.load();
        *dense = Some(DenseMap::new(info, current));
        self.set_dense();
    }

    /// Goes back to one access where all subresources have the same.
    pub fn try_demote_to_uniform(&mut self, dense: &mut Option<DenseMap<AccessType>>)
        requires
            old(self).wf(),
            old(self).spec_state() == DenseAccessState::Dense ==> *old(dense) is Some
                && old(dense)->0.wf(),
        ensures
            final(self).wf(),
            old(self).spec_state() != DenseAccessState::Dense ==> *final(self) == *old(self)
                && *final(dense) == *old(dense),
            old(self).spec_state() == DenseAccessState::Dense ==> if is_constant(old(dense)->0) {
                &&& final(self).spec_state() == DenseAccessState::Uniform
                &&& final(self).access() == old(dense)->0.at(0, 0, 0)
                &&& *final(dense) is None
            } else {
                *final(self) == *old(self) && *final(dense) == *old(dense)
            },
    {
        if self.state() != DenseAccessState::Dense {
            return;
        }
        proof {
            dense->0.lemma_wf();
            assert(inside(dense->0.extent(), (0, 0, 0)) ==> dense->0.at(0, 0, 0) == dense->0.at(
                0,
                0,
                0,
            ));
        }
        let uniform: Option<AccessType> = match dense {
            Some(map) => map.uniform_value(),
            None => None,
        };
        if let Some(access) = uniform {
            *dense = None;
            self.set_uniform(access);
        }
    }

    /// The access of each subresource.
    pub open spec fn grid(self, dense: Option<DenseMap<AccessType>>) -> Grid<AccessType> {
        if self.spec_state() == DenseAccessState::Uniform {
            |a: int, l: int, m: int| self.access()
        } else {
            |a: int, l: int, m: int| dense->0.at(a, l, m)
        }
    }

    /// A map of accesses is there exactly where one is used.
    pub open spec fn fits(self, dense: Option<DenseMap<AccessType>>, info: ImageInfo) -> bool {
        &&& self.wf()
        &&& self.spec_state() != DenseAccessState::Promoting
        &&& self.spec_state() == DenseAccessState::Uniform ==> dense is None
        &&& self.spec_state() == DenseAccessState::Dense ==> dense_fits(dense, info)
    }

    /// Replaces the accesses of a range in the map of subresources, and returns those that it had.
    fn swap_subresources(
        &mut self,
        dense: &mut Option<DenseMap<AccessType>>,
        info: ImageInfo,
        next_access: AccessType,
        access_range: ImageSubresourceRange,
    ) -> (previous: Vec<(AccessType, ImageSubresourceRange)>)
        requires
            subresource_count(info) <= u32::MAX,
            old(self).fits(*old(dense), info),
            range_in_image(info, access_range),
        ensures
            final(self).fits(*final(dense), info),
            forall|a: int, l: int, m: int|
                inside(image_extent(info), (a, l, m)) ==> #[trigger] final(self).grid(
                    *final(dense),
                )(a, l, m) == (if in_range(info, access_range, a, l, m) {
                    next_access
                } else {
                    old(self).grid(*old(dense))(a, l, m)
                }),
            previous@ == grid_blocks(
                old(self).grid(*old(dense)),
                image_extent(info),
                access_range,
            ),
            final(self).spec_state() == DenseAccessState::Uniform <==> forall|
                a: int,
                l: int,
                m: int,
            |
                inside(image_extent(info), (a, l, m)) ==> #[trigger] final(self).grid(
                    *final(dense),
                )(a, l, m) == next_access,
    {
        let ghost grid = self.grid(*dense);
        let ghost extent = image_extent(info);
        self.ensure_dense(dense, info);
        let ghost before = dense->0;
        proof {
            assert forall|a: int, l: int, m: int|
                inside(extent, (a, l, m)) implies #[trigger] before.at(a, l, m) == grid(a, l, m) by {}
            lemma_same_blocks(before, grid, access_range);
        }
        let mut previous: Vec<(AccessType, ImageSubresourceRange)> = Vec::new();
        if let Some(map) = dense {
            previous = map.swap(next_access, access_range);
        }
        let ghost after = dense->0;
        let ghost first = (
            first_ordinal(extent, access_range),
            access_range.base_array_layer as int,
            access_range.base_mip_level as int,
        );
        proof {
            lemma_range_aspects(info, access_range);
            lemma_supported_aspects(access_range.aspect_mask);
            lemma_supported_aspects(aspects_of_format(info.format));
            assert(inside(extent, first));
            assert(in_range(info, access_range, first.0, first.1, first.2));
            assert(after.at(first.0, first.1, first.2) == next_access);
            assert(inside(extent, (0, 0, 0)));
        }
        self.try_demote_to_uniform(dense);
        proof {
            if is_constant(after) {
                assert(after.at(0, 0, 0) == next_access);
                assert forall|a: int, l: int, m: int| inside(extent, (a, l, m)) implies
                    #[trigger] self.grid(*dense)(a, l, m) == (if in_range(
                    info,
                    access_range,
                    a,
                    l,
                    m,
                ) {
                    next_access
                } else {
                    grid(a, l, m)
                }) by {
                    assert(after.at(a, l, m) == next_access);
                }
            } else {
                assert forall|a: int, l: int, m: int| inside(extent, (a, l, m)) implies
                    #[trigger] self.grid(*dense)(a, l, m) == (if in_range(
                    info,
                    access_range,
                    a,
                    l,
                    m,
                ) {
                    next_access
                } else {
                    grid(a, l, m)
                }) by {
                    assert(after.at(a, l, m) == self.grid(*dense)(a, l, m));
                }
                let (a, l, m) = choose|a: int, l: int, m: int|
                    inside(extent, (a, l, m)) && #[trigger] after.at(a, l, m) != after.at(0, 0, 0);
                assert(self.grid(*dense)(a, l, m) == after.at(a, l, m));
                assert(self.grid(*dense)(0, 0, 0) == after.at(0, 0, 0));
            }
        }
        previous
    }
}

/// Whether a map is there, and is one of an image.
pub open spec fn dense_fits<V: SubresourceValue>(
    dense: Option<DenseMap<V>>,
    info: ImageInfo,
) -> bool {
    &&& dense is Some
    &&& dense->0.wf()
    &&& dense->0.extent() == image_extent(info)
}

/// Whether all subresources of a map have the same value, and there are some.
pub open spec fn is_constant(map: DenseMap<AccessType>) -> bool {
    &&& map.extent().1 > 0 && map.extent().2 > 0
    &&& forall|a: int, l: int, m: int|
        inside(map.extent(), (a, l, m)) ==> #[trigger] map.at(a, l, m) == map.at(0, 0, 0)
}

/// How the accesses of an image's subresources are held.
#[derive(Debug)]
pub enum Access {
    /// For many subresources.
    Dense(DenseAccess),
    /// For one depth and one stencil subresource.
    DualAspect(DualAspectAccess),
    /// For a single subresource.
    Uniform(UniformAccess),
}

impl Access {
    /// The access of each subresource, by the ordinal of its aspect, its array layer and mip
    /// level.
    pub open spec fn grid(self, dense: Option<DenseMap<AccessType>>) -> Grid<AccessType> {
        match self {
            Access::Uniform(uniform) => |a: int, l: int, m: int| uniform.access(),
            Access::DualAspect(dual) => dual.grid(),
            Access::Dense(access) => access.grid(dense),
        }
    }

    /// Whether one access is held for all subresources.
    pub open spec fn is_uniform(self) -> bool {
        match self {
            Access::Uniform(_) => true,
            Access::DualAspect(_) => false,
            Access::Dense(access) => access.spec_state() == DenseAccessState::Uniform,
        }
    }

    /// The accesses are held in the way that suits the image, and a map of them is there exactly
    /// where one is used.
    pub open spec fn wf(self, dense: Option<DenseMap<AccessType>>, info: ImageInfo) -> bool {
        &&& subresource_count(info) <= u32::MAX
        &&& match self {
            Access::Uniform(uniform) => image_extent(info) == (1int, 1int, 1int) && uniform.wf()
                && dense is None,
            Access::DualAspect(dual) => image_extent(info) == (2int, 1int, 1int) && dual.wf()
                && dense is None,
            Access::Dense(access) => {
                &&& image_extent(info) != (1int, 1int, 1int)
                &&& image_extent(info) != (2int, 1int, 1int)
                &&& access.fits(dense, info)
            },
        }
    }

    /// Starts with one access for all subresources.
    pub fn new(info: ImageInfo, access: AccessType) -> (state: Self)
        requires
            subresource_count(info) <= u32::MAX,
        ensures
            state.wf(None, info),
            forall|a: int, l: int, m: int|
                inside(image_extent(info), (a, l, m)) ==> #[trigger] state.grid(None)(a, l, m)
                    == access,
            state.is_uniform() == (image_extent(info) != (2int, 1int, 1int)),
    {
        let aspect_mask: u32 = format_aspect_mask(info.format);
        proof {
            lemma_supported_aspects(aspect_mask);
            lemma_format_aspect_count(info.format);
        }
        let aspect_count: u8 = aspect_count(aspect_mask);
        if aspect_count == 1 && info.array_layer_count == 1 && info.mip_level_count == 1 {
            Access::Uniform(UniformAccess::new(access))
        } else if aspect_count == 2 && info.array_layer_count == 1 && info.mip_level_count == 1 {
            Access::DualAspect(DualAspectAccess::new(access))
        } else {
            Access::Dense(DenseAccess::new(access))
        }
    }

    /// Replaces the accesses of a range, and returns those that it had: block by block, and aspect
    /// by aspect where there is one depth and one stencil subresource.
    pub fn swap(
        &mut self,
        dense: &mut Option<DenseMap<AccessType>>,
        info: ImageInfo,
        next_access: AccessType,
        access_range: ImageSubresourceRange,
    ) -> (previous: Vec<(AccessType, ImageSubresourceRange)>)
        requires
            old(self).wf(*old(dense), info),
            range_in_image(info, access_range),
        ensures
            final(self).wf(*final(dense), info),
            forall|a: int, l: int, m: int|
                inside(image_extent(info), (a, l, m)) ==> #[trigger] final(self).grid(
                    *final(dense),
                )(a, l, m) == (if in_range(info, access_range, a, l, m) {
                    next_access
                } else {
                    old(self).grid(*old(dense))(a, l, m)
                }),
            previous@ == swap_blocks(old(self).grid(*old(dense)), info, access_range),
            (*old(self) is Uniform) == (*final(self) is Uniform),
            (*old(self) is DualAspect) == (*final(self) is DualAspect),
            *final(self) matches Access::Dense(access) ==> (access.spec_state()
                == DenseAccessState::Uniform <==> forall|a: int, l: int, m: int|
                inside(image_extent(info), (a, l, m)) ==> #[trigger] final(self).grid(
                    *final(dense),
                )(a, l, m) == next_access),
    {
        let ghost grid = self.grid(*dense);
        let ghost extent = image_extent(info);
        proof {
            lemma_range_aspects(info, access_range);
            lemma_supported_aspects(access_range.aspect_mask);
            lemma_supported_aspects(aspects_of_format(info.format));
        }
        match self {
            Access::Uniform(uniform) => {
                let mut previous: Vec<(AccessType, ImageSubresourceRange)> = Vec::new();
                proof {
                    lemma_uniform_range(grid, extent, access_range, uniform.access());
                }
                previous.push(uniform.swap(next_access, access_range));
                previous
            },
            Access::DualAspect(dual) => dual.swap(info, next_access, access_range),
            Access::Dense(access) => {
                if !access.uses_dense() && info.is_full_subresource_range(access_range) {
                    let mut previous: Vec<(AccessType, ImageSubresourceRange)> = Vec::new();
                    proof {
                        lemma_uniform_range(grid, extent, access_range, access.access());
                    }
                    previous.push(access.swap_range(next_access, access_range));
                    assert(forall|a: int, l: int, m: int|
                        inside(extent, (a, l, m)) ==> in_range(info, access_range, a, l, m));
                    return previous;
                }
                access.swap_subresources(dense, info, next_access, access_range)
            },
        }
    }
}

/// A place of an image lies in a range just where the range has its aspect, its array layer and its
/// mip level.
pub proof fn places_lie_in_ranges_by_parts(
    info: ImageInfo,
    range: ImageSubresourceRange,
    a: int,
    l: int,
    m: int,
)
    requires
        range_in_image(info, range),
        inside(image_extent(info), (a, l, m)),
    ensures
        in_range(info, range, a, l, m) <==> {
            &&& range.has_layer(l)
            &&& range.has_level(m)
            &&& range.aspect_mask & nth_bit(aspects_of_format(info.format), 0, a as nat) != 0
        },
{
    lemma_range_aspects(info, range);
    lemma_supported_aspects(range.aspect_mask);
    lemma_supported_aspects(aspects_of_format(info.format));
    assert(1u32 & 1u32 == 1 && 2u32 & 2u32 == 2 && 4u32 & 4u32 == 4 && 2u32 & 4u32 == 0 && 4u32
        & 2u32 == 0 && 6u32 & 2u32 == 2 && 6u32 & 4u32 == 4) by (bit_vector);
}

/// A range is a part of an image just where it is not empty and has no aspect, array layer or mip
/// level that the image has not.
pub proof fn ranges_are_parts_by_parts(info: ImageInfo, range: ImageSubresourceRange)
    requires
        supported_aspects(range.aspect_mask),
    ensures
        range_in_image(info, range) <==> {
            &&& range.layer_count > 0
            &&& range.level_count > 0
            &&& range.aspect_mask & !aspects_of_format(info.format) == 0
            &&& forall|layer: int| #[trigger]
                range.has_layer(layer) ==> 0 <= layer < info.array_layer_count
            &&& forall|level: int| #[trigger]
                range.has_level(level) ==> 0 <= level < info.mip_level_count
        },
{
    let mask = range.aspect_mask;
    let format = aspects_of_format(info.format);
    assert((format & mask == mask) <==> (mask & !format == 0)) by (bit_vector);
    assert(2u32 | 4u32 == 6u32) by (bit_vector);
    lemma_format_aspect_count(info.format);
    lemma_supported_aspects(mask);
    lemma_supported_aspects(format);
    assert(1u32 & 6u32 == 0 && 2u32 & 6u32 == 2 && 4u32 & 6u32 == 4) by (bit_vector);
    if range.layer_count > 0 {
        assert(range.has_layer(range.base_array_layer + range.layer_count - 1));
    }
    if range.level_count > 0 {
        assert(range.has_level(range.base_mip_level + range.level_count - 1));
    }
}

/// An image has as many subresources as places.
pub proof fn subresources_are_places(info: ImageInfo)
    ensures
        subresource_count(info) == crate::image_subresources::place_count(image_extent(info)),
{
    let (a, l, m) = image_extent(info);
    assert(a * (l * m) == a * l * m) by (nonlinear_arith);
    assert(info.array_layer_count as nat * info.mip_level_count as nat == l * m);
}

} // verus!
