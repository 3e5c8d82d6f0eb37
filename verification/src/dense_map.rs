//! Maps from image subresources to values.

use crate::access::AccessType;
use crate::grid::{
    aspect_end, aspect_holds, block_at, blocks_from, inside, layer_end, layer_holds, layer_stop,
    lemma_blocks_agree, lemma_place_after, mip_end, mip_stop, place_after, precedes, standing,
    Block, Extent, Grid, Place,
};
use crate::image_info::{aspects_of_format, depth_and_stencil, format_aspect_mask, ImageInfo};
use crate::image_range::{
    aspect_count, count_bits, lemma_supported_aspects, supported_aspects, ImageSubresourceRange,
};
use crate::sharing::SharingMode;
use crate::vk;
use vstd::prelude::*;

verus! {

/// A value that can be kept for each subresource of an image.
pub trait SubresourceValue: Copy {
    /// Whether two values are the same.
    fn is_same_value(self, other: Self) -> (same: bool)
        ensures
            same == (self == other),
    ;
}

impl SubresourceValue for AccessType {
    fn is_same_value(self, other: Self) -> (same: bool) {
        self == other
    }
}

impl SubresourceValue for SharingMode {
    fn is_same_value(self, other: Self) -> (same: bool) {
        self.is_same(other)
    }
}

/// The number of aspects of images of a format.
pub open spec fn format_aspect_count(format: i32) -> nat {
    if depth_and_stencil(format) {
        2
    } else {
        1
    }
}

/// The number of aspects of a format is that of the bits of its mask.
pub proof fn lemma_format_aspect_count(format: i32)
    ensures
        format_aspect_count(format) == count_bits(aspects_of_format(format), 0),
{
    assert(2u32 | 4u32 == 6u32) by (bit_vector);
    lemma_supported_aspects(aspects_of_format(format));
}

/// The number of subresources of an image.
pub open spec fn subresource_count(info: ImageInfo) -> nat {
    format_aspect_count(info.format) * (info.array_layer_count as nat * info.mip_level_count
        as nat)
}

/// Where the value of a place is stored in a map of an extent.
pub open spec fn index_of(extent: Extent, place: Place) -> int {
    (place.1 * extent.2 + place.2) * extent.0 + place.0
}

proof fn lemma_index_in_bounds(extent: Extent, place: Place)
    requires
        inside(extent, place),
    ensures
        0 <= index_of(extent, place) < extent.0 * (extent.1 * extent.2),
        0 <= place.1 * extent.0 <= extent.0 * (extent.1 * extent.2),
        0 <= place.1 * extent.0 * extent.2 <= extent.0 * (extent.1 * extent.2),
        0 <= place.2 * extent.0 <= extent.0 * (extent.1 * extent.2),
        place.1 * extent.0 * extent.2 + place.2 * extent.0 + place.0 == index_of(extent, place),
{
    let (a, l, m) = place;
    let (aspects, layers, levels) = extent;
    assert(l * levels + m < layers * levels) by (nonlinear_arith)
        requires
            0 <= l < layers,
            0 <= m < levels,
    ;
    assert(0 <= l * levels + m) by (nonlinear_arith)
        requires
            0 <= l,
            0 <= m < levels,
    ;
    let row = l * levels + m;
    let rows = layers * levels;
    assert(0 <= row * aspects + a < aspects * rows) by (nonlinear_arith)
        requires
            0 <= a < aspects,
            0 <= row < rows,
    ;
    assert(l * aspects * levels + m * aspects + a == (l * levels + m) * aspects + a)
        by (nonlinear_arith);
    assert(0 <= l * aspects <= aspects * (layers * levels)) by (nonlinear_arith)
        requires
            0 <= l < layers,
            0 < levels,
            0 < aspects,
    ;
    assert(0 <= l * aspects * levels <= aspects * (layers * levels)) by (nonlinear_arith)
        requires
            0 <= l < layers,
            0 < levels,
            0 < aspects,
    ;
    assert(0 <= m * aspects <= aspects * (layers * levels)) by (nonlinear_arith)
        requires
            0 <= m < levels,
            0 < layers,
            0 < aspects,
    ;
}

proof fn lemma_index_injective(extent: Extent, p: Place, q: Place)
    requires
        inside(extent, p),
        inside(extent, q),
        index_of(extent, p) == index_of(extent, q),
    ensures
        p == q,
{
    lemma_row_injective(extent.0, p.1 * extent.2 + p.2, p.0, q.1 * extent.2 + q.2, q.0);
    lemma_row_injective(extent.2, p.1, p.2, q.1, q.2);
}

proof fn lemma_row_injective(width: int, row: int, column: int, other_row: int, other_column: int)
    requires
        0 <= column < width,
        0 <= other_column < width,
        row * width + column == other_row * width + other_column,
    ensures
        row == other_row,
        column == other_column,
{
    if row < other_row {
        assert((row + 1) * width <= other_row * width) by (nonlinear_arith)
            requires
                row + 1 <= other_row,
                0 < width,
        ;
        assert((row + 1) * width == row * width + width) by (nonlinear_arith);
    } else if other_row < row {
        assert((other_row + 1) * width <= row * width) by (nonlinear_arith)
            requires
                other_row + 1 <= row,
                0 < width,
        ;
        assert((other_row + 1) * width == other_row * width + width) by (nonlinear_arith);
    }
}

/// A map that holds a value for each subresource of an image.
#[derive(Debug)]
pub struct DenseMap<V> {
    array_layer_count: u32,
    aspect_count: u8,
    mip_level_count: u32,
    values: Vec<V>,
}

impl<V: SubresourceValue> DenseMap<V> {
    /// The numbers of aspects, array layers and mip levels.
    pub closed spec fn extent(self) -> Extent {
        (self.aspect_count as int, self.array_layer_count as int, self.mip_level_count as int)
    }

    /// The value of a subresource, by the ordinal of its aspect, its array layer and mip level.
    pub closed spec fn at(self, a: int, l: int, m: int) -> V {
        self.values@[index_of(self.extent(), (a, l, m))]
    }

    /// There is one value for each subresource, and there are no more than can be numbered.
    pub closed spec fn wf(self) -> bool {
        &&& 1 <= self.aspect_count <= 2
        &&& self.values@.len() == self.aspect_count * (self.array_layer_count
            * self.mip_level_count)
        &&& self.values@.len() <= u32::MAX
    }

    /// What well-formed maps are like.
    pub proof fn lemma_wf(self)
        requires
            self.wf(),
        ensures
            1 <= self.extent().0 <= 2,
            0 <= self.extent().1 <= u32::MAX,
            0 <= self.extent().2 <= u32::MAX,
    {
    }

    /// Creates a map in which every subresource has the same value.
    pub fn new(info: ImageInfo, value: V) -> (map: Self)
        requires
            subresource_count(info) <= u32::MAX,
        ensures
            map.wf(),
            map.extent() == (
                format_aspect_count(info.format) as int,
                info.array_layer_count as int,
                info.mip_level_count as int,
            ),
            forall|a: int, l: int, m: int|
                inside(map.extent(), (a, l, m)) ==> #[trigger] map.at(a, l, m) == value,
    {
        let aspect_mask: u32 = format_aspect_mask(info.format);
        proof {
            lemma_supported_aspects(aspect_mask);
            lemma_format_aspect_count(info.format);
        }
        let aspect_count: u8 = aspect_count(aspect_mask);
        let layers: u64 = info.array_layer_count as u64;
        let levels: u64 = info.mip_level_count as u64;
        proof {
            assert(layers * levels <= 0xffff_ffff * 0xffff_ffff) by (nonlinear_arith)
                requires
                    layers <= 0xffff_ffff,
                    levels <= 0xffff_ffff,
            ;
            assert(aspect_count * (layers * levels) >= layers * levels) by (nonlinear_arith)
                requires
                    aspect_count >= 1,
                    layers * levels >= 0,
            ;
            assert(layers * levels >= 0) by (nonlinear_arith);
            assert(0 <= layers * levels <= u32::MAX);
        }
        let rows: u64 = layers * levels;
        let count: u64 = aspect_count as u64 * rows;
        let mut values: Vec<V> = Vec::new();
        let mut filled: u64 = 0;
        while filled < count
            invariant
                filled <= count,
                values@.len() == filled,
                forall|i: int| 0 <= i < filled ==> values@[i] == value,
            decreases count - filled,
        {
            values.push(value);
            filled += 1;
        }
        let map = DenseMap {
            array_layer_count: info.array_layer_count,
            aspect_count,
            mip_level_count: info.mip_level_count,
            values,
        };
        proof {
            assert forall|a: int, l: int, m: int|
                inside(map.extent(), (a, l, m)) implies #[trigger] map.at(a, l, m) == value by {
                lemma_index_in_bounds(map.extent(), (a, l, m));
            }
        }
        map
    }

    /// The ordinal of the first aspect of a range.
    pub fn base_aspect_ordinal(&self, aspect_mask: u32) -> (ordinal: u8)
        ensures
            ordinal == (if self.extent().0 == 2 && aspect_mask == vk::IMAGE_ASPECT_STENCIL {
                1u8
            } else {
                0u8
            }),
    {
        if self.aspect_count == 2 && aspect_mask == vk::IMAGE_ASPECT_STENCIL {
            1
        } else {
            0
        }
    }

    /// Where the value of a subresource is stored.
    pub fn idx(&self, aspect: u8, array_layer: u32, mip_level: u32) -> (idx: usize)
        requires
            self.wf(),
            inside(self.extent(), (aspect as int, array_layer as int, mip_level as int)),
        ensures
            idx == index_of(
                self.extent(),
                (aspect as int, array_layer as int, mip_level as int),
            ),
    {
        proof {
            lemma_index_in_bounds(
                self.extent(),
                (aspect as int, array_layer as int, mip_level as int),
            );
        }
        let aspects: u32 = self.aspect_count as u32;
        (array_layer * aspects * self.mip_level_count + mip_level * aspects + aspect as u32) as usize
    }

    /// The value of a subresource.
    pub fn subresource(&self, aspect: u8, array_layer: u32, mip_level: u32) -> (value: V)
        requires
            self.wf(),
            inside(self.extent(), (aspect as int, array_layer as int, mip_level as int)),
        ensures
            value == self.at(aspect as int, array_layer as int, mip_level as int),
    {
        proof {
            lemma_index_in_bounds(
                self.extent(),
                (aspect as int, array_layer as int, mip_level as int),
            );
        }
        let idx: usize = self.idx(aspect, array_layer, mip_level);
        self.values[idx]
    }

    /// Replaces the value of a subresource.
    fn set_subresource(&mut self, aspect: u8, array_layer: u32, mip_level: u32, value: V)
        requires
            old(self).wf(),
            inside(old(self).extent(), (aspect as int, array_layer as int, mip_level as int)),
        ensures
            final(self).wf(),
            final(self).extent() == old(self).extent(),
            forall|a: int, l: int, m: int|
                inside(old(self).extent(), (a, l, m)) ==> #[trigger] final(self).at(a, l, m) == (if (
                    a,
                    l,
                    m,
                ) == (aspect as int, array_layer as int, mip_level as int) {
                    value
                } else {
                    old(self).at(a, l, m)
                }),
    {
        let ghost place = (aspect as int, array_layer as int, mip_level as int);
        let ghost extent = self.extent();
        proof {
            lemma_index_in_bounds(extent, place);
        }
        let idx: usize = self.idx(aspect, array_layer, mip_level);
        self.values.set(idx, value);
        proof {
            assert forall|a: int, l: int, m: int|
                inside(extent, (a, l, m)) implies #[trigger] self.at(a, l, m) == (if (a, l, m)
                == place {
                value
            } else {
                old(self).at(a, l, m)
            }) by {
                lemma_index_in_bounds(extent, (a, l, m));
                if (a, l, m) != place && index_of(extent, (a, l, m)) == idx {
                    lemma_index_injective(extent, (a, l, m), place);
                }
            }
        }
    }

    /// The value that all subresources have, where they all have the same.
    pub fn uniform_value(&self) -> (uniform: Option<V>)
        requires
            self.wf(),
        ensures
            match uniform {
                Some(value) => {
                    &&& self.extent().1 > 0 && self.extent().2 > 0
                    &&& forall|a: int, l: int, m: int|
                        inside(self.extent(), (a, l, m)) ==> #[trigger] self.at(a, l, m) == value
                },
                None => self.extent().1 == 0 || self.extent().2 == 0 || !(forall|
                    a: int,
                    l: int,
                    m: int,
                |
                    inside(self.extent(), (a, l, m)) ==> #[trigger] self.at(a, l, m) == self.at(
                        0,
                        0,
                        0,
                    )),
            },
    {
        if self.values.len() == 0 {
            proof {
                let aspects = self.aspect_count as int;
                let layers = self.array_layer_count as int;
                let levels = self.mip_level_count as int;
                assert(layers == 0 || levels == 0) by (nonlinear_arith)
                    requires
                        aspects * (layers * levels) == 0,
                        aspects >= 1,
                        layers >= 0,
                        levels >= 0,
                ;
            }
            return None;
        }
        let ghost extent = self.extent();
        proof {
            assert(extent.1 > 0 && extent.2 > 0) by (nonlinear_arith)
                requires
                    extent.0 * (extent.1 * extent.2) != 0,
                    extent.0 >= 1,
                    extent.1 >= 0,
                    extent.2 >= 0,
            ;
            lemma_index_in_bounds(extent, (0, 0, 0));
            assert(0 * extent.2 == 0) by (nonlinear_arith);
            assert(index_of(extent, (0, 0, 0)) == 0) by (nonlinear_arith)
                requires
                    index_of(extent, (0, 0, 0)) == (0 * extent.2 + 0) * extent.0 + 0,
            ;
        }
        let first: V = self.values[0];
        let mut index: usize = 1;
        while index < self.values.len()
            invariant
                self.wf(),
                extent == self.extent(),
                extent.1 > 0 && extent.2 > 0,
                first == self.values@[0],
                index_of(extent, (0, 0, 0)) == 0,
                1 <= index <= self.values@.len(),
                forall|i: int| 0 <= i < index ==> self.values@[i] == first,
            decreases self.values@.len() - index,
        {
            if !self.values[index].is_same_value(first) {
                proof {
                    let place = lemma_place_of(extent, index as int);
                    assert(self.at(place.0, place.1, place.2) != first);
                }
                return None;
            }
            index += 1;
        }
        proof {
            assert forall|a: int, l: int, m: int|
                inside(extent, (a, l, m)) implies #[trigger] self.at(a, l, m) == first by {
                lemma_index_in_bounds(extent, (a, l, m));
            }
        }
        Some(first)
    }
}

/// Every index is that of a place.
proof fn lemma_place_of(extent: Extent, index: int) -> (place: Place)
    requires
        extent.0 > 0 && extent.1 > 0 && extent.2 > 0,
        0 <= index < extent.0 * (extent.1 * extent.2),
    ensures
        inside(extent, place),
        index_of(extent, place) == index,
{
    let row = index / extent.0;
    let a = index % extent.0;
    let l = row / extent.2;
    let m = row % extent.2;
    vstd::arithmetic::div_mod::lemma_fundamental_div_mod(index, extent.0);
    vstd::arithmetic::div_mod::lemma_fundamental_div_mod(row, extent.2);
    vstd::arithmetic::div_mod::lemma_mod_bound(index, extent.0);
    vstd::arithmetic::div_mod::lemma_mod_bound(row, extent.2);
    assert(extent.0 * row == row * extent.0) by (nonlinear_arith);
    assert(extent.2 * l == l * extent.2) by (nonlinear_arith);
    assert(0 <= row < extent.1 * extent.2) by (nonlinear_arith)
        requires
            0 <= row * extent.0 + a < extent.0 * (extent.1 * extent.2),
            0 <= a < extent.0,
    ;
    assert(0 <= l < extent.1) by (nonlinear_arith)
        requires
            0 <= l * extent.2 + m < extent.1 * extent.2,
            0 <= m < extent.2,
    ;
    (a, l, m)
}

/// The number of aspects that a range has.
pub open spec fn range_aspects(range: ImageSubresourceRange) -> int {
    count_bits(range.aspect_mask, 0) as int
}

/// The numbers of aspects, array layers and mip levels of a range.
pub open spec fn range_extent(range: ImageSubresourceRange) -> Extent {
    (range_aspects(range), range.layer_count as int, range.level_count as int)
}

/// The ordinal of the first aspect of a range in a map: where a map has two aspects, depth comes
/// before stencil.
pub open spec fn first_ordinal(extent: Extent, range: ImageSubresourceRange) -> int {
    if extent.0 == 2 && range.aspect_mask == vk::IMAGE_ASPECT_STENCIL {
        1
    } else {
        0
    }
}

/// Whether a range is a part of a map that is not empty.
pub open spec fn range_fits(extent: Extent, range: ImageSubresourceRange) -> bool {
    &&& supported_aspects(range.aspect_mask)
    &&& range_aspects(range) <= extent.0
    &&& range.layer_count > 0
    &&& range.base_array_layer + range.layer_count <= extent.1
    &&& range.level_count > 0
    &&& range.base_mip_level + range.level_count <= extent.2
}

/// The place in a map of a place in a range.
pub open spec fn place_in_map(extent: Extent, range: ImageSubresourceRange, q: Place) -> Place {
    (
        first_ordinal(extent, range) + q.0,
        range.base_array_layer + q.1,
        range.base_mip_level + q.2,
    )
}

/// The place in a range of a place in a map.
pub open spec fn place_in_range(extent: Extent, range: ImageSubresourceRange, p: Place) -> Place {
    (
        p.0 - first_ordinal(extent, range),
        p.1 - range.base_array_layer,
        p.2 - range.base_mip_level,
    )
}

/// The values of a range of a grid.
pub open spec fn grid_window<V>(
    grid: Grid<V>,
    extent: Extent,
    range: ImageSubresourceRange,
) -> Grid<V> {
    |a: int, l: int, m: int|
        {
            let place = place_in_map(extent, range, (a, l, m));
            grid(place.0, place.1, place.2)
        }
}

/// What a visit of a range of a grid reports: the blocks of equal values, with these values.
pub open spec fn grid_blocks<V>(
    grid: Grid<V>,
    extent: Extent,
    range: ImageSubresourceRange,
) -> Seq<(V, ImageSubresourceRange)> {
    block_ranges(
        range,
        blocks_from(grid_window(grid, extent, range), range_extent(range), (0, 0, 0)),
    )
}

/// The values of a range of a map.
pub open spec fn window<V: SubresourceValue>(map: DenseMap<V>, range: ImageSubresourceRange) -> Grid<
    V,
> {
    |a: int, l: int, m: int|
        {
            let place = place_in_map(map.extent(), range, (a, l, m));
            map.at(place.0, place.1, place.2)
        }
}

/// A map reports what a grid with the same values does.
pub proof fn lemma_same_blocks<V: SubresourceValue>(
    map: DenseMap<V>,
    grid: Grid<V>,
    range: ImageSubresourceRange,
)
    requires
        map.wf(),
        range_fits(map.extent(), range),
        forall|a: int, l: int, m: int|
            inside(map.extent(), (a, l, m)) ==> #[trigger] map.at(a, l, m) == grid(a, l, m),
    ensures
        range_blocks(map, range) == grid_blocks(grid, map.extent(), range),
{
    map.lemma_wf();
    lemma_supported_aspects(range.aspect_mask);
    let a = window(map, range);
    let b = grid_window(grid, map.extent(), range);
    let extent = range_extent(range);
    assert forall|x: int, l: int, m: int|
        #![trigger a(x, l, m)]
        #![trigger b(x, l, m)]
        inside(extent, (x, l, m)) implies a(x, l, m) == b(x, l, m) by {
        lemma_place_in_map(map.extent(), range, (x, l, m));
    }
    lemma_blocks_agree(a, b, extent, (0, 0, 0));
}

/// Grids with the same values in a range report the same blocks of it.
pub proof fn lemma_same_window_blocks<V>(
    a: Grid<V>,
    b: Grid<V>,
    extent: Extent,
    range: ImageSubresourceRange,
)
    requires
        extent.0 <= 2,
        range_fits(extent, range),
        forall|x: int, l: int, m: int|
            inside(extent, (x, l, m)) && inside(
                range_extent(range),
                place_in_range(extent, range, (x, l, m)),
            ) ==> #[trigger] a(x, l, m) == b(x, l, m),
    ensures
        grid_blocks(a, extent, range) == grid_blocks(b, extent, range),
{
    lemma_supported_aspects(range.aspect_mask);
    let inner_a = grid_window(a, extent, range);
    let inner_b = grid_window(b, extent, range);
    let size = range_extent(range);
    assert forall|x: int, l: int, m: int|
        #![trigger inner_a(x, l, m)]
        #![trigger inner_b(x, l, m)]
        inside(size, (x, l, m)) implies inner_a(x, l, m) == inner_b(x, l, m) by {
        lemma_place_in_map(extent, range, (x, l, m));
        let place = place_in_map(extent, range, (x, l, m));
        assert(place_in_range(extent, range, place) == (x, l, m));
        assert(a(place.0, place.1, place.2) == b(place.0, place.1, place.2));
    }
    lemma_blocks_agree(inner_a, inner_b, size, (0, 0, 0));
}

/// Grids with the same values report the same blocks.
pub proof fn lemma_same_grid_blocks<V>(
    a: Grid<V>,
    b: Grid<V>,
    extent: Extent,
    range: ImageSubresourceRange,
)
    requires
        extent.0 <= 2,
        range_fits(extent, range),
        forall|x: int, l: int, m: int|
            inside(extent, (x, l, m)) ==> #[trigger] a(x, l, m) == b(x, l, m),
    ensures
        grid_blocks(a, extent, range) == grid_blocks(b, extent, range),
{
    lemma_same_window_blocks(a, b, extent, range);
}

/// A range of a grid that holds a single value is reported as it is.
pub proof fn lemma_uniform_range<V>(
    grid: Grid<V>,
    extent: Extent,
    range: ImageSubresourceRange,
    value: V,
)
    requires
        extent.0 <= 2,
        range_fits(extent, range),
        forall|a: int, l: int, m: int|
            inside(extent, (a, l, m)) ==> #[trigger] grid(a, l, m) == value,
    ensures
        grid_blocks(grid, extent, range) == seq![(value, range)],
{
    lemma_supported_aspects(range.aspect_mask);
    let inner = grid_window(grid, extent, range);
    let size = range_extent(range);
    assert forall|a: int, l: int, m: int| inside(size, (a, l, m)) implies #[trigger] inner(a, l, m)
        == value by {
        lemma_place_in_map(extent, range, (a, l, m));
    }
    crate::grid::uniform_grid_is_one_block(inner, size, value);
    let block = Block { from: (0int, 0int, 0int), to: size };
    assert(block_range(range, block) == range);
    assert(block_ranges(range, seq![(value, block)]) =~= seq![(value, range)]);
}

/// The range that a block of a range is.
pub open spec fn block_range(range: ImageSubresourceRange, block: Block) -> ImageSubresourceRange {
    ImageSubresourceRange {
        aspect_mask: if block.to.0 - block.from.0 == 1 {
            crate::image_range::nth_bit(range.aspect_mask, 0, block.from.0 as nat)
        } else {
            range.aspect_mask
        },
        base_mip_level: (range.base_mip_level + block.from.2) as u32,
        level_count: (block.to.2 - block.from.2) as u32,
        base_array_layer: (range.base_array_layer + block.from.1) as u32,
        layer_count: (block.to.1 - block.from.1) as u32,
    }
}

/// The ranges of blocks.
pub open spec fn block_ranges<V>(
    range: ImageSubresourceRange,
    blocks: Seq<(V, Block)>,
) -> Seq<(V, ImageSubresourceRange)> {
    blocks.map_values(|item: (V, Block)| (item.0, block_range(range, item.1)))
}

/// What a visit of a range reports: the blocks of equal values, with these values.
pub open spec fn range_blocks<V: SubresourceValue>(
    map: DenseMap<V>,
    range: ImageSubresourceRange,
) -> Seq<(V, ImageSubresourceRange)> {
    block_ranges(range, blocks_from(window(map, range), range_extent(range), (0, 0, 0)))
}

/// Whether `after` is `before` with the places of a range from one up to another replaced.
pub open spec fn rewritten<V: SubresourceValue>(
    before: DenseMap<V>,
    after: DenseMap<V>,
    range: ImageSubresourceRange,
    from: Place,
    to: Place,
    value: V,
) -> bool {
    &&& after.extent() == before.extent()
    &&& forall|a: int, l: int, m: int|
        inside(before.extent(), (a, l, m)) ==> #[trigger] after.at(a, l, m) == {
            let q = place_in_range(before.extent(), range, (a, l, m));
            if inside(range_extent(range), q) && !precedes(q, from) && precedes(q, to) {
                value
            } else {
                before.at(a, l, m)
            }
        }
}

/// Whether `after` is `before` with all places of a range replaced.
pub open spec fn assigned<V: SubresourceValue>(
    before: DenseMap<V>,
    after: DenseMap<V>,
    range: ImageSubresourceRange,
    value: V,
) -> bool {
    &&& after.extent() == before.extent()
    &&& forall|a: int, l: int, m: int|
        inside(before.extent(), (a, l, m)) ==> #[trigger] after.at(a, l, m) == (if inside(
            range_extent(range),
            place_in_range(before.extent(), range, (a, l, m)),
        ) {
            value
        } else {
            before.at(a, l, m)
        })
}

/// A place of a range is a place of the map.
pub proof fn lemma_place_in_map(extent: Extent, range: ImageSubresourceRange, q: Place)
    requires
        range_fits(extent, range),
        extent.0 <= 2,
        inside(range_extent(range), q),
    ensures
        inside(extent, place_in_map(extent, range, q)),
        place_in_range(extent, range, place_in_map(extent, range, q)) == q,
{
    lemma_supported_aspects(range.aspect_mask);
}

/// Values that are not replaced stay.
proof fn lemma_rewritten_window<V: SubresourceValue>(
    before: DenseMap<V>,
    after: DenseMap<V>,
    range: ImageSubresourceRange,
    from: Place,
    to: Place,
    value: V,
)
    requires
        before.wf(),
        range_fits(before.extent(), range),
        rewritten(before, after, range, from, to, value),
    ensures
        forall|a: int, l: int, m: int|
            #![trigger window(after, range)(a, l, m)]
            #![trigger window(before, range)(a, l, m)]
            inside(range_extent(range), (a, l, m)) && !precedes((a, l, m), to) ==> window(
                after,
                range,
            )(a, l, m) == window(before, range)(a, l, m),
{
    before.lemma_wf();
    assert forall|a: int, l: int, m: int|
        #![trigger window(after, range)(a, l, m)]
        #![trigger window(before, range)(a, l, m)]
        inside(range_extent(range), (a, l, m)) && !precedes((a, l, m), to) implies window(
        after,
        range,
    )(a, l, m) == window(before, range)(a, l, m) by {
        lemma_place_in_map(before.extent(), range, (a, l, m));
    }
}

/// A visit of the subresources in a range.
#[derive(Clone, Copy, Debug)]
pub struct DenseMapCursor {
    range: ImageSubresourceRange,
    aspect_count: u8,
    base_aspect_ordinal: u8,
    array_layer: u32,
    aspect: u8,
    mip_level: u32,
}

impl DenseMapCursor {
    /// The range that is visited.
    pub closed spec fn spec_range(self) -> ImageSubresourceRange {
        self.range
    }

    /// The place in the range at which the visit stands.
    pub closed spec fn place(self) -> Place {
        (self.aspect as int, self.array_layer as int, self.mip_level as int)
    }

    /// Whether the visit stands in the map, or has come to its end.
    pub closed spec fn wf<V: SubresourceValue>(self, map: DenseMap<V>) -> bool {
        &&& map.wf()
        &&& range_fits(map.extent(), self.range)
        &&& self.aspect_count == range_aspects(self.range)
        &&& self.base_aspect_ordinal == first_ordinal(map.extent(), self.range)
        &&& standing(range_extent(self.range), self.place())
    }

    /// Starts a visit of a range.
    pub fn new<V: SubresourceValue>(map: &DenseMap<V>, range: ImageSubresourceRange) -> (cursor:
        Self)
        requires
            map.wf(),
            range_fits(map.extent(), range),
        ensures
            cursor.wf(*map),
            cursor.spec_range() == range,
            cursor.place() == (0int, 0int, 0int),
    {
        proof {
            lemma_supported_aspects(range.aspect_mask);
        }
        let base_aspect_ordinal: u8 = map.base_aspect_ordinal(range.aspect_mask);
        DenseMapCursor {
            range,
            aspect_count: aspect_count(range.aspect_mask),
            base_aspect_ordinal,
            array_layer: 0,
            aspect: 0,
            mip_level: 0,
        }
    }

    /// The value of a place in the range.
    fn value<V: SubresourceValue>(&self, map: &DenseMap<V>, a: u8, l: u32, m: u32) -> (value: V)
        requires
            self.wf(*map),
            inside(range_extent(self.range), (a as int, l as int, m as int)),
        ensures
            value == window(*map, self.range)(a as int, l as int, m as int),
    {
        proof {
            map.lemma_wf();
            lemma_place_in_map(map.extent(), self.range, (a as int, l as int, m as int));
        }
        map.subresource(
            self.base_aspect_ordinal + a,
            self.range.base_array_layer + l,
            self.range.base_mip_level + m,
        )
    }

    /// Replaces the value of a place in the range.
    fn assign<V: SubresourceValue>(
        &self,
        map: &mut DenseMap<V>,
        a: u8,
        l: u32,
        m: u32,
        value: V,
    )
        requires
            self.wf(*old(map)),
            inside(range_extent(self.range), (a as int, l as int, m as int)),
        ensures
            self.wf(*final(map)),
            rewritten(
                *old(map),
                *final(map),
                self.range,
                (a as int, l as int, m as int),
                (a as int, l as int, m + 1),
                value,
            ),
    {
        proof {
            map.lemma_wf();
            lemma_place_in_map(map.extent(), self.range, (a as int, l as int, m as int));
        }
        map.set_subresource(
            self.base_aspect_ordinal + a,
            self.range.base_array_layer + l,
            self.range.base_mip_level + m,
            value,
        );
    }

    /// Whether all levels of an array layer in the range hold a value.
    fn layer_is<V: SubresourceValue>(&self, map: &DenseMap<V>, a: u8, l: u32, value: V) -> (holds:
        bool)
        requires
            self.wf(*map),
            0 <= a < self.aspect_count,
            0 <= l < self.range.layer_count,
        ensures
            holds == layer_holds(
                window(*map, self.range),
                range_extent(self.range),
                a as int,
                l as int,
                value,
            ),
    {
        let mut m: u32 = 0;
        while m < self.range.level_count
            invariant
                self.wf(*map),
                0 <= a < self.aspect_count,
                0 <= l < self.range.layer_count,
                m <= self.range.level_count,
                forall|i: int|
                    0 <= i < m ==> #[trigger] window(*map, self.range)(a as int, l as int, i)
                        == value,
            decreases self.range.level_count - m,
        {
            if !self.value(map, a, l, m).is_same_value(value) {
                return false;
            }
            m += 1;
        }
        true
    }

    /// Replaces the values of all levels of an array layer in the range.
    fn fill_layer<V: SubresourceValue>(&self, map: &mut DenseMap<V>, a: u8, l: u32, value: V)
        requires
            self.wf(*old(map)),
            0 <= a < self.aspect_count,
            0 <= l < self.range.layer_count,
        ensures
            self.wf(*final(map)),
            rewritten(
                *old(map),
                *final(map),
                self.range,
                (a as int, l as int, 0),
                (a as int, l + 1, 0),
                value,
            ),
    {
        let mut m: u32 = 0;
        while m < self.range.level_count
            invariant
                self.wf(*map),
                0 <= a < self.aspect_count,
                0 <= l < self.range.layer_count,
                m <= self.range.level_count,
                rewritten(
                    *old(map),
                    *map,
                    self.range,
                    (a as int, l as int, 0),
                    (a as int, l as int, m as int),
                    value,
                ),
            decreases self.range.level_count - m,
        {
            self.assign(map, a, l, m, value);
            m += 1;
        }
    }

    /// Whether all layers and levels of an aspect in the range hold a value.
    fn aspect_is<V: SubresourceValue>(&self, map: &DenseMap<V>, a: u8, value: V) -> (holds: bool)
        requires
            self.wf(*map),
            0 <= a < self.aspect_count,
        ensures
            holds == aspect_holds(
                window(*map, self.range),
                range_extent(self.range),
                a as int,
                value,
            ),
    {
        let mut l: u32 = 0;
        while l < self.range.layer_count
            invariant
                self.wf(*map),
                0 <= a < self.aspect_count,
                l <= self.range.layer_count,
                forall|i: int, m: int|
                    0 <= i < l && 0 <= m < self.range.level_count ==> #[trigger] window(
                        *map,
                        self.range,
                    )(a as int, i, m) == value,
            decreases self.range.layer_count - l,
        {
            if !self.layer_is(map, a, l, value) {
                return false;
            }
            l += 1;
        }
        true
    }

    /// Replaces the values of all layers and levels of an aspect in the range.
    fn fill_aspect<V: SubresourceValue>(&self, map: &mut DenseMap<V>, a: u8, value: V)
        requires
            self.wf(*old(map)),
            0 <= a < self.aspect_count,
        ensures
            self.wf(*final(map)),
            rewritten(
                *old(map),
                *final(map),
                self.range,
                (a as int, 0, 0),
                (a + 1, 0, 0),
                value,
            ),
    {
        let mut l: u32 = 0;
        while l < self.range.layer_count
            invariant
                self.wf(*map),
                0 <= a < self.aspect_count,
                l <= self.range.layer_count,
                rewritten(
                    *old(map),
                    *map,
                    self.range,
                    (a as int, 0, 0),
                    (a as int, l as int, 0),
                    value,
                ),
            decreases self.range.layer_count - l,
        {
            self.fill_layer(map, a, l, value);
            l += 1;
        }
    }

    /// Visits the next block: replaces its values, and returns the value that they had and the
    /// range that the block is.
    pub fn next<V: SubresourceValue>(&mut self, map: &mut DenseMap<V>, value: V) -> (step: Option<
        (V, ImageSubresourceRange),
    >)
        requires
            old(self).wf(*old(map)),
        ensures
            final(self).wf(*final(map)),
            final(self).spec_range() == old(self).spec_range(),
            step is None <==> !inside(range_extent(old(self).spec_range()), old(self).place()),
            step is None ==> *final(self) == *old(self) && *final(map) == *old(map),
            step matches Some((previous, range)) ==> {
                let grid = window(*old(map), old(self).spec_range());
                let extent = range_extent(old(self).spec_range());
                let from = old(self).place();
                &&& previous == grid(from.0, from.1, from.2)
                &&& range == block_range(old(self).spec_range(), block_at(grid, extent, from))
                &&& final(self).place() == place_after(grid, extent, from)
                &&& rewritten(
                    *old(map),
                    *final(map),
                    old(self).spec_range(),
                    from,
                    place_after(grid, extent, from),
                    value,
                )
            },
    {
        if self.aspect == self.aspect_count {
            return None;
        }
        let ghost before = *map;
        let ghost visited = self.range;
        let ghost grid = window(before, visited);
        let ghost extent = range_extent(visited);
        let ghost from = self.place();
        let a: u8 = self.aspect;
        let l: u32 = self.array_layer;
        let m: u32 = self.mip_level;
        let levels: u32 = self.range.level_count;
        let layers: u32 = self.range.layer_count;
        let previous: V = self.value(map, a, l, m);
        self.assign(map, a, l, m, value);
        let mut end_level: u32 = m + 1;
        while end_level < levels
            invariant
                self.wf(*map),
                self.range == visited,
                self.place() == from,
                before.wf(),
                range_fits(before.extent(), visited),
                grid == window(before, visited),
                extent == range_extent(visited),
                levels == extent.2,
                inside(extent, from),
                from == (a as int, l as int, m as int),
                m < end_level <= levels,
                previous == grid(from.0, from.1, from.2),
                rewritten(before, *map, visited, from, (a as int, l as int, end_level as int), value),
                mip_stop(grid, extent, from.0, from.1, end_level as int, previous) == mip_end(
                    grid,
                    extent,
                    from,
                ),
            ensures
                end_level == mip_end(grid, extent, from),
            decreases levels - end_level,
        {
            proof {
                lemma_rewritten_window(
                    before,
                    *map,
                    visited,
                    from,
                    (a as int, l as int, end_level as int),
                    value,
                );
            }
            if !self.value(map, a, l, end_level).is_same_value(previous) {
                break;
            }
            self.assign(map, a, l, end_level, value);
            end_level += 1;
        }
        proof {
            lemma_place_after(grid, extent, from);
            crate::grid::block_holds_value(grid, extent, from);
            lemma_supported_aspects(visited.aspect_mask);
        }
        let aspect_mask: u32 = crate::image_range::aspect_mask_at_ordinal(
            self.range.aspect_mask,
            a as u32,
        );
        let mut reported = ImageSubresourceRange {
            aspect_mask,
            base_mip_level: self.range.base_mip_level + m,
            level_count: end_level - m,
            base_array_layer: self.range.base_array_layer + l,
            layer_count: 1,
        };
        if end_level < levels {
            self.mip_level = end_level;
            return Some((previous, reported));
        }
        let mut end_layer: u32 = l + 1;
        if m == 0 {
            while end_layer < layers
                invariant
                    self.wf(*map),
                    self.range == visited,
                    self.place() == from,
                    before.wf(),
                    range_fits(before.extent(), visited),
                    grid == window(before, visited),
                    extent == range_extent(visited),
                    layers == extent.1,
                    inside(extent, from),
                    from == (a as int, l as int, m as int),
                    m == 0,
                    l < end_layer <= layers,
                    previous == grid(from.0, from.1, from.2),
                    mip_end(grid, extent, from) == extent.2,
                    rewritten(before, *map, visited, from, (a as int, end_layer as int, 0), value),
                    layer_stop(grid, extent, from.0, end_layer as int, previous) == layer_end(
                        grid,
                        extent,
                        from,
                    ),
                ensures
                    end_layer == layer_end(grid, extent, from),
                decreases layers - end_layer,
            {
                proof {
                    lemma_rewritten_window(
                        before,
                        *map,
                        visited,
                        from,
                        (a as int, end_layer as int, 0),
                        value,
                    );
                    assert(layer_holds(
                        window(*map, visited),
                        extent,
                        a as int,
                        end_layer as int,
                        previous,
                    ) == layer_holds(grid, extent, a as int, end_layer as int, previous));
                }
                if !self.layer_is(map, a, end_layer, previous) {
                    break;
                }
                self.fill_layer(map, a, end_layer, value);
                end_layer += 1;
            }
        }
        reported.layer_count = end_layer - l;
        self.mip_level = 0;
        if end_layer < layers {
            self.array_layer = end_layer;
            return Some((previous, reported));
        }
        self.array_layer = 0;
        let mut end_aspect: u8 = a + 1;
        self.aspect = a + 1;
        assert(rewritten(before, *map, visited, from, (end_aspect as int, 0, 0), value));
        if l != 0 || m != 0 {
            return Some((previous, reported));
        }
        while end_aspect < self.aspect_count
            invariant
                self.wf(*map),
                self.range == visited,
                self.place() == (end_aspect as int, 0int, 0int),
                before.wf(),
                range_fits(before.extent(), visited),
                grid == window(before, visited),
                extent == range_extent(visited),
                inside(extent, from),
                from == (a as int, 0int, 0int),
                a < end_aspect <= self.aspect_count,
                previous == grid(from.0, from.1, from.2),
                mip_end(grid, extent, from) == extent.2,
                layer_end(grid, extent, from) == extent.1,
                rewritten(before, *map, visited, from, (end_aspect as int, 0, 0), value),
                crate::grid::aspect_stop(grid, extent, end_aspect as int, previous) == aspect_end(
                    grid,
                    extent,
                    from,
                ),
            ensures
                end_aspect == aspect_end(grid, extent, from),
            decreases self.aspect_count - end_aspect,
        {
            proof {
                lemma_rewritten_window(
                    before,
                    *map,
                    visited,
                    from,
                    (end_aspect as int, 0, 0),
                    value,
                );
                assert(aspect_holds(
                    window(*map, visited),
                    extent,
                    end_aspect as int,
                    previous,
                ) == aspect_holds(grid, extent, end_aspect as int, previous));
            }
            if !self.aspect_is(map, end_aspect, previous) {
                break;
            }
            self.fill_aspect(map, end_aspect, value);
            end_aspect += 1;
            self.aspect = end_aspect;
        }
        if end_aspect - a > 1 {
            reported.aspect_mask = self.range.aspect_mask;
        }
        Some((previous, reported))
    }

    /// Visits all blocks that are left.
    pub fn drain<V: SubresourceValue>(&mut self, map: &mut DenseMap<V>, value: V) -> (steps: Vec<
        (V, ImageSubresourceRange),
    >)
        requires
            old(self).wf(*old(map)),
        ensures
            final(self).wf(*final(map)),
            final(map).wf(),
            final(self).spec_range() == old(self).spec_range(),
            !inside(range_extent(old(self).spec_range()), final(self).place()),
            steps@ == block_ranges(
                old(self).spec_range(),
                blocks_from(
                    window(*old(map), old(self).spec_range()),
                    range_extent(old(self).spec_range()),
                    old(self).place(),
                ),
            ),
            rewritten(
                *old(map),
                *final(map),
                old(self).spec_range(),
                old(self).place(),
                (range_extent(old(self).spec_range()).0, 0, 0),
                value,
            ),
    {
        let mut steps: Vec<(V, ImageSubresourceRange)> = Vec::new();
        let ghost before = *map;
        let ghost range = self.range;
        let ghost grid = window(before, range);
        let ghost extent = range_extent(range);
        let ghost from = self.place();
        let ghost mut done: Seq<(V, Block)> = seq![];
        assert(steps@ =~= block_ranges(range, done));
        assert(done + blocks_from(grid, extent, from) =~= blocks_from(grid, extent, from));
        loop
            invariant
                self.wf(*map),
                before.wf(),
                range_fits(before.extent(), range),
                self.range == range,
                grid == window(before, range),
                extent == range_extent(range),
                standing(extent, from),
                !precedes(self.place(), from),
                rewritten(before, *map, range, from, self.place(), value),
                done + blocks_from(grid, extent, self.place()) == blocks_from(grid, extent, from),
                steps@ == block_ranges(range, done),
            ensures
                !inside(extent, self.place()),
            decreases
                extent.0 - self.place().0,
                extent.1 - self.place().1,
                extent.2 - self.place().2,
        {
            let ghost now = *map;
            let ghost at = self.place();
            proof {
                lemma_rewritten_window(before, now, range, from, at, value);
            }
            let step = self.next(map, value);
            match step {
                None => {
                    break;
                },
                Some((previous, reported)) => {
                    proof {
                        crate::grid::lemma_block_agrees(grid, window(now, range), extent, at);
                        lemma_place_after(grid, extent, at);
                        let item = (previous, block_at(grid, extent, at));
                        assert(done + (seq![item] + blocks_from(grid, extent, self.place()))
                            =~= done.push(item) + blocks_from(grid, extent, self.place()));
                        assert(block_ranges(range, done.push(item)) =~= block_ranges(
                            range,
                            done,
                        ).push((previous, reported)));
                        done = done.push(item);
                    }
                    steps.push((previous, reported));
                },
            }
        }
        proof {
            assert(blocks_from(grid, extent, self.place()) =~= seq![]);
            assert(done =~= blocks_from(grid, extent, from));
        }
        steps
    }
}

impl<V: SubresourceValue> DenseMap<V> {
    /// Replaces the values of a range, and returns the values that it had, block by block.
    pub fn swap(&mut self, value: V, range: ImageSubresourceRange) -> (previous: Vec<
        (V, ImageSubresourceRange),
    >)
        requires
            old(self).wf(),
            range_fits(old(self).extent(), range),
        ensures
            final(self).wf(),
            assigned(*old(self), *final(self), range, value),
            previous@ == range_blocks(*old(self), range),
    {
        let mut cursor = DenseMapCursor::new(self, range);
        cursor.drain(self, value)
    }
}

} // verus!
