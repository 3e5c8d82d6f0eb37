//! Ranges of image subresources.

use crate::vk;
use vstd::prelude::*;

verus! {

/// Specifies a range of image subresources.
#[derive(Clone, Copy, Debug, PartialEq, Eq, Hash, Structural)]
pub struct ImageSubresourceRange {
    /// The aspects of the image, as a bitmask.
    pub aspect_mask: u32,
    /// The first mip level.
    pub base_mip_level: u32,
    /// The number of mip levels.
    pub level_count: u32,
    /// The first array layer.
    pub base_array_layer: u32,
    /// The number of array layers.
    pub layer_count: u32,
}

impl ImageSubresourceRange {
    /// Whether an array layer lies in the range.
    pub open spec fn has_layer(self, layer: int) -> bool {
        self.base_array_layer <= layer < self.base_array_layer + self.layer_count
    }

    /// Whether a mip level lies in the range.
    pub open spec fn has_level(self, level: int) -> bool {
        self.base_mip_level <= level < self.base_mip_level + self.level_count
    }

    /// Whether `other` has only aspects, array layers and mip levels that the range has.
    pub open spec fn contains(self, other: Self) -> bool {
        &&& self.aspect_mask & other.aspect_mask == other.aspect_mask
        &&& self.base_array_layer <= other.base_array_layer
        &&& other.base_array_layer + other.layer_count <= self.base_array_layer + self.layer_count
        &&& self.base_mip_level <= other.base_mip_level
        &&& other.base_mip_level + other.level_count <= self.base_mip_level + self.level_count
    }

    /// Whether the ends of the range are numbers that can be written down.
    pub open spec fn bounded(self) -> bool {
        &&& self.base_array_layer + self.layer_count <= u32::MAX
        &&& self.base_mip_level + self.level_count <= u32::MAX
    }
}

/// Whether `rhs` has only aspects, array layers and mip levels that `lhs` has.
pub fn image_subresource_range_contains(
    lhs: ImageSubresourceRange,
    rhs: ImageSubresourceRange,
) -> (contains: bool)
    requires
        lhs.bounded(),
        rhs.bounded(),
    ensures
        contains == lhs.contains(rhs),
        contains ==> forall|layer: int| rhs.has_layer(layer) ==> lhs.has_layer(layer),
        contains ==> forall|level: int| rhs.has_level(level) ==> lhs.has_level(level),
{
    lhs.aspect_mask & rhs.aspect_mask == rhs.aspect_mask && lhs.base_array_layer
        <= rhs.base_array_layer && lhs.base_array_layer + lhs.layer_count >= rhs.base_array_layer
        + rhs.layer_count && lhs.base_mip_level <= rhs.base_mip_level && lhs.base_mip_level
        + lhs.level_count >= rhs.base_mip_level + rhs.level_count
}

/// The aspects, array layers and mip levels that both ranges have, where they intersect.
pub fn image_subresource_range_intersection(
    lhs: ImageSubresourceRange,
    rhs: ImageSubresourceRange,
) -> (both: Option<ImageSubresourceRange>)
    requires
        lhs.bounded(),
        rhs.bounded(),
    ensures
        both is Some == intersecting(lhs, rhs),
        both matches Some(range) ==> {
            &&& range.bounded()
            &&& range.aspect_mask == lhs.aspect_mask & rhs.aspect_mask
            &&& range.base_array_layer == (if lhs.base_array_layer < rhs.base_array_layer {
                rhs.base_array_layer
            } else {
                lhs.base_array_layer
            })
            &&& range.base_mip_level == (if lhs.base_mip_level < rhs.base_mip_level {
                rhs.base_mip_level
            } else {
                lhs.base_mip_level
            })
            &&& forall|layer: int|
                range.has_layer(layer) <==> lhs.has_layer(layer) && rhs.has_layer(layer)
            &&& forall|level: int|
                range.has_level(level) <==> lhs.has_level(level) && rhs.has_level(level)
        },
{
    if !image_subresource_range_intersects(lhs, rhs) {
        return None;
    }
    let base_array_layer: u32 = if lhs.base_array_layer < rhs.base_array_layer {
        rhs.base_array_layer
    } else {
        lhs.base_array_layer
    };
    let lhs_end: u32 = lhs.base_array_layer + lhs.layer_count;
    let rhs_end: u32 = rhs.base_array_layer + rhs.layer_count;
    let end_array_layer: u32 = if lhs_end < rhs_end {
        lhs_end
    } else {
        rhs_end
    };
    let base_mip_level: u32 = if lhs.base_mip_level < rhs.base_mip_level {
        rhs.base_mip_level
    } else {
        lhs.base_mip_level
    };
    let lhs_end: u32 = lhs.base_mip_level + lhs.level_count;
    let rhs_end: u32 = rhs.base_mip_level + rhs.level_count;
    let end_mip_level: u32 = if lhs_end < rhs_end {
        lhs_end
    } else {
        rhs_end
    };
    Some(
        ImageSubresourceRange {
            aspect_mask: lhs.aspect_mask & rhs.aspect_mask,
            base_array_layer,
            layer_count: end_array_layer - base_array_layer,
            base_mip_level,
            level_count: end_mip_level - base_mip_level,
        },
    )
}

/// Whether two ranges have an aspect in common, and each starts before the other ends.
pub open spec fn intersecting(lhs: ImageSubresourceRange, rhs: ImageSubresourceRange) -> bool {
    &&& lhs.aspect_mask & rhs.aspect_mask != 0
    &&& lhs.base_array_layer < rhs.base_array_layer + rhs.layer_count
    &&& rhs.base_array_layer < lhs.base_array_layer + lhs.layer_count
    &&& lhs.base_mip_level < rhs.base_mip_level + rhs.level_count
    &&& rhs.base_mip_level < lhs.base_mip_level + lhs.level_count
}

/// Whether two ranges intersect.
pub fn image_subresource_range_intersects(
    lhs: ImageSubresourceRange,
    rhs: ImageSubresourceRange,
) -> (intersects: bool)
    requires
        lhs.bounded(),
        rhs.bounded(),
    ensures
        intersects == intersecting(lhs, rhs),
{
    lhs.aspect_mask & rhs.aspect_mask != 0 && lhs.base_array_layer < rhs.base_array_layer
        + rhs.layer_count && lhs.base_array_layer + lhs.layer_count > rhs.base_array_layer
        && lhs.base_mip_level < rhs.base_mip_level + rhs.level_count && lhs.base_mip_level
        + lhs.level_count > rhs.base_mip_level
}

/// Whether a mask has a bit.
pub open spec fn has_bit(mask: u32, bit: u32) -> bool {
    (mask >> bit) & 1 == 1
}

/// The number of bits of a mask from a bit on.
pub open spec fn count_bits(mask: u32, bit: u32) -> nat
    decreases 32 - bit,
{
    if bit >= 32 {
        0
    } else {
        (if has_bit(mask, bit) {
            1nat
        } else {
            0
        }) + count_bits(mask, (bit + 1) as u32)
    }
}

/// The bit of a mask that has `ordinal` bits of the mask below it, counted from a bit on, or zero
/// where the mask has no more than that.
pub open spec fn nth_bit(mask: u32, bit: u32, ordinal: nat) -> u32
    decreases 32 - bit,
{
    if bit >= 32 {
        0
    } else if !has_bit(mask, bit) {
        nth_bit(mask, (bit + 1) as u32, ordinal)
    } else if ordinal > 0 {
        nth_bit(mask, (bit + 1) as u32, (ordinal - 1) as nat)
    } else {
        1u32 << bit
    }
}

/// The number of bits of a mask below the one that `target` has, counted from a bit on, or
/// nothing where `target` is no bit of the mask.
pub open spec fn rank_of(mask: u32, bit: u32, target: u32) -> Option<nat>
    decreases 32 - bit,
{
    if bit >= 32 {
        None
    } else if !has_bit(mask, bit) {
        rank_of(mask, (bit + 1) as u32, target)
    } else if target == 1u32 << bit {
        Some(0)
    } else {
        match rank_of(mask, (bit + 1) as u32, target) {
            Some(rank) => Some(rank + 1),
            None => None,
        }
    }
}

/// The number of aspects in a mask.
pub fn aspect_count(aspect_mask: u32) -> (count: u8)
    ensures
        count == count_bits(aspect_mask, 0),
        count <= 32,
{
    let mut count: u8 = 0;
    let mut bit: u32 = 0;
    while bit < 32
        invariant
            bit <= 32,
            count <= bit,
            count + count_bits(aspect_mask, bit) == count_bits(aspect_mask, 0),
        decreases 32 - bit,
    {
        if (aspect_mask >> bit) & 1 == 1 {
            count += 1;
        }
        bit += 1;
    }
    count
}

/// The aspect at an ordinal of a mask: `DEPTH | STENCIL` has `DEPTH` at 0 and `STENCIL` at 1.
///
/// Nothing is at an ordinal that the mask does not have.
pub fn aspect_mask_at_ordinal(aspect_mask: u32, ordinal: u32) -> (aspect: u32)
    ensures
        aspect == nth_bit(aspect_mask, 0, ordinal as nat),
{
    let mut left: u32 = ordinal;
    let mut bit: u32 = 0;
    while bit < 32
        invariant
            bit <= 32,
            nth_bit(aspect_mask, bit, left as nat) == nth_bit(aspect_mask, 0, ordinal as nat),
        decreases 32 - bit,
    {
        if (aspect_mask >> bit) & 1 == 1 {
            if left == 0 {
                return 1u32 << bit;
            }
            left -= 1;
        }
        bit += 1;
    }
    0
}

/// The ordinal of an aspect in a mask, or 0 where the mask does not have it.
pub fn aspect_ordinal(aspect_mask: u32, aspect: u32) -> (ordinal: u8)
    ensures
        ordinal == rank_of(aspect_mask, 0, aspect).unwrap_or(0nat),
{
    let mut passed: u8 = 0;
    let mut bit: u32 = 0;
    let ghost whole = rank_of(aspect_mask, 0, aspect);
    while bit < 32
        invariant
            bit <= 32,
            passed <= bit,
            whole == rank_of(aspect_mask, 0, aspect),
            whole == (match rank_of(aspect_mask, bit, aspect) {
                Some(rank) => Some(rank + passed as nat),
                None => None,
            }),
        decreases 32 - bit,
    {
        if (aspect_mask >> bit) & 1 == 1 {
            if aspect == 1u32 << bit {
                return passed;
            }
            passed += 1;
        }
        bit += 1;
    }
    0
}

/// The masks that images are made of.
pub open spec fn supported_aspects(aspect_mask: u32) -> bool {
    ||| aspect_mask == vk::IMAGE_ASPECT_COLOR
    ||| aspect_mask == vk::IMAGE_ASPECT_DEPTH
    ||| aspect_mask == vk::IMAGE_ASPECT_STENCIL
    ||| aspect_mask == vk::IMAGE_ASPECT_DEPTH | vk::IMAGE_ASPECT_STENCIL
}

/// Whether a mask is one that images are made of.
pub fn is_aspect_mask_supported(aspect_mask: u32) -> (supported: bool)
    ensures
        supported == supported_aspects(aspect_mask),
{
    aspect_mask == vk::IMAGE_ASPECT_COLOR || aspect_mask == vk::IMAGE_ASPECT_DEPTH || aspect_mask
        == vk::IMAGE_ASPECT_STENCIL || aspect_mask == vk::IMAGE_ASPECT_DEPTH
        | vk::IMAGE_ASPECT_STENCIL
}

proof fn lemma_no_high_bits(mask: u32, bit: u32)
    requires
        mask < 8,
        3 <= bit <= 32,
    ensures
        count_bits(mask, bit) == 0,
    decreases 32 - bit,
{
    if bit < 32 {
        assert(mask < 8 && 3 <= bit < 32 ==> (mask >> bit) & 1 == 0) by (bit_vector);
        lemma_no_high_bits(mask, (bit + 1) as u32);
    }
}

/// The aspects of supported masks, by their numbers.
pub proof fn lemma_supported_aspects(mask: u32)
    requires
        supported_aspects(mask),
    ensures
        mask == 1 || mask == 2 || mask == 4 || mask == 6,
        count_bits(mask, 0) == (if mask == 6 {
            2nat
        } else {
            1
        }),
        nth_bit(mask, 0, 0) == (if mask == 6 {
            2u32
        } else {
            mask
        }),
        mask == 6 ==> nth_bit(mask, 0, 1) == 4,
        rank_of(mask, 0, nth_bit(mask, 0, 0)) == Some(0nat),
        mask == 6 ==> rank_of(mask, 0, 4) == Some(1nat),
{
    assert(2u32 | 4u32 == 6u32) by (bit_vector);
    assert((1u32 >> 0u32) & 1 == 1 && (1u32 >> 1u32) & 1 == 0 && (1u32 >> 2u32) & 1 == 0 && (2u32
        >> 0u32) & 1 == 0 && (2u32 >> 1u32) & 1 == 1 && (2u32 >> 2u32) & 1 == 0 && (4u32 >> 0u32)
        & 1 == 0 && (4u32 >> 1u32) & 1 == 0 && (4u32 >> 2u32) & 1 == 1 && (6u32 >> 0u32) & 1 == 0
        && (6u32 >> 1u32) & 1 == 1 && (6u32 >> 2u32) & 1 == 1 && 1u32 << 0u32 == 1 && 1u32 << 1u32
        == 2 && 1u32 << 2u32 == 4) by (bit_vector);
    reveal_with_fuel(count_bits, 4);
    reveal_with_fuel(nth_bit, 4);
    reveal_with_fuel(rank_of, 4);
    lemma_no_high_bits(mask, 3);
}

/// An ordinal names a bit of the mask.
proof fn lemma_nth_bit(mask: u32, bit: u32, ordinal: nat)
    requires
        bit <= 32,
        ordinal < count_bits(mask, bit),
    ensures
        exists|b: u32|
            bit <= b < 32 && #[trigger] has_bit(mask, b) && nth_bit(mask, bit, ordinal) == 1u32
                << b,
    decreases 32 - bit,
{
    if !has_bit(mask, bit) {
        lemma_nth_bit(mask, (bit + 1) as u32, ordinal);
    } else if ordinal > 0 {
        lemma_nth_bit(mask, (bit + 1) as u32, (ordinal - 1) as nat);
    }
}

/// Ordinals name the bits of a mask from the lowest to the highest.
proof fn lemma_nth_bits_ascend(mask: u32, bit: u32, a: nat, b: nat)
    requires
        bit <= 32,
        a < b < count_bits(mask, bit),
    ensures
        nth_bit(mask, bit, a) < nth_bit(mask, bit, b),
    decreases 32 - bit,
{
    let next = (bit + 1) as u32;
    if !has_bit(mask, bit) {
        lemma_nth_bits_ascend(mask, next, a, b);
    } else if a > 0 {
        lemma_nth_bits_ascend(mask, next, (a - 1) as nat, (b - 1) as nat);
    } else {
        lemma_nth_bit(mask, next, (b - 1) as nat);
        let high = choose|high: u32|
            next <= high < 32 && #[trigger] has_bit(mask, high) && nth_bit(
                mask,
                next,
                (b - 1) as nat,
            ) == 1u32 << high;
        assert(bit < high < 32 ==> 1u32 << bit < 1u32 << high) by (bit_vector);
    }
}

/// The aspects of a mask are single bits of it, in order, and no two of them are one.
pub proof fn lemma_aspects_apart(mask: u32, a: nat, b: nat)
    requires
        a < count_bits(mask, 0),
        b < count_bits(mask, 0),
    ensures
        mask & nth_bit(mask, 0, a) == nth_bit(mask, 0, a),
        nth_bit(mask, 0, a) & nth_bit(mask, 0, b) == nth_bit(mask, 0, b) <==> a == b,
        a < b <==> nth_bit(mask, 0, a) < nth_bit(mask, 0, b),
        exists|bit: u32|
            bit < 32 && #[trigger] has_bit(mask, bit) && nth_bit(mask, 0, a) == 1u32 << bit,
{
    lemma_nth_bit(mask, 0, a);
    lemma_nth_bit(mask, 0, b);
    let i = choose|i: u32|
        i < 32 && #[trigger] has_bit(mask, i) && nth_bit(mask, 0, a) == 1u32 << i;
    let j = choose|j: u32|
        j < 32 && #[trigger] has_bit(mask, j) && nth_bit(mask, 0, b) == 1u32 << j;
    assert(i < 32 && (mask >> i) & 1 == 1 ==> mask & (1u32 << i) == 1u32 << i) by (bit_vector);
    assert(i < 32 && j < 32 ==> ((1u32 << i) & (1u32 << j) == 1u32 << j <==> 1u32 << i == 1u32
        << j)) by (bit_vector);
    if a < b {
        lemma_nth_bits_ascend(mask, 0, a, b);
    } else if b < a {
        lemma_nth_bits_ascend(mask, 0, b, a);
    }
}

/// A bit of a mask has an ordinal.
pub proof fn lemma_bit_has_ordinal(mask: u32, bit: u32, target: u32) -> (ordinal: nat)
    requires
        bit <= target < 32,
        has_bit(mask, target),
    ensures
        ordinal < count_bits(mask, bit),
        nth_bit(mask, bit, ordinal) == 1u32 << target,
    decreases target - bit,
{
    if bit == target {
        0
    } else {
        let rest = lemma_bit_has_ordinal(mask, (bit + 1) as u32, target);
        if has_bit(mask, bit) {
            rest + 1
        } else {
            rest
        }
    }
}

/// The aspects that are supported are color, depth, stencil, and the latter two together.
pub proof fn few_aspects_are_supported(mask: u32)
    ensures
        supported_aspects(mask) <==> mask == 1 || mask == 2 || mask == 4 || mask == 6,
{
    assert(2u32 | 4u32 == 6u32) by (bit_vector);
}

/// A range contains another one that is not empty just where it has all aspects, layers and levels
/// of it.
pub proof fn contained_ranges_have_no_more(lhs: ImageSubresourceRange, rhs: ImageSubresourceRange)
    requires
        rhs.layer_count > 0,
        rhs.level_count > 0,
    ensures
        lhs.contains(rhs) <==> {
            &&& rhs.aspect_mask & !lhs.aspect_mask == 0
            &&& forall|layer: int| #[trigger] rhs.has_layer(layer) ==> lhs.has_layer(layer)
            &&& forall|level: int| #[trigger] rhs.has_level(level) ==> lhs.has_level(level)
        },
{
    let (a, b) = (lhs.aspect_mask, rhs.aspect_mask);
    assert((a & b == b) <==> (b & !a == 0)) by (bit_vector);
    let last_layer = rhs.base_array_layer + rhs.layer_count - 1;
    let last_level = rhs.base_mip_level + rhs.level_count - 1;
    assert(rhs.has_layer(rhs.base_array_layer as int) && rhs.has_layer(last_layer));
    assert(rhs.has_level(rhs.base_mip_level as int) && rhs.has_level(last_level));
}

/// Ranges that are not empty intersect just where they share an aspect, a layer and a level.
pub proof fn intersecting_ranges_share(lhs: ImageSubresourceRange, rhs: ImageSubresourceRange)
    requires
        lhs.layer_count > 0,
        lhs.level_count > 0,
        rhs.layer_count > 0,
        rhs.level_count > 0,
    ensures
        intersecting(lhs, rhs) <==> {
            &&& lhs.aspect_mask & rhs.aspect_mask != 0
            &&& exists|layer: int| #[trigger] lhs.has_layer(layer) && rhs.has_layer(layer)
            &&& exists|level: int| #[trigger] lhs.has_level(level) && rhs.has_level(level)
        },
        intersecting(lhs, rhs) == intersecting(rhs, lhs),
{
    let (a, b) = (lhs.aspect_mask, rhs.aspect_mask);
    assert(a & b == b & a) by (bit_vector);
    let layer = if lhs.base_array_layer < rhs.base_array_layer {
        rhs.base_array_layer as int
    } else {
        lhs.base_array_layer as int
    };
    let level = if lhs.base_mip_level < rhs.base_mip_level {
        rhs.base_mip_level as int
    } else {
        lhs.base_mip_level as int
    };
    if intersecting(lhs, rhs) {
        assert(lhs.has_layer(layer) && rhs.has_layer(layer));
        assert(lhs.has_level(level) && rhs.has_level(level));
    }
}

} // verus!
