//! The single subresources of a range.

use crate::dense_map::range_extent;
use crate::grid::{inside, next_place, places_from, precedes, Extent, Place};
use crate::image_range::{
    aspect_count, aspect_mask_at_ordinal, has_bit, lemma_aspects_apart, lemma_bit_has_ordinal,
    nth_bit, ImageSubresourceRange,
};
use vstd::prelude::*;

verus! {

/// The number of places that come before a place.
pub open spec fn place_rank(extent: Extent, p: Place) -> int {
    (p.0 * extent.1 + p.1) * extent.2 + p.2
}

/// The number of places of a grid.
pub open spec fn place_count(extent: Extent) -> int {
    extent.0 * extent.1 * extent.2
}

proof fn lemma_next_rank(extent: Extent, p: Place)
    requires
        inside(extent, p),
    ensures
        place_rank(extent, next_place(extent, p)) == place_rank(extent, p) + 1,
        0 <= place_rank(extent, p) < place_count(extent),
        inside(extent, next_place(extent, p)) || next_place(extent, p) == (extent.0, 0int, 0int),
{
    let (a, l, m) = p;
    let (aspects, layers, levels) = extent;
    assert((a * layers + (l + 1)) * levels == (a * layers + l) * levels + levels)
        by (nonlinear_arith);
    assert((a + 1) * layers == a * layers + layers) by (nonlinear_arith);
    assert(((a + 1) * layers) * levels == (a * layers + layers) * levels) by (nonlinear_arith)
        requires
            (a + 1) * layers == a * layers + layers,
    ;
    assert((a * layers + layers) * levels == (a * layers + (layers - 1)) * levels + levels)
        by (nonlinear_arith);
    assert((a + 1) * layers <= aspects * layers) by (nonlinear_arith)
        requires
            a + 1 <= aspects,
            0 <= layers,
    ;
    assert(a * layers + l + 1 <= aspects * layers);
    assert((a * layers + l + 1) * levels <= aspects * layers * levels) by (nonlinear_arith)
        requires
            a * layers + l + 1 <= aspects * layers,
            0 <= levels,
    ;
    assert((a * layers + l + 1) * levels == (a * layers + l) * levels + levels)
        by (nonlinear_arith);
    assert(0 <= a * layers) by (nonlinear_arith)
        requires
            0 <= a,
            0 <= layers,
    ;
    assert(a * layers + l <= (a * layers + l) * levels) by (nonlinear_arith)
        requires
            0 <= a * layers + l,
            1 <= levels,
    ;
}

/// The places from one on are as many as come from it on, and each of them is at its position.
pub proof fn lemma_places(extent: Extent, p: Place)
    requires
        inside(extent, p) || p == (extent.0, 0int, 0int),
        0 <= extent.0 && 0 <= extent.1 && 0 <= extent.2,
    ensures
        places_from(extent, p).len() == place_count(extent) - place_rank(extent, p),
        forall|i: int|
            0 <= i < places_from(extent, p).len() ==> inside(
                extent,
                #[trigger] places_from(extent, p)[i],
            ) && place_rank(extent, places_from(extent, p)[i]) == place_rank(extent, p) + i,
    decreases extent.0 - p.0, extent.1 - p.1, extent.2 - p.2,
{
    if inside(extent, p) {
        let next = next_place(extent, p);
        lemma_next_rank(extent, p);
        lemma_places(extent, next);
        let rest = places_from(extent, next);
        let all = places_from(extent, p);
        assert forall|i: int| 0 <= i < all.len() implies inside(extent, #[trigger] all[i])
            && place_rank(extent, all[i]) == place_rank(extent, p) + i by {
            if i > 0 {
                assert(all[i] == rest[i - 1]);
            }
        }
    } else {
        let (aspects, layers, levels) = extent;
        assert((aspects * layers + 0) * levels + 0 == aspects * layers * levels)
            by (nonlinear_arith);
    }
}

/// Places that come later have higher ranks.
proof fn lemma_rank_order(extent: Extent, p: Place, q: Place)
    requires
        inside(extent, p),
        inside(extent, q),
        precedes(p, q),
    ensures
        place_rank(extent, p) < place_rank(extent, q),
{
    let (layers, levels) = (extent.1, extent.2);
    if p.0 < q.0 {
        assert((p.0 + 1) * layers <= q.0 * layers) by (nonlinear_arith)
            requires
                p.0 + 1 <= q.0,
                0 <= layers,
        ;
        assert((p.0 + 1) * layers == p.0 * layers + layers) by (nonlinear_arith);
    }
    if p.0 < q.0 || p.1 < q.1 {
        assert((p.0 * layers + p.1 + 1) * levels <= (q.0 * layers + q.1) * levels)
            by (nonlinear_arith)
            requires
                p.0 * layers + p.1 + 1 <= q.0 * layers + q.1,
                0 <= levels,
        ;
        assert((p.0 * layers + p.1 + 1) * levels == (p.0 * layers + p.1) * levels + levels)
            by (nonlinear_arith);
    }
}

/// A place of a grid is the one at its rank among all of them.
pub proof fn lemma_place_at_rank(extent: Extent, p: Place)
    requires
        inside(extent, p),
    ensures
        0 <= place_rank(extent, p) < places_from(extent, (0, 0, 0)).len(),
        places_from(extent, (0, 0, 0))[place_rank(extent, p)] == p,
{
    let places = places_from(extent, (0, 0, 0));
    lemma_places(extent, (0, 0, 0));
    assert((0 * extent.1 + 0) * extent.2 + 0 == 0) by (nonlinear_arith);
    lemma_next_rank(extent, p);
    let q = places[place_rank(extent, p)];
    if precedes(p, q) {
        lemma_rank_order(extent, p, q);
    } else if precedes(q, p) {
        lemma_rank_order(extent, q, p);
    }
}

/// The places of a grid are in order.
pub proof fn lemma_places_ordered(extent: Extent, i: int, j: int)
    requires
        0 <= extent.0 && 0 < extent.1 && 0 < extent.2,
        0 <= i < j < places_from(extent, (0, 0, 0)).len(),
    ensures
        precedes(places_from(extent, (0, 0, 0))[i], places_from(extent, (0, 0, 0))[j]),
{
    let places = places_from(extent, (0, 0, 0));
    lemma_places(extent, (0, 0, 0));
    if precedes(places[j], places[i]) {
        lemma_rank_order(extent, places[j], places[i]);
    }
}

/// The range of a single place of a range.
pub open spec fn subresource_at(range: ImageSubresourceRange, p: Place) -> ImageSubresourceRange {
    ImageSubresourceRange {
        aspect_mask: nth_bit(range.aspect_mask, 0, p.0 as nat),
        base_mip_level: (range.base_mip_level + p.2) as u32,
        level_count: 1,
        base_array_layer: (range.base_array_layer + p.1) as u32,
        layer_count: 1,
    }
}

/// The single subresources of a range, in the order in which they are visited.
pub open spec fn visited(range: ImageSubresourceRange) -> Seq<ImageSubresourceRange> {
    places_from(range_extent(range), (0, 0, 0)).map_values(|p: Place| subresource_at(range, p))
}

/// Whether one subresource comes before another: by aspect, then by array layer, then by mip
/// level.
pub open spec fn comes_before(a: ImageSubresourceRange, b: ImageSubresourceRange) -> bool {
    a.aspect_mask < b.aspect_mask || a.aspect_mask == b.aspect_mask && (a.base_array_layer
        < b.base_array_layer || a.base_array_layer == b.base_array_layer && a.base_mip_level
        < b.base_mip_level)
}

/// Subresources are visited in order: by aspect, then by array layer, then by mip level.
pub proof fn visits_are_ordered(range: ImageSubresourceRange, i: int, j: int)
    requires
        range.layer_count > 0,
        range.level_count > 0,
        range.bounded(),
        0 <= i < j < visited(range).len(),
    ensures
        comes_before(visited(range)[i], visited(range)[j]),
{
    let extent = range_extent(range);
    let places = places_from(extent, (0, 0, 0));
    lemma_places_ordered(extent, i, j);
    lemma_places(extent, (0, 0, 0));
    let (p, q) = (places[i], places[j]);
    assert(inside(extent, p) && inside(extent, q));
    lemma_aspects_apart(range.aspect_mask, p.0 as nat, q.0 as nat);
}

/// What is visited is one aspect, one array layer and one mip level of the range.
pub proof fn visits_are_single(range: ImageSubresourceRange, i: int)
    requires
        range.layer_count > 0,
        range.level_count > 0,
        range.bounded(),
        0 <= i < visited(range).len(),
    ensures
        ({
            let found = visited(range)[i];
            &&& found.layer_count == 1 && range.has_layer(found.base_array_layer as int)
            &&& found.level_count == 1 && range.has_level(found.base_mip_level as int)
            &&& exists|bit: u32|
                bit < 32 && #[trigger] has_bit(range.aspect_mask, bit) && found.aspect_mask
                    == 1u32 << bit
        }),
{
    let extent = range_extent(range);
    lemma_places(extent, (0, 0, 0));
    let p = places_from(extent, (0, 0, 0))[i];
    assert(inside(extent, p));
    lemma_aspects_apart(range.aspect_mask, p.0 as nat, p.0 as nat);
}

/// Every aspect of every mip level of every array layer of a range is visited, and that once.
pub proof fn visits_are_complete(range: ImageSubresourceRange, bit: u32, layer: u32, level: u32)
    requires
        range.bounded(),
        bit < 32,
        has_bit(range.aspect_mask, bit),
        range.has_layer(layer as int),
        range.has_level(level as int),
    ensures
        ({
            let wanted = ImageSubresourceRange {
                aspect_mask: 1u32 << bit,
                base_mip_level: level,
                level_count: 1,
                base_array_layer: layer,
                layer_count: 1,
            };
            exists|i: int|
                0 <= i < visited(range).len() && #[trigger] visited(range)[i] == wanted && forall|
                    j: int,
                |
                    0 <= j < visited(range).len() && #[trigger] visited(range)[j] == wanted ==> j
                        == i
        }),
{
    let extent = range_extent(range);
    let ordinal = lemma_bit_has_ordinal(range.aspect_mask, 0, bit);
    let p: Place = (
        ordinal as int,
        layer - range.base_array_layer,
        level - range.base_mip_level,
    );
    lemma_place_at_rank(extent, p);
    let i = place_rank(extent, p);
    let wanted = subresource_at(range, p);
    assert(visited(range)[i] == wanted);
    assert forall|j: int|
        0 <= j < visited(range).len() && #[trigger] visited(range)[j] == wanted implies j == i by {
        if i < j {
            visits_are_ordered(range, i, j);
        } else if j < i {
            visits_are_ordered(range, j, i);
        }
    }
}

/// Visits the single subresources of a range: aspects in order, in each of them array layers, and
/// in each of these mip levels.
#[derive(Debug)]
pub struct ImageSubresourceRangeIter {
    aspect_mask: u32,
    aspect: u8,
    aspect_count: u8,
    array_layer: u32,
    end_array_layer: u32,
    base_array_layer: u32,
    base_mip_level: u32,
    mip_level: u32,
    end_mip_level: u32,
    remaining: usize,
}

impl ImageSubresourceRangeIter {
    /// The range that is visited.
    pub closed spec fn range(self) -> ImageSubresourceRange {
        ImageSubresourceRange {
            aspect_mask: self.aspect_mask,
            base_mip_level: self.base_mip_level,
            level_count: (self.end_mip_level - self.base_mip_level) as u32,
            base_array_layer: self.base_array_layer,
            layer_count: (self.end_array_layer - self.base_array_layer) as u32,
        }
    }

    /// The place that is visited next.
    pub closed spec fn place(self) -> Place {
        (
            self.aspect as int,
            self.array_layer - self.base_array_layer,
            self.mip_level - self.base_mip_level,
        )
    }

    /// The places that are still to be visited.
    pub open spec fn places(self) -> Seq<Place> {
        places_from(range_extent(self.range()), self.place())
    }

    /// The subresources that are still to be visited.
    pub open spec fn upcoming(self) -> Seq<ImageSubresourceRange> {
        self.places().map_values(|p: Place| subresource_at(self.range(), p))
    }

    /// The next place lies in the range, or all of them were visited.
    pub closed spec fn wf(self) -> bool {
        let extent = range_extent(self.range());
        &&& self.base_array_layer < self.end_array_layer
        &&& self.base_mip_level < self.end_mip_level
        &&& self.aspect_count == extent.0
        &&& inside(extent, self.place()) || self.place() == (extent.0, 0int, 0int)
        &&& self.remaining == place_count(extent) - place_rank(extent, self.place())
    }

    /// Starts at the first subresource of a range.
    pub fn new(range: ImageSubresourceRange) -> (iter: Self)
        requires
            range.layer_count > 0,
            range.level_count > 0,
            range.bounded(),
            place_count(range_extent(range)) <= usize::MAX,
        ensures
            iter.wf(),
            iter.range() == range,
            iter.place() == (0int, 0int, 0int),
            iter.upcoming() == visited(range),
    {
        let count: u8 = aspect_count(range.aspect_mask);
        proof {
            let (layers, levels) = (range.layer_count as int, range.level_count as int);
            assert(count * layers <= count * layers * levels) by (nonlinear_arith)
                requires
                    0 <= count,
                    0 <= layers,
                    1 <= levels,
            ;
            assert((0 * layers + 0) * levels + 0 == 0) by (nonlinear_arith);
        }
        ImageSubresourceRangeIter {
            aspect_mask: range.aspect_mask,
            aspect: 0,
            aspect_count: count,
            array_layer: range.base_array_layer,
            end_array_layer: range.base_array_layer + range.layer_count,
            base_array_layer: range.base_array_layer,
            base_mip_level: range.base_mip_level,
            mip_level: range.base_mip_level,
            end_mip_level: range.base_mip_level + range.level_count,
            remaining: count as usize * range.layer_count as usize * range.level_count as usize,
        }
    }

    /// The number of subresources that are still to be visited.
    pub fn len(&self) -> (len: usize)
        requires
            self.wf(),
        ensures
            len == self.places().len(),
            len == self.upcoming().len(),
    {
        proof {
            lemma_places(range_extent(self.range()), self.place());
        }
        self.remaining
    }

    /// Visits the next subresource.
    pub fn next(&mut self) -> (subresource: Option<ImageSubresourceRange>)
        requires
            old(self).wf(),
        ensures
            final(self).wf(),
            final(self).range() == old(self).range(),
            subresource is Some == (old(self).places().len() > 0),
            subresource matches Some(range) ==> range == subresource_at(
                old(self).range(),
                old(self).places()[0],
            ) && final(self).places() == old(self).places().skip(1),
            subresource matches Some(range) ==> range == old(self).upcoming()[0]
                && final(self).upcoming() == old(self).upcoming().skip(1),
            subresource is None ==> *final(self) == *old(self),
    {
        let ghost extent = range_extent(self.range());
        let ghost place = self.place();
        proof {
            lemma_places(extent, place);
        }
        if self.aspect >= self.aspect_count {
            return None;
        }
        proof {
            lemma_next_rank(extent, place);
        }
        let range = ImageSubresourceRange {
            aspect_mask: aspect_mask_at_ordinal(self.aspect_mask, self.aspect as u32),
            base_array_layer: self.array_layer,
            layer_count: 1,
            base_mip_level: self.mip_level,
            level_count: 1,
        };
        self.mip_level += 1;
        if self.mip_level >= self.end_mip_level {
            self.mip_level = self.base_mip_level;
            self.array_layer += 1;
            if self.array_layer >= self.end_array_layer {
                self.array_layer = self.base_array_layer;
                self.aspect += 1;
            }
        }
        self.remaining -= 1;
        proof {
            assert(self.place() == next_place(extent, place));
            assert(old(self).places().skip(1) =~= self.places());
            assert(old(self).upcoming().skip(1) =~= self.upcoming());
        }
        Some(range)
    }
}

} // verus!
