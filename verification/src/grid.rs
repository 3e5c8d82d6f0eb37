//! Grids of image subresources, and the blocks of equal values that a visit of one reports.

use vstd::prelude::*;

verus! {

/// A position in a grid of subresources: aspect, array layer and mip level.
pub type Place = (int, int, int);

/// The sizes of a grid: the number of aspects, array layers and mip levels.
pub type Extent = (int, int, int);

/// The values of the places in a grid.
pub type Grid<V> = spec_fn(int, int, int) -> V;

/// Whether a place lies in a grid.
pub open spec fn inside(extent: Extent, place: Place) -> bool {
    &&& 0 <= place.0 < extent.0
    &&& 0 <= place.1 < extent.1
    &&& 0 <= place.2 < extent.2
}

/// Whether one place comes before another: aspects come in order, in each of them array layers,
/// and in each of those mip levels.
pub open spec fn precedes(a: Place, b: Place) -> bool {
    a.0 < b.0 || a.0 == b.0 && (a.1 < b.1 || a.1 == b.1 && a.2 < b.2)
}

/// The place at which a visit may stand: one in the grid, or the one behind its last aspect.
pub open spec fn standing(extent: Extent, place: Place) -> bool {
    inside(extent, place) || place == (extent.0, 0int, 0int)
}

/// Whether all levels of an array layer hold a value.
pub open spec fn layer_holds<V>(grid: Grid<V>, extent: Extent, a: int, l: int, value: V) -> bool {
    forall|m: int| 0 <= m < extent.2 ==> #[trigger] grid(a, l, m) == value
}

/// Whether all layers and levels of an aspect hold a value.
pub open spec fn aspect_holds<V>(grid: Grid<V>, extent: Extent, a: int, value: V) -> bool {
    forall|l: int, m: int|
        0 <= l < extent.1 && 0 <= m < extent.2 ==> #[trigger] grid(a, l, m) == value
}

/// The first mip level from `m` on that does not hold a value.
pub open spec fn mip_stop<V>(
    grid: Grid<V>,
    extent: Extent,
    a: int,
    l: int,
    m: int,
    value: V,
) -> int
    decreases extent.2 - m,
{
    if m >= extent.2 || grid(a, l, m) != value {
        m
    } else {
        mip_stop(grid, extent, a, l, m + 1, value)
    }
}

/// The first array layer from `l` on that does not hold a value in all levels.
pub open spec fn layer_stop<V>(grid: Grid<V>, extent: Extent, a: int, l: int, value: V) -> int
    decreases extent.1 - l,
{
    if l >= extent.1 || !layer_holds(grid, extent, a, l, value) {
        l
    } else {
        layer_stop(grid, extent, a, l + 1, value)
    }
}

/// The first aspect from `a` on that does not hold a value in all layers and levels.
pub open spec fn aspect_stop<V>(grid: Grid<V>, extent: Extent, a: int, value: V) -> int
    decreases extent.0 - a,
{
    if a >= extent.0 || !aspect_holds(grid, extent, a, value) {
        a
    } else {
        aspect_stop(grid, extent, a + 1, value)
    }
}

/// A block of a grid, from one place up to the ends in each direction.
pub struct Block {
    pub from: Place,
    pub to: Place,
}

/// Where the levels of the block that starts at a place end.
pub open spec fn mip_end<V>(grid: Grid<V>, extent: Extent, p: Place) -> int {
    mip_stop(grid, extent, p.0, p.1, p.2 + 1, grid(p.0, p.1, p.2))
}

/// Where its array layers end: it has more than one only where it has all levels of the first.
pub open spec fn layer_end<V>(grid: Grid<V>, extent: Extent, p: Place) -> int {
    if mip_end(grid, extent, p) == extent.2 && p.2 == 0 {
        layer_stop(grid, extent, p.0, p.1 + 1, grid(p.0, p.1, p.2))
    } else {
        p.1 + 1
    }
}

/// Where its aspects end: it has more than one only where it has all levels of all layers of the
/// first.
pub open spec fn aspect_end<V>(grid: Grid<V>, extent: Extent, p: Place) -> int {
    if mip_end(grid, extent, p) == extent.2 && layer_end(grid, extent, p) == extent.1 && p.1 == 0
        && p.2 == 0 {
        aspect_stop(grid, extent, p.0 + 1, grid(p.0, p.1, p.2))
    } else {
        p.0 + 1
    }
}

/// The block that a visit reports when it stands at a place.
pub open spec fn block_at<V>(grid: Grid<V>, extent: Extent, p: Place) -> Block {
    Block {
        from: p,
        to: (aspect_end(grid, extent, p), layer_end(grid, extent, p), mip_end(grid, extent, p)),
    }
}

/// The place at which the visit stands afterwards.
pub open spec fn place_after<V>(grid: Grid<V>, extent: Extent, p: Place) -> Place {
    if mip_end(grid, extent, p) < extent.2 {
        (p.0, p.1, mip_end(grid, extent, p))
    } else if layer_end(grid, extent, p) < extent.1 {
        (p.0, layer_end(grid, extent, p), 0)
    } else {
        (aspect_end(grid, extent, p), 0, 0)
    }
}

/// All blocks that a visit reports from a place on, with the values that they hold.
pub open spec fn blocks_from<V>(grid: Grid<V>, extent: Extent, p: Place) -> Seq<(V, Block)>
    decreases extent.0 - p.0, extent.1 - p.1, extent.2 - p.2,
{
    if !inside(extent, p) {
        seq![]
    } else {
        proof {
            lemma_place_after(grid, extent, p);
        }
        seq![(grid(p.0, p.1, p.2), block_at(grid, extent, p))] + blocks_from(
            grid,
            extent,
            place_after(grid, extent, p),
        )
    }
}

pub(crate) proof fn lemma_mip_stop<V>(grid: Grid<V>, extent: Extent, a: int, l: int, m: int, value: V)
    requires
        m <= extent.2,
    ensures
        m <= mip_stop(grid, extent, a, l, m, value) <= extent.2,
        forall|i: int|
            m <= i < mip_stop(grid, extent, a, l, m, value) ==> #[trigger] grid(a, l, i) == value,
        mip_stop(grid, extent, a, l, m, value) < extent.2 ==> grid(
            a,
            l,
            mip_stop(grid, extent, a, l, m, value),
        ) != value,
    decreases extent.2 - m,
{
    if !(m >= extent.2 || grid(a, l, m) != value) {
        lemma_mip_stop(grid, extent, a, l, m + 1, value);
    }
}

pub(crate) proof fn lemma_layer_stop<V>(grid: Grid<V>, extent: Extent, a: int, l: int, value: V)
    requires
        l <= extent.1,
    ensures
        l <= layer_stop(grid, extent, a, l, value) <= extent.1,
        forall|i: int, m: int|
            l <= i < layer_stop(grid, extent, a, l, value) && 0 <= m < extent.2
                ==> #[trigger] grid(a, i, m) == value,
        layer_stop(grid, extent, a, l, value) < extent.1 ==> !layer_holds(
            grid,
            extent,
            a,
            layer_stop(grid, extent, a, l, value),
            value,
        ),
    decreases extent.1 - l,
{
    if !(l >= extent.1 || !layer_holds(grid, extent, a, l, value)) {
        lemma_layer_stop(grid, extent, a, l + 1, value);
    }
}

pub(crate) proof fn lemma_aspect_stop<V>(grid: Grid<V>, extent: Extent, a: int, value: V)
    requires
        a <= extent.0,
    ensures
        a <= aspect_stop(grid, extent, a, value) <= extent.0,
        forall|i: int, l: int, m: int|
            a <= i < aspect_stop(grid, extent, a, value) && 0 <= l < extent.1 && 0 <= m < extent.2
                ==> #[trigger] grid(i, l, m) == value,
        aspect_stop(grid, extent, a, value) < extent.0 ==> !aspect_holds(
            grid,
            extent,
            aspect_stop(grid, extent, a, value),
            value,
        ),
    decreases extent.0 - a,
{
    if !(a >= extent.0 || !aspect_holds(grid, extent, a, value)) {
        lemma_aspect_stop(grid, extent, a + 1, value);
    }
}

/// A visit moves on, and every place that it passes holds the value that it reports.
pub proof fn lemma_place_after<V>(grid: Grid<V>, extent: Extent, p: Place)
    requires
        inside(extent, p),
    ensures
        precedes(p, place_after(grid, extent, p)),
        standing(extent, place_after(grid, extent, p)),
        forall|a: int, l: int, m: int|
            inside(extent, (a, l, m)) && !precedes((a, l, m), p) && precedes(
                (a, l, m),
                place_after(grid, extent, p),
            ) ==> #[trigger] grid(a, l, m) == grid(p.0, p.1, p.2),
{
    let value = grid(p.0, p.1, p.2);
    lemma_mip_stop(grid, extent, p.0, p.1, p.2 + 1, value);
    lemma_layer_stop(grid, extent, p.0, p.1 + 1, value);
    lemma_aspect_stop(grid, extent, p.0 + 1, value);
}

/// Reported blocks are not empty, lie in the grid, and hold the value that they are reported with.
pub proof fn block_holds_value<V>(grid: Grid<V>, extent: Extent, p: Place)
    requires
        inside(extent, p),
    ensures
        ({
            let to = block_at(grid, extent, p).to;
            &&& p.0 < to.0 <= extent.0
            &&& p.1 < to.1 <= extent.1
            &&& p.2 < to.2 <= extent.2
            &&& forall|a: int, l: int, m: int|
                p.0 <= a < to.0 && p.1 <= l < to.1 && p.2 <= m < to.2 ==> #[trigger] grid(a, l, m)
                    == grid(p.0, p.1, p.2)
        }),
{
    let value = grid(p.0, p.1, p.2);
    lemma_mip_stop(grid, extent, p.0, p.1, p.2 + 1, value);
    lemma_layer_stop(grid, extent, p.0, p.1 + 1, value);
    lemma_aspect_stop(grid, extent, p.0 + 1, value);
}

/// Whether a place lies in a block.
pub open spec fn in_block(block: Block, p: Place) -> bool {
    &&& block.from.0 <= p.0 < block.to.0
    &&& block.from.1 <= p.1 < block.to.1
    &&& block.from.2 <= p.2 < block.to.2
}

/// Whether some block of a list has a place.
pub open spec fn reported<V>(blocks: Seq<(V, Block)>, p: Place) -> bool {
    exists|i: int| 0 <= i < blocks.len() && in_block((#[trigger] blocks[i]).1, p)
}

/// A block that is reported at a place lies between it and the place at which the visit stands
/// afterwards.
proof fn lemma_block_between<V>(grid: Grid<V>, extent: Extent, p: Place, q: Place)
    requires
        inside(extent, p),
        in_block(block_at(grid, extent, p), q),
    ensures
        inside(extent, q),
        !precedes(q, p),
        precedes(q, place_after(grid, extent, p)),
{
    let value = grid(p.0, p.1, p.2);
    lemma_mip_stop(grid, extent, p.0, p.1, p.2 + 1, value);
    lemma_layer_stop(grid, extent, p.0, p.1 + 1, value);
    lemma_aspect_stop(grid, extent, p.0 + 1, value);
}

proof fn lemma_blocks_after<V>(grid: Grid<V>, extent: Extent, p: Place, i: int, q: Place)
    requires
        standing(extent, p),
        0 <= i < blocks_from(grid, extent, p).len(),
        in_block(blocks_from(grid, extent, p)[i].1, q),
    ensures
        inside(extent, q),
        !precedes(q, p),
        grid(q.0, q.1, q.2) == blocks_from(grid, extent, p)[i].0,
    decreases extent.0 - p.0, extent.1 - p.1, extent.2 - p.2,
{
    lemma_place_after(grid, extent, p);
    if i == 0 {
        lemma_block_between(grid, extent, p, q);
        block_holds_value(grid, extent, p);
    } else {
        let after = place_after(grid, extent, p);
        assert(blocks_from(grid, extent, p)[i] == blocks_from(grid, extent, after)[i - 1]);
        lemma_blocks_after(grid, extent, after, i - 1, q);
    }
}

/// No place is reported twice.
pub proof fn blocks_are_disjoint<V>(
    grid: Grid<V>,
    extent: Extent,
    p: Place,
    i: int,
    j: int,
    q: Place,
)
    requires
        standing(extent, p),
        0 <= i < j < blocks_from(grid, extent, p).len(),
    ensures
        !(in_block(blocks_from(grid, extent, p)[i].1, q) && in_block(
            blocks_from(grid, extent, p)[j].1,
            q,
        )),
    decreases extent.0 - p.0, extent.1 - p.1, extent.2 - p.2,
{
    let blocks = blocks_from(grid, extent, p);
    lemma_place_after(grid, extent, p);
    let after = place_after(grid, extent, p);
    let rest = blocks_from(grid, extent, after);
    assert(blocks[j] == rest[j - 1]);
    if i > 0 {
        assert(blocks[i] == rest[i - 1]);
        blocks_are_disjoint(grid, extent, after, i - 1, j - 1, q);
    } else if in_block(blocks[i].1, q) && in_block(blocks[j].1, q) {
        lemma_block_between(grid, extent, p, q);
        lemma_blocks_after(grid, extent, after, j - 1, q);
    }
}

proof fn lemma_blocks_lie_in_grid<V>(grid: Grid<V>, extent: Extent, p: Place, i: int)
    requires
        standing(extent, p),
        0 <= i < blocks_from(grid, extent, p).len(),
    ensures
        ({
            let block = blocks_from(grid, extent, p)[i].1;
            &&& 0 <= block.from.0 < block.to.0 <= extent.0
            &&& 0 <= block.from.1 < block.to.1 <= extent.1
            &&& 0 <= block.from.2 < block.to.2 <= extent.2
        }),
    decreases extent.0 - p.0, extent.1 - p.1, extent.2 - p.2,
{
    lemma_place_after(grid, extent, p);
    if i == 0 {
        block_holds_value(grid, extent, p);
    } else {
        let after = place_after(grid, extent, p);
        assert(blocks_from(grid, extent, p)[i] == blocks_from(grid, extent, after)[i - 1]);
        lemma_blocks_lie_in_grid(grid, extent, after, i - 1);
    }
}

/// The blocks that a visit of a whole grid reports are not empty, and lie in the grid.
pub proof fn blocks_lie_in_grid<V>(grid: Grid<V>, extent: Extent, i: int)
    requires
        0 < extent.0 && 0 < extent.1 && 0 < extent.2,
        0 <= i < blocks_from(grid, extent, (0, 0, 0)).len(),
    ensures
        ({
            let block = blocks_from(grid, extent, (0, 0, 0))[i].1;
            &&& 0 <= block.from.0 < block.to.0 <= extent.0
            &&& 0 <= block.from.1 < block.to.1 <= extent.1
            &&& 0 <= block.from.2 < block.to.2 <= extent.2
        }),
{
    lemma_blocks_lie_in_grid(grid, extent, (0, 0, 0), i);
}

/// What a reported block holds is what its places held.
pub proof fn blocks_hold_values<V>(grid: Grid<V>, extent: Extent, i: int, q: Place)
    requires
        0 < extent.0 && 0 < extent.1 && 0 < extent.2,
        0 <= i < blocks_from(grid, extent, (0, 0, 0)).len(),
        in_block(blocks_from(grid, extent, (0, 0, 0))[i].1, q),
    ensures
        inside(extent, q),
        grid(q.0, q.1, q.2) == blocks_from(grid, extent, (0, 0, 0))[i].0,
{
    lemma_blocks_after(grid, extent, (0, 0, 0), i, q);
}

proof fn lemma_cover<V>(grid: Grid<V>, extent: Extent, p: Place, q: Place)
    requires
        standing(extent, p),
        inside(extent, q),
        !precedes(q, p),
    ensures
        reported(blocks_from(grid, extent, p), q),
    decreases extent.0 - p.0, extent.1 - p.1, extent.2 - p.2,
{
    let value = grid(p.0, p.1, p.2);
    let after = place_after(grid, extent, p);
    let rest = blocks_from(grid, extent, after);
    let blocks = blocks_from(grid, extent, p);
    assert(inside(extent, p));
    lemma_place_after(grid, extent, p);
    if precedes(q, after) {
        lemma_mip_stop(grid, extent, p.0, p.1, p.2 + 1, value);
        lemma_layer_stop(grid, extent, p.0, p.1 + 1, value);
        lemma_aspect_stop(grid, extent, p.0 + 1, value);
        assert(blocks[0].1 == block_at(grid, extent, p));
        assert(in_block(blocks[0].1, q));
    } else {
        lemma_cover(grid, extent, after, q);
        let i = choose|i: int| 0 <= i < rest.len() && in_block((#[trigger] rest[i]).1, q);
        assert(blocks[i + 1] == rest[i]);
    }
}

/// A visit of a whole grid reports every place.
pub proof fn blocks_cover_grid<V>(grid: Grid<V>, extent: Extent, q: Place)
    requires
        inside(extent, q),
    ensures
        reported(blocks_from(grid, extent, (0, 0, 0)), q),
{
    lemma_cover(grid, extent, (0, 0, 0), q);
}

/// Blocks depend only on the values that are still to be visited.
pub(crate) proof fn lemma_blocks_agree<V>(a: Grid<V>, b: Grid<V>, extent: Extent, p: Place)
    requires
        standing(extent, p),
        forall|x: int, l: int, m: int|
            #![trigger a(x, l, m)]
            #![trigger b(x, l, m)]
            inside(extent, (x, l, m)) && !precedes((x, l, m), p) ==> a(x, l, m) == b(x, l, m),
    ensures
        blocks_from(a, extent, p) == blocks_from(b, extent, p),
    decreases extent.0 - p.0, extent.1 - p.1, extent.2 - p.2,
{
    if inside(extent, p) {
        lemma_block_agrees(a, b, extent, p);
        lemma_place_after(a, extent, p);
        lemma_blocks_agree(a, b, extent, place_after(a, extent, p));
    }
}

pub(crate) proof fn lemma_block_agrees<V>(a: Grid<V>, b: Grid<V>, extent: Extent, p: Place)
    requires
        inside(extent, p),
        forall|x: int, l: int, m: int|
            #![trigger a(x, l, m)]
            #![trigger b(x, l, m)]
            inside(extent, (x, l, m)) && !precedes((x, l, m), p) ==> a(x, l, m) == b(x, l, m),
    ensures
        a(p.0, p.1, p.2) == b(p.0, p.1, p.2),
        block_at(a, extent, p) == block_at(b, extent, p),
        place_after(a, extent, p) == place_after(b, extent, p),
{
    let value = a(p.0, p.1, p.2);
    lemma_mip_stop_agrees(a, b, extent, p.0, p.1, p.2 + 1, value);
    lemma_layer_stop_agrees(a, b, extent, p.0, p.1 + 1, value);
    lemma_aspect_stop_agrees(a, b, extent, p.0 + 1, value);
}

proof fn lemma_mip_stop_agrees<V>(
    a: Grid<V>,
    b: Grid<V>,
    extent: Extent,
    x: int,
    l: int,
    m: int,
    value: V,
)
    requires
        forall|i: int| m <= i < extent.2 ==> #[trigger] a(x, l, i) == b(x, l, i),
    ensures
        mip_stop(a, extent, x, l, m, value) == mip_stop(b, extent, x, l, m, value),
    decreases extent.2 - m,
{
    if m < extent.2 {
        assert(a(x, l, m) == b(x, l, m));
        lemma_mip_stop_agrees(a, b, extent, x, l, m + 1, value);
    }
}

proof fn lemma_layer_stop_agrees<V>(
    a: Grid<V>,
    b: Grid<V>,
    extent: Extent,
    x: int,
    l: int,
    value: V,
)
    requires
        forall|i: int, m: int|
            #![trigger a(x, i, m)]
            #![trigger b(x, i, m)]
            l <= i < extent.1 && 0 <= m < extent.2 ==> a(x, i, m) == b(x, i, m),
    ensures
        layer_stop(a, extent, x, l, value) == layer_stop(b, extent, x, l, value),
    decreases extent.1 - l,
{
    if l < extent.1 {
        assert(layer_holds(a, extent, x, l, value) == layer_holds(b, extent, x, l, value));
        lemma_layer_stop_agrees(a, b, extent, x, l + 1, value);
    }
}

proof fn lemma_aspect_stop_agrees<V>(a: Grid<V>, b: Grid<V>, extent: Extent, x: int, value: V)
    requires
        forall|i: int, l: int, m: int|
            #![trigger a(i, l, m)]
            #![trigger b(i, l, m)]
            x <= i < extent.0 && 0 <= l < extent.1 && 0 <= m < extent.2 ==> a(i, l, m) == b(
                i,
                l,
                m,
            ),
    ensures
        aspect_stop(a, extent, x, value) == aspect_stop(b, extent, x, value),
    decreases extent.0 - x,
{
    if x < extent.0 {
        assert(aspect_holds(a, extent, x, value) == aspect_holds(b, extent, x, value));
        lemma_aspect_stop_agrees(a, b, extent, x + 1, value);
    }
}

/// A grid that holds a single value is reported as one block.
pub proof fn uniform_grid_is_one_block<V>(grid: Grid<V>, extent: Extent, value: V)
    requires
        0 < extent.0 && 0 < extent.1 && 0 < extent.2,
        forall|a: int, l: int, m: int|
            inside(extent, (a, l, m)) ==> #[trigger] grid(a, l, m) == value,
    ensures
        blocks_from(grid, extent, (0, 0, 0)) == seq![
            (value, Block { from: (0int, 0int, 0int), to: extent }),
        ],
{
    let p: Place = (0, 0, 0);
    assert(grid(0, 0, 0) == value);
    lemma_mip_stop(grid, extent, 0, 0, 1, value);
    lemma_layer_stop(grid, extent, 0, 1, value);
    lemma_aspect_stop(grid, extent, 1, value);
    if mip_end(grid, extent, p) < extent.2 {
        assert(grid(0, 0, mip_end(grid, extent, p)) == value);
    }
    if layer_end(grid, extent, p) < extent.1 {
        assert(layer_holds(grid, extent, 0, layer_end(grid, extent, p), value));
    }
    if aspect_end(grid, extent, p) < extent.0 {
        assert(aspect_holds(grid, extent, aspect_end(grid, extent, p), value));
    }
    let after = place_after(grid, extent, p);
    assert(after == (extent.0, 0int, 0int));
    assert(blocks_from(grid, extent, after) =~= seq![]);
    assert(blocks_from(grid, extent, p) =~= seq![
        (value, Block { from: (0int, 0int, 0int), to: extent }),
    ]);
}

/// The place that follows a place in order.
pub open spec fn next_place(extent: Extent, p: Place) -> Place {
    if p.2 + 1 < extent.2 {
        (p.0, p.1, p.2 + 1)
    } else if p.1 + 1 < extent.1 {
        (p.0, p.1 + 1, 0)
    } else {
        (p.0 + 1, 0, 0)
    }
}

/// The places of a grid from one on, in order.
pub open spec fn places_from(extent: Extent, p: Place) -> Seq<Place>
    decreases extent.0 - p.0, extent.1 - p.1, extent.2 - p.2,
{
    if !inside(extent, p) {
        seq![]
    } else {
        seq![p] + places_from(extent, next_place(extent, p))
    }
}

} // verus!
