//! Reports of the synchronization state of image ranges.

use crate::access::AccessType;
use crate::dense_map::{place_in_map, range_aspects, range_extent};
use crate::grid::{inside, places_from, Grid, Place};
use crate::image_access::{image_extent, range_in_image};
use crate::image_info::ImageInfo;
use crate::image_range::{
    lemma_aspects_apart, lemma_supported_aspects, nth_bit, ImageSubresourceRange,
};
use crate::image_subresources::{
    lemma_place_at_rank, lemma_places, place_rank, subresource_at,
};
use crate::image_sync::{
    compacted, compacted_along, holds, Axis, ImageSubresourceSyncInfo,
};
use crate::sharing::SharingMode;
use vstd::prelude::*;

verus! {

/// The entry of one place of a range.
pub open spec fn entry_at(
    accesses: Grid<AccessType>,
    modes: Grid<SharingMode>,
    info: ImageInfo,
    range: ImageSubresourceRange,
    p: Place,
) -> (ImageSubresourceSyncInfo, SharingMode) {
    let place = place_in_map(image_extent(info), range, p);
    (
        ImageSubresourceSyncInfo::of_access(
            accesses(place.0, place.1, place.2),
            subresource_at(range, p),
        ),
        modes(place.0, place.1, place.2),
    )
}

/// The entries of some places of a range.
pub open spec fn entries_at(
    accesses: Grid<AccessType>,
    modes: Grid<SharingMode>,
    info: ImageInfo,
    range: ImageSubresourceRange,
    places: Seq<Place>,
) -> Seq<(ImageSubresourceSyncInfo, SharingMode)> {
    places.map_values(|p: Place| entry_at(accesses, modes, info, range, p))
}

/// The entries of all places of a range, in order.
pub open spec fn entries(
    accesses: Grid<AccessType>,
    modes: Grid<SharingMode>,
    info: ImageInfo,
    range: ImageSubresourceRange,
) -> Seq<(ImageSubresourceSyncInfo, SharingMode)> {
    entries_at(accesses, modes, info, range, places_from(range_extent(range), (0, 0, 0)))
}

/// Whether two entries ask for the same synchronization, with the same owner.
pub open spec fn joins(
    entry: (ImageSubresourceSyncInfo, SharingMode),
    next: (ImageSubresourceSyncInfo, SharingMode),
) -> bool {
    entry.0.syncs_as(next.0) && entry.1 == next.1
}

/// A report followed by one more entry: where that entry continues the last one along an axis, and
/// has the same owner, the last one becomes longer.
pub open spec fn report_push(
    axis: Axis,
    report: Seq<(ImageSubresourceSyncInfo, SharingMode)>,
    next: (ImageSubresourceSyncInfo, SharingMode),
) -> Seq<(ImageSubresourceSyncInfo, SharingMode)> {
    if report.len() > 0 && report.last().1 == next.1 && report.last().0.merges_with(axis, next.0) {
        report.drop_last().push((report.last().0.merged(axis, next.0), report.last().1))
    } else {
        report.push(next)
    }
}

/// The report of entries along an axis.
pub open spec fn report_along(
    axis: Axis,
    entries: Seq<(ImageSubresourceSyncInfo, SharingMode)>,
) -> Seq<(ImageSubresourceSyncInfo, SharingMode)>
    decreases entries.len(),
{
    if entries.len() == 0 {
        entries
    } else {
        report_push(axis, report_along(axis, entries.drop_last()), entries.last())
    }
}

/// The report of a range: entries are joined along mip levels, and then along array layers.
pub open spec fn report(
    accesses: Grid<AccessType>,
    modes: Grid<SharingMode>,
    info: ImageInfo,
    range: ImageSubresourceRange,
) -> Seq<(ImageSubresourceSyncInfo, SharingMode)> {
    report_along(
        Axis::ArrayLayers,
        report_along(Axis::MipLevels, entries(accesses, modes, info, range)),
    )
}

/// Whether a range is a part of another one, with one of its aspects.
pub open spec fn is_part(range: ImageSubresourceRange, part: ImageSubresourceRange) -> bool {
    &&& range.contains(part)
    &&& exists|a: int|
        0 <= a < range_aspects(range) && part.aspect_mask == #[trigger] nth_bit(
            range.aspect_mask,
            0,
            a as nat,
        )
}

/// Whether all entries are of parts of a range.
pub open spec fn are_parts(
    range: ImageSubresourceRange,
    entries: Seq<(ImageSubresourceSyncInfo, SharingMode)>,
) -> bool {
    forall|i: int| 0 <= i < entries.len() ==> is_part(range, (#[trigger] entries[i]).0.range)
}

/// Joining parts of a range gives parts of it.
pub proof fn lemma_parts(
    axis: Axis,
    range: ImageSubresourceRange,
    entries: Seq<(ImageSubresourceSyncInfo, SharingMode)>,
)
    requires
        range.bounded(),
        are_parts(range, entries),
    ensures
        are_parts(range, report_along(axis, entries)),
    decreases entries.len(),
{
    if entries.len() > 0 {
        let some = entries.drop_last();
        assert forall|i: int| 0 <= i < some.len() implies is_part(
            range,
            (#[trigger] some[i]).0.range,
        ) by {
            assert(some[i] == entries[i]);
        }
        lemma_parts(axis, range, some);
        let before = report_along(axis, some);
        let after = report_along(axis, entries);
        assert(is_part(range, entries[entries.len() - 1].0.range));
        assert forall|i: int| 0 <= i < after.len() implies is_part(
            range,
            (#[trigger] after[i]).0.range,
        ) by {
            if i < before.len() {
                assert(is_part(range, before[i].0.range));
            }
        }
    }
}

/// The entries of a range are of parts of it.
pub proof fn lemma_entries_are_parts(
    accesses: Grid<AccessType>,
    modes: Grid<SharingMode>,
    info: ImageInfo,
    range: ImageSubresourceRange,
)
    requires
        range_in_image(info, range),
    ensures
        range.bounded(),
        are_parts(range, entries(accesses, modes, info, range)),
{
    let extent = range_extent(range);
    let places = places_from(extent, (0, 0, 0));
    let list = entries(accesses, modes, info, range);
    lemma_supported_aspects(range.aspect_mask);
    lemma_places(extent, (0, 0, 0));
    assert forall|i: int| 0 <= i < list.len() implies is_part(
        range,
        (#[trigger] list[i]).0.range,
    ) by {
        let p = places[i];
        assert(list[i] == entry_at(accesses, modes, info, range, p));
        assert(inside(extent, p));
        lemma_aspects_apart(range.aspect_mask, p.0 as nat, p.0 as nat);
    }
}

/// A report of a range is of parts of it.
pub proof fn lemma_report_is_of_parts(
    accesses: Grid<AccessType>,
    modes: Grid<SharingMode>,
    info: ImageInfo,
    range: ImageSubresourceRange,
)
    requires
        range_in_image(info, range),
    ensures
        range.bounded(),
        are_parts(range, report(accesses, modes, info, range)),
{
    let list = entries(accesses, modes, info, range);
    lemma_entries_are_parts(accesses, modes, info, range);
    lemma_parts(Axis::MipLevels, range, list);
    lemma_parts(Axis::ArrayLayers, range, report_along(Axis::MipLevels, list));
}

/// Joins entries along an axis.
pub(crate) fn join_along(
    axis: Axis,
    entries: &Vec<(ImageSubresourceSyncInfo, SharingMode)>,
    Ghost(range): Ghost<ImageSubresourceRange>,
) -> (joined: Vec<(ImageSubresourceSyncInfo, SharingMode)>)
    requires
        range.bounded(),
        are_parts(range, entries@),
    ensures
        joined@ == report_along(axis, entries@),
{
    let mut joined: Vec<(ImageSubresourceSyncInfo, SharingMode)> = Vec::new();
    let mut index: usize = 0;
    assert(entries@.take(0) =~= seq![]);
    while index < entries.len()
        invariant
            index <= entries@.len(),
            range.bounded(),
            are_parts(range, entries@),
            joined@ == report_along(axis, entries@.take(index as int)),
        decreases entries@.len() - index,
    {
        let (next, next_sharing) = entries[index];
        let ghost before = joined@;
        proof {
            let some = entries@.take(index as int);
            assert(entries@.take(index + 1).drop_last() =~= some);
            assert(entries@.take(index + 1).last() == entries@[index as int]);
            assert forall|i: int| 0 <= i < some.len() implies is_part(
                range,
                (#[trigger] some[i]).0.range,
            ) by {
                assert(some[i] == entries@[i]);
            }
            lemma_parts(axis, range, some);
            assert(is_part(range, entries@[index as int].0.range));
        }
        let len: usize = joined.len();
        let mut merged: bool = false;
        if len > 0 {
            let (last, last_sharing) = joined[len - 1];
            assert(is_part(range, before[len - 1].0.range));
            if last_sharing.is_same(next_sharing) && last.can_merge(axis, next) {
                let mut longer = last;
                longer.merge(axis, next);
                joined.set(len - 1, (longer, last_sharing));
                merged = true;
                assert(joined@ =~= before.drop_last().push((longer, last_sharing)));
            }
        }
        if !merged {
            joined.push((next, next_sharing));
        }
        index += 1;
    }
    assert(entries@.take(index as int) =~= entries@);
    joined
}

/// Whether the range of an entry has a subresource.
pub open spec fn tells(
    entry: (ImageSubresourceSyncInfo, SharingMode),
    at: ImageSubresourceRange,
) -> bool {
    holds(entry.0.range, at.aspect_mask, at.base_array_layer as int, at.base_mip_level as int)
}

/// Whether the entry at an index, and no other one, tells of a subresource, and as another entry
/// does.
pub open spec fn told_at(
    entries: Seq<(ImageSubresourceSyncInfo, SharingMode)>,
    i: int,
    at: ImageSubresourceRange,
    like: (ImageSubresourceSyncInfo, SharingMode),
) -> bool {
    &&& 0 <= i < entries.len()
    &&& tells(entries[i], at)
    &&& joins(entries[i], like)
    &&& forall|j: int| 0 <= j < entries.len() && tells(#[trigger] entries[j], at) ==> j == i
}

/// Whether no entry tells of a subresource.
pub open spec fn untold(
    entries: Seq<(ImageSubresourceSyncInfo, SharingMode)>,
    at: ImageSubresourceRange,
) -> bool {
    forall|j: int| 0 <= j < entries.len() ==> !tells(#[trigger] entries[j], at)
}

/// Joining keeps what is told of each subresource, and that it is told once.
proof fn lemma_told(
    axis: Axis,
    range: ImageSubresourceRange,
    entries: Seq<(ImageSubresourceSyncInfo, SharingMode)>,
    at: ImageSubresourceRange,
    like: (ImageSubresourceSyncInfo, SharingMode),
)
    requires
        range.bounded(),
        are_parts(range, entries),
    ensures
        untold(entries, at) ==> untold(report_along(axis, entries), at),
        (exists|i: int| told_at(entries, i, at, like)) ==> exists|k: int|
            told_at(report_along(axis, entries), k, at, like),
    decreases entries.len(),
{
    if entries.len() > 0 {
        let some = entries.drop_last();
        let last = entries[entries.len() - 1];
        assert forall|i: int| 0 <= i < some.len() implies is_part(
            range,
            (#[trigger] some[i]).0.range,
        ) by {
            assert(some[i] == entries[i]);
        }
        lemma_told(axis, range, some, at, like);
        lemma_parts(axis, range, some);
        let before = report_along(axis, some);
        let after = report_along(axis, entries);
        let n = after.len() - 1;
        assert(is_part(range, last.0.range));
        if before.len() > 0 {
            assert(is_part(range, before[before.len() - 1].0.range));
        }
        assert(tells(after[n], at) == (tells(last, at) || n < before.len() && tells(
            before[n],
            at,
        )));
        assert forall|j: int| 0 <= j < n implies #[trigger] after[j] == before[j] by {}
        if untold(entries, at) {
            assert(untold(some, at)) by {
                assert forall|j: int| 0 <= j < some.len() implies !tells(
                    #[trigger] some[j],
                    at,
                ) by {
                    assert(some[j] == entries[j]);
                }
            }
        }
        if exists|i: int| told_at(entries, i, at, like) {
            let i = choose|i: int| told_at(entries, i, at, like);
            if i == entries.len() - 1 {
                assert(untold(some, at)) by {
                    assert forall|j: int| 0 <= j < some.len() implies !tells(
                        #[trigger] some[j],
                        at,
                    ) by {
                        assert(some[j] == entries[j]);
                    }
                }
                assert(told_at(after, n, at, like));
            } else {
                assert(!tells(last, at));
                assert(told_at(some, i, at, like)) by {
                    assert forall|j: int|
                        0 <= j < some.len() && tells(#[trigger] some[j], at) implies j == i by {
                        assert(some[j] == entries[j]);
                    }
                }
                let k = choose|k: int| told_at(before, k, at, like);
                assert(told_at(after, k, at, like)) by {
                    assert forall|j: int|
                        0 <= j < after.len() && tells(#[trigger] after[j], at) implies j == k by {
                        if j < before.len() {
                            assert(tells(before[j], at));
                        }
                    }
                }
            }
        }
    }
}

/// Each place of a range is told of by the entry of that place, and by no other one.
proof fn lemma_entries_told(
    accesses: Grid<AccessType>,
    modes: Grid<SharingMode>,
    info: ImageInfo,
    range: ImageSubresourceRange,
    p: Place,
)
    requires
        range_in_image(info, range),
        inside(range_extent(range), p),
    ensures
        told_at(
            entries(accesses, modes, info, range),
            place_rank(range_extent(range), p),
            subresource_at(range, p),
            entry_at(accesses, modes, info, range, p),
        ),
{
    let extent = range_extent(range);
    let places = places_from(extent, (0, 0, 0));
    let list = entries(accesses, modes, info, range);
    let at = subresource_at(range, p);
    let i = place_rank(extent, p);
    lemma_supported_aspects(range.aspect_mask);
    lemma_places(extent, (0, 0, 0));
    lemma_place_at_rank(extent, p);
    assert((0 * extent.1 + 0) * extent.2 + 0 == 0) by (nonlinear_arith);
    assert(list[i] == entry_at(accesses, modes, info, range, p));
    assert forall|j: int| 0 <= j < list.len() && tells(#[trigger] list[j], at) implies j == i by {
        let q = places[j];
        assert(list[j] == entry_at(accesses, modes, info, range, q));
        assert(inside(extent, q));
        lemma_aspects_apart(range.aspect_mask, p.0 as nat, q.0 as nat);
        assert(p == q);
    }
}

/// An entry of a part of a range has a subresource of the range exactly where it tells of it.
proof fn lemma_part_tells(
    range: ImageSubresourceRange,
    entry: (ImageSubresourceSyncInfo, SharingMode),
    p: Place,
)
    requires
        range.bounded(),
        inside(range_extent(range), p),
        is_part(range, entry.0.range),
    ensures
        tells(entry, subresource_at(range, p)) == entry.0.range.contains(subresource_at(range, p)),
{
    let a = choose|a: int|
        0 <= a < range_aspects(range) && entry.0.range.aspect_mask == #[trigger] nth_bit(
            range.aspect_mask,
            0,
            a as nat,
        );
    lemma_aspects_apart(range.aspect_mask, a as nat, p.0 as nat);
    lemma_aspects_apart(range.aspect_mask, p.0 as nat, a as nat);
}

/// A report of a range is of parts of the range, each of one aspect. Together they have each
/// subresource of the range exactly once, with the synchronization and the owner of that
/// subresource.
pub proof fn report_is_exact(
    accesses: Grid<AccessType>,
    modes: Grid<SharingMode>,
    info: ImageInfo,
    range: ImageSubresourceRange,
    p: Place,
)
    requires
        range_in_image(info, range),
        inside(range_extent(range), p),
    ensures
        ({
            let told = report(accesses, modes, info, range);
            let at = subresource_at(range, p);
            &&& are_parts(range, told)
            &&& exists|i: int|
                0 <= i < told.len() && (#[trigger] told[i]).0.range.contains(at) && joins(
                    told[i],
                    entry_at(accesses, modes, info, range, p),
                ) && forall|j: int|
                    0 <= j < told.len() && (#[trigger] told[j]).0.range.contains(at) ==> j == i
        }),
{
    let at = subresource_at(range, p);
    let like = entry_at(accesses, modes, info, range, p);
    let list = entries(accesses, modes, info, range);
    let levels = report_along(Axis::MipLevels, list);
    let told = report(accesses, modes, info, range);
    lemma_entries_told(accesses, modes, info, range, p);
    lemma_entries_are_parts(accesses, modes, info, range);
    lemma_parts(Axis::MipLevels, range, list);
    lemma_parts(Axis::ArrayLayers, range, levels);
    lemma_told(Axis::MipLevels, range, list, at, like);
    lemma_told(Axis::ArrayLayers, range, levels, at, like);
    let i = choose|i: int| told_at(told, i, at, like);
    assert forall|j: int| 0 <= j < told.len() implies tells(#[trigger] told[j], at)
        == told[j].0.range.contains(at) by {
        lemma_part_tells(range, told[j], p);
    }
    assert(told[i].0.range.contains(at));
}

/// The entries of a report with their owners.
pub open spec fn published(report: Seq<(ImageSubresourceSyncInfo, SharingMode)>) -> Seq<
    ImageSubresourceSyncInfo,
> {
    report.map_values(|entry: (ImageSubresourceSyncInfo, SharingMode)| entry.0.published(entry.1))
}

/// A list, all of it with one sharing mode.
spec fn shared(entries: Seq<ImageSubresourceSyncInfo>, mode: SharingMode) -> Seq<
    (ImageSubresourceSyncInfo, SharingMode),
> {
    entries.map_values(|entry: ImageSubresourceSyncInfo| (entry, mode))
}

/// A list is compacted as it is joined where all of it has one sharing mode.
proof fn lemma_compacts_as_joined(
    axis: Axis,
    entries: Seq<ImageSubresourceSyncInfo>,
    mode: SharingMode,
)
    ensures
        report_along(axis, shared(entries, mode)) == shared(compacted_along(axis, entries), mode),
    decreases entries.len(),
{
    let list = shared(entries, mode);
    if entries.len() == 0 {
        assert(list =~= seq![]);
        assert(shared(compacted_along(axis, entries), mode) =~= seq![]);
    } else {
        assert(list.drop_last() =~= shared(entries.drop_last(), mode));
        lemma_compacts_as_joined(axis, entries.drop_last(), mode);
        assert(list.last() == (entries.last(), mode));
        let before = compacted_along(axis, entries.drop_last());
        if before.len() > 0 {
            assert(shared(before, mode).last() == (before.last(), mode));
        }
        assert(report_along(axis, list) =~= shared(compacted_along(axis, entries), mode));
    }
}

/// What is published of a range is of parts of the range, each of one aspect. Together they have
/// each subresource of the range exactly once, with the synchronization and the owner of that
/// subresource.
pub proof fn published_report_is_exact(
    accesses: Grid<AccessType>,
    modes: Grid<SharingMode>,
    info: ImageInfo,
    range: ImageSubresourceRange,
    p: Place,
)
    requires
        range_in_image(info, range),
        inside(range_extent(range), p),
    ensures
        ({
            let told = compacted(published(report(accesses, modes, info, range)));
            let at = subresource_at(range, p);
            let entry = entry_at(accesses, modes, info, range, p);
            &&& forall|i: int| 0 <= i < told.len() ==> is_part(range, (#[trigger] told[i]).range)
            &&& exists|i: int|
                0 <= i < told.len() && (#[trigger] told[i]).range.contains(at)
                    && told[i].syncs_as(entry.0.published(entry.1)) && forall|j: int|
                    0 <= j < told.len() && (#[trigger] told[j]).range.contains(at) ==> j == i
        }),
{
    let at = subresource_at(range, p);
    let entry = entry_at(accesses, modes, info, range, p);
    let mode = entry.1;
    let like = (entry.0.published(entry.1), mode);
    let all = report(accesses, modes, info, range);
    let list = published(all);
    let first = shared(list, mode);
    report_is_exact(accesses, modes, info, range, p);
    lemma_report_is_of_parts(accesses, modes, info, range);
    let i = choose|i: int|
        0 <= i < all.len() && (#[trigger] all[i]).0.range.contains(at) && joins(all[i], entry)
            && forall|j: int|
            0 <= j < all.len() && (#[trigger] all[j]).0.range.contains(at) ==> j == i;
    assert forall|j: int| 0 <= j < first.len() implies is_part(
        range,
        (#[trigger] first[j]).0.range,
    ) && tells(first[j], at) == all[j].0.range.contains(at) by {
        assert(is_part(range, all[j].0.range));
        lemma_part_tells(range, all[j], p);
    }
    assert(told_at(first, i, at, like));
    let levels = compacted_along(Axis::MipLevels, list);
    let told = compacted(list);
    lemma_compacts_as_joined(Axis::MipLevels, list, mode);
    lemma_compacts_as_joined(Axis::ArrayLayers, levels, mode);
    lemma_parts(Axis::MipLevels, range, first);
    lemma_told(Axis::MipLevels, range, first, at, like);
    lemma_parts(Axis::ArrayLayers, range, shared(levels, mode));
    lemma_told(Axis::ArrayLayers, range, shared(levels, mode), at, like);
    let last = shared(told, mode);
    let k = choose|k: int| told_at(last, k, at, like);
    assert forall|j: int| 0 <= j < told.len() implies is_part(range, (#[trigger] told[j]).range)
        && tells(last[j], at) == told[j].range.contains(at) by {
        assert(is_part(range, last[j].0.range));
        lemma_part_tells(range, last[j], p);
    }
    assert(told[k].range.contains(at));
    assert forall|j: int|
        0 <= j < told.len() && (#[trigger] told[j]).range.contains(at) implies j == k by {
        assert(tells(last[j], at));
    }
}

} // verus!
