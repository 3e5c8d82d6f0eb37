//! Synchronization information of buffers.

use crate::access::{pipeline_stage_access_flags, AccessType};
use crate::buffer::BufferSubresourceRange;
use crate::sharing::SharingMode;
use vstd::prelude::*;

verus! {

/// Synchronization information for one accessed buffer range.
#[derive(Clone, Copy, Debug, PartialEq, Eq, Structural)]
pub struct BufferSubresourceSyncInfo {
    /// Access types performed by `stage_mask`.
    pub access_mask: u32,
    /// Queue-family ownership for this range, when exclusive ownership is known.
    pub queue_family_index: Option<u32>,
    /// The tracked buffer range.
    pub range: BufferSubresourceRange,
    /// Pipeline stages that access `range`.
    pub stage_mask: u32,
}

impl BufferSubresourceSyncInfo {
    /// The information of an access to a range, without its owner.
    pub open spec fn of_access(access: AccessType, range: BufferSubresourceRange) -> Self {
        BufferSubresourceSyncInfo {
            access_mask: access.accesses(),
            queue_family_index: None,
            range,
            stage_mask: access.stages(),
        }
    }

    /// The information with its owner.
    pub open spec fn published(self, sharing: SharingMode) -> Self {
        BufferSubresourceSyncInfo { queue_family_index: sharing.owner(), ..self }
    }

    /// Whether `other` asks for the same synchronization.
    pub open spec fn same_sync(self, other: Self) -> bool {
        &&& self.stage_mask == other.stage_mask
        &&& self.access_mask == other.access_mask
        &&& self.queue_family_index == other.queue_family_index
    }

    /// Whether `other` asks for the same synchronization right behind this range.
    pub open spec fn merges_with(self, other: Self) -> bool {
        self.same_sync(other) && self.range.end == other.range.start
    }

    /// This range extended by `other`.
    pub open spec fn merged(self, other: Self) -> Self {
        BufferSubresourceSyncInfo {
            range: BufferSubresourceRange { start: self.range.start, end: other.range.end },
            ..self
        }
    }

    /// Whether `other` continues this range with the same requirements.
    pub fn can_merge(self, other: Self) -> (can: bool)
        ensures
            can == self.merges_with(other),
    {
        self.stage_mask == other.stage_mask && self.access_mask == other.access_mask
            && self.queue_family_index == other.queue_family_index && self.range.end
            == other.range.start
    }

    /// The information of an access to a range, without its owner.
    pub fn from_access(access: AccessType, range: BufferSubresourceRange) -> (info: Self)
        ensures
            info == Self::of_access(access, range),
    {
        let (stage_mask, access_mask) = pipeline_stage_access_flags(access);
        BufferSubresourceSyncInfo { access_mask, queue_family_index: None, range, stage_mask }
    }

    /// Adds the owner.
    pub fn into_public(self, sharing: SharingMode) -> (info: Self)
        ensures
            info == self.published(sharing),
    {
        BufferSubresourceSyncInfo { queue_family_index: sharing.queue_family_index(), ..self }
    }

    /// Extends this range by `other`.
    pub fn merge(&mut self, other: Self)
        ensures
            *final(self) == old(self).merged(other),
    {
        self.range.end = other.range.end;
    }
}

/// A compact list followed by one more entry.
pub open spec fn compact_push(
    ranges: Seq<BufferSubresourceSyncInfo>,
    next: BufferSubresourceSyncInfo,
) -> Seq<BufferSubresourceSyncInfo> {
    if ranges.len() > 0 && ranges.last().merges_with(next) {
        ranges.drop_last().push(ranges.last().merged(next))
    } else {
        ranges.push(next)
    }
}

/// The list in which entries that continue the one before them are merged into it.
pub open spec fn compacted(ranges: Seq<BufferSubresourceSyncInfo>) -> Seq<BufferSubresourceSyncInfo>
    decreases ranges.len(),
{
    if ranges.len() == 0 {
        ranges
    } else {
        compact_push(compacted(ranges.drop_last()), ranges.last())
    }
}

/// Whether the list asks for the given synchronization at an offset.
pub open spec fn asks(
    ranges: Seq<BufferSubresourceSyncInfo>,
    offset: int,
    sync: BufferSubresourceSyncInfo,
) -> bool {
    exists|i: int|
        0 <= i < ranges.len() && (#[trigger] ranges[i]).range.has(offset) && ranges[i].same_sync(
            sync,
        )
}

/// Synchronization information for a buffer.
#[derive(Clone, Debug, PartialEq, Eq)]
pub struct BufferSyncInfo {
    /// Access state for the tracked buffer ranges.
    pub ranges: Vec<BufferSubresourceSyncInfo>,
}

impl BufferSyncInfo {
    /// Compacts adjacent ranges with identical synchronization requirements.
    ///
    /// Runs in linear time over `ranges`, and compacts the entries in place.
    pub fn compact(&mut self)
        ensures
            final(self).ranges@ == compacted(old(self).ranges@),
    {
        let ghost all = self.ranges@;
        let len: usize = self.ranges.len();
        let mut compacted_len: usize = 0;
        let mut idx: usize = 0;
        assert(all.take(0) =~= seq![]);
        assert(self.ranges@.take(0) =~= seq![]);
        while idx < len
            invariant
                compacted_len <= idx <= len,
                len == all.len(),
                self.ranges@.len() == len,
                self.ranges@.take(compacted_len as int) == compacted(all.take(idx as int)),
                forall|i: int| idx <= i < len ==> self.ranges@[i] == all[i],
            decreases len - idx,
        {
            let sync_info = self.ranges[idx];
            let ghost kept = self.ranges@.take(compacted_len as int);
            proof {
                assert(all.take(idx + 1).drop_last() =~= all.take(idx as int));
                assert(all.take(idx + 1).last() == sync_info);
                assert(compacted_len > 0 ==> kept.last() == self.ranges@[compacted_len - 1]);
            }
            if compacted_len > 0 && self.ranges[compacted_len - 1].can_merge(sync_info) {
                let mut last = self.ranges[compacted_len - 1];
                last.merge(sync_info);
                self.ranges.set(compacted_len - 1, last);
                assert(self.ranges@.take(compacted_len as int) =~= kept.drop_last().push(last));
            } else {
                self.ranges.set(compacted_len, sync_info);
                compacted_len += 1;
                assert(self.ranges@.take(compacted_len as int) =~= kept.push(sync_info));
            }
            idx += 1;
        }
        assert(all.take(len as int) =~= all);
        self.ranges.truncate(compacted_len);
    }

    /// Returns a compacted copy of this synchronization snapshot.
    pub fn into_compacted(self) -> (info: Self)
        ensures
            info.ranges@ == compacted(self.ranges@),
    {
        let mut info = self;
        info.compact();
        info
    }
}

/// In a compacted list, no entry continues the one before it, and no entry starts after its end
/// unless one did in the list it came from.
proof fn lemma_compacted(ranges: Seq<BufferSubresourceSyncInfo>)
    ensures
        compacted(ranges).len() <= ranges.len(),
        ranges.len() > 0 ==> compacted(ranges).len() > 0 && compacted(ranges).last().range.end
            == ranges.last().range.end && compacted(ranges).last().same_sync(ranges.last()),
        forall|i: int, j: int|
            0 <= i && j == i + 1 && j < compacted(ranges).len() ==> !(#[trigger] compacted(
                ranges,
            )[i]).merges_with(#[trigger] compacted(ranges)[j]),
    decreases ranges.len(),
{
    if ranges.len() > 0 {
        let before = compacted(ranges.drop_last());
        let after = compacted(ranges);
        lemma_compacted(ranges.drop_last());
        assert forall|i: int, j: int| 0 <= i && j == i + 1 && j < after.len() implies !(
        #[trigger] after[i]).merges_with(#[trigger] after[j]) by {
            assert(after[i] == before[i]);
            if j < before.len() {
                assert(!before[i].merges_with(before[j]));
            }
        }
    }
}

proof fn lemma_unmergeable(ranges: Seq<BufferSubresourceSyncInfo>)
    requires
        forall|i: int, j: int|
            0 <= i && j == i + 1 && j < ranges.len() ==> !(#[trigger] ranges[i]).merges_with(
                #[trigger] ranges[j],
            ),
    ensures
        compacted(ranges) == ranges,
    decreases ranges.len(),
{
    if ranges.len() > 0 {
        let before = ranges.drop_last();
        assert forall|i: int, j: int| 0 <= i && j == i + 1 && j < before.len() implies !(
        #[trigger] before[i]).merges_with(#[trigger] before[j]) by {
            assert(!ranges[i].merges_with(ranges[j]));
        }
        lemma_unmergeable(before);
        if before.len() > 0 {
            assert(!ranges[ranges.len() - 2].merges_with(ranges[ranges.len() - 1]));
        }
        assert(compacted(ranges) =~= ranges);
    }
}

/// Compacting a compacted list changes nothing.
pub proof fn compaction_is_idempotent(ranges: Seq<BufferSubresourceSyncInfo>)
    ensures
        compacted(compacted(ranges)) == compacted(ranges),
{
    lemma_compacted(ranges);
    lemma_unmergeable(compacted(ranges));
}

/// Compacting keeps what is asked for at every offset.
pub proof fn compaction_keeps_requirements(
    ranges: Seq<BufferSubresourceSyncInfo>,
    offset: int,
    sync: BufferSubresourceSyncInfo,
)
    requires
        forall|i: int| 0 <= i < ranges.len() ==> (#[trigger] ranges[i]).range.start
            <= ranges[i].range.end,
    ensures
        asks(compacted(ranges), offset, sync) == asks(ranges, offset, sync),
        forall|i: int| 0 <= i < compacted(ranges).len() ==> (#[trigger] compacted(
            ranges,
        )[i]).range.start <= compacted(ranges)[i].range.end,
    decreases ranges.len(),
{
    if ranges.len() > 0 {
        let last = ranges.last();
        let old = ranges.drop_last();
        assert forall|i: int| 0 <= i < old.len() implies (#[trigger] old[i]).range.start
            <= old[i].range.end by {
            assert(old[i] == ranges[i]);
        }
        compaction_keeps_requirements(old, offset, sync);
        let before = compacted(old);
        let after = compacted(ranges);
        let n = after.len() - 1;
        assert(ranges[ranges.len() - 1] == last);
        if asks(ranges, offset, sync) {
            let i = choose|i: int|
                0 <= i < ranges.len() && (#[trigger] ranges[i]).range.has(offset)
                    && ranges[i].same_sync(sync);
            if i < old.len() {
                assert(old[i] == ranges[i]);
                assert(asks(old, offset, sync));
                let k = choose|k: int|
                    0 <= k < before.len() && (#[trigger] before[k]).range.has(offset)
                        && before[k].same_sync(sync);
                assert(after[k].range.has(offset) && after[k].same_sync(sync));
            } else {
                assert(after[n].range.has(offset) && after[n].same_sync(sync));
            }
        }
        if asks(after, offset, sync) {
            let k = choose|k: int|
                0 <= k < after.len() && (#[trigger] after[k]).range.has(offset)
                    && after[k].same_sync(sync);
            if k < before.len() && before[k].range.has(offset) {
                assert(before[k].same_sync(sync));
                assert(asks(old, offset, sync));
                let i = choose|i: int|
                    0 <= i < old.len() && (#[trigger] old[i]).range.has(offset)
                        && old[i].same_sync(sync);
                assert(ranges[i] == old[i]);
            } else {
                assert(ranges[ranges.len() - 1].range.has(offset));
            }
        }
        assert forall|i: int| 0 <= i < after.len() implies (#[trigger] after[i]).range.start
            <= after[i].range.end by {
            if i < before.len() {
                assert(before[i].range.start <= before[i].range.end);
            }
        }
    }
}

/// Entries that ask for the same synchronization differ in nothing but their ranges.
pub proof fn same_synchronization_leaves_ranges(
    a: BufferSubresourceSyncInfo,
    b: BufferSubresourceSyncInfo,
)
    ensures
        a.same_sync(b) <==> b == (BufferSubresourceSyncInfo { range: b.range, ..a }),
{
}

/// Entries are merged just where the second starts at the end of the first and asks for the same.
/// The merged entry asks for that too, in all of both ranges.
pub proof fn merged_entries_have_both_ranges(
    a: BufferSubresourceSyncInfo,
    b: BufferSubresourceSyncInfo,
    offset: int,
)
    requires
        a.range.start <= a.range.end,
        b.range.start <= b.range.end,
    ensures
        a.merges_with(b) <==> a.range.end == b.range.start && b == (BufferSubresourceSyncInfo {
            range: b.range,
            ..a
        }),
        a.merges_with(b) ==> {
            let merged = a.merged(b);
            &&& merged == (BufferSubresourceSyncInfo { range: merged.range, ..a })
            &&& merged.range.has(offset) <==> a.range.has(offset) || b.range.has(offset)
        },
{
}

/// In a compacted list, an entry that starts at the end of the one before it asks for something
/// else.
pub proof fn compacted_neighbors_differ(ranges: Seq<BufferSubresourceSyncInfo>, index: int)
    requires
        0 <= index,
        index + 1 < compacted(ranges).len(),
    ensures
        ({
            let entry = compacted(ranges)[index];
            let next = compacted(ranges)[index + 1];
            entry.range.end == next.range.start ==> next != (BufferSubresourceSyncInfo {
                range: next.range,
                ..entry
            })
        }),
{
    lemma_compacted(ranges);
    let next = index + 1;
    assert(!compacted(ranges)[index].merges_with(compacted(ranges)[next]));
}

} // verus!
