//! Queue ownership of buffer ranges.

use crate::buffer::{assign, assign_all, BufferSubresourceRange};
use crate::run_map::RunMap;
use crate::segments::{lemma_first_segment, segments};
use crate::sharing::{encode_undoes_decode, decode_undoes_encode, SharingMode};
use crate::vk;
use vstd::prelude::*;

verus! {

/// The modes that codes stand for.
pub open spec fn decode_all(codes: Seq<u64>) -> Seq<SharingMode> {
    Seq::new(codes.len(), |offset: int| SharingMode::of_code(codes[offset]))
}

/// Ownership of an exclusive buffer: one owner for all of it, or, once ranges had different
/// owners, one for each run of bytes.
#[derive(Debug)]
pub struct ExclusiveSharing {
    sharing_runs: RunMap,
    uniform: u64,
}

impl ExclusiveSharing {
    /// The value of `uniform` that says that the runs hold the owners. No owner is encoded so: the
    /// family would be the one that stands for no family. Once set, this marker is permanent.
    pub const DENSE: u64 = 0xffff_ffff_ffff_fffd;

    /// Whether one owner is held for the whole buffer.
    pub closed spec fn is_uniform(self) -> bool {
        self.uniform != Self::DENSE
    }

    /// The encoded owner of the whole buffer, or the marker.
    pub closed spec fn uniform_code(self) -> u64 {
        self.uniform
    }

    /// The owner of each byte.
    pub closed spec fn modes(self, size: u64) -> Seq<SharingMode> {
        if self.uniform != Self::DENSE {
            Seq::new(size as nat, |offset: int| SharingMode::of_code(self.uniform))
        } else {
            decode_all(self.sharing_runs@)
        }
    }

    /// The runs cover a buffer of the given size, which is not empty.
    pub closed spec fn wf(self, size: u64) -> bool {
        &&& size > 0
        &&& self.sharing_runs.wf()
        &&& self.sharing_runs.spec_size() == size
    }

    /// Nobody is known to own a new buffer.
    pub fn new(size: u64) -> (sharing: Self)
        requires
            size > 0,
        ensures
            sharing.wf(size),
            sharing.is_uniform(),
            sharing.modes(size) == Seq::new(
                size as nat,
                |offset: int| SharingMode::Exclusive(None),
            ),
    {
        let code: u64 = SharingMode::Exclusive(None).encode();
        let sharing = ExclusiveSharing { sharing_runs: RunMap::new(size, code), uniform: code };
        assert(sharing.modes(size) =~= Seq::new(
            size as nat,
            |offset: int| SharingMode::Exclusive(None),
        ));
        sharing
    }

    /// Reads the encoded owner of the whole buffer, or the marker.
    pub fn load(&self) -> (code: u64)
        ensures
            code == self.uniform_code(),
            code == Self::DENSE <==> !self.is_uniform(),
    {
        self.uniform
    }

    /// Replaces the encoded owner of the whole buffer where it still is `current`, and reports
    /// what it was.
    fn compare_exchange(&mut self, current: u64, new: u64) -> (exchanged: Result<u64, u64>)
        ensures
            final(self).sharing_runs == old(self).sharing_runs,
            old(self).uniform == current ==> final(self).uniform == new && exchanged == Ok::<
                u64,
                u64,
            >(current),
            old(self).uniform != current ==> final(self).uniform == old(self).uniform && exchanged
                == Err::<u64, u64>(old(self).uniform),
    {
        if self.uniform == current {
            self.uniform = new;
            Ok(current)
        } else {
            Err(self.uniform)
        }
    }

    /// Moves to one owner for each run of bytes, and assigns ranges.
    pub fn promote_and_set_ranges(
        &mut self,
        size: u64,
        sharing: SharingMode,
        sharing_ranges: &Vec<BufferSubresourceRange>,
    )
        requires
            old(self).wf(size),
            sharing.valid(),
            forall|i: int|
                0 <= i < sharing_ranges@.len() ==> (#[trigger] sharing_ranges@[i]).within(size),
        ensures
            final(self).wf(size),
            !final(self).is_uniform(),
            final(self).modes(size) == assign_all(old(self).modes(size), sharing_ranges@, sharing),
    {
        let ghost before = self.modes(size);
        let current: u64 = self.uniform;
        self.uniform = Self::DENSE;
        if current != Self::DENSE {
            self.sharing_runs = RunMap::new(size, current);
        }
        let code: u64 = sharing.encode();
        let mut index: usize = 0;
        proof {
            decode_undoes_encode(sharing);
            assert(self.modes(size) =~= before);
            assert(assign_all(before, sharing_ranges@.take(0), sharing) =~= before);
        }
        while index < sharing_ranges.len()
            invariant
                index <= sharing_ranges@.len(),
                self.wf(size),
                !self.is_uniform(),
                before.len() == size,
                code == sharing.code(),
                SharingMode::of_code(code) == sharing,
                forall|i: int|
                    0 <= i < sharing_ranges@.len() ==> (#[trigger] sharing_ranges@[i]).within(size),
                self.modes(size) == assign_all(before, sharing_ranges@.take(index as int), sharing),
            decreases sharing_ranges@.len() - index,
        {
            let range = sharing_ranges[index];
            let ghost now = self.modes(size);
            self.sharing_runs.set_range(code, range);
            proof {
                assert(self.modes(size) =~= assign(now, range, sharing));
                lemma_assign_next(before, sharing_ranges@, index as int, sharing);
            }
            index += 1;
        }
        assert(sharing_ranges@.take(index as int) =~= sharing_ranges@);
    }

    /// The owners of a queried range, run by run.
    ///
    /// A single owner is reported for the query as it stands; owners of runs are clipped to the
    /// query.
    pub fn ranges_in(&self, size: u64, query_range: BufferSubresourceRange) -> (ranges: Vec<
        (SharingMode, BufferSubresourceRange),
    >)
        requires
            self.wf(size),
        ensures
            self.is_uniform() ==> ranges@ == seq![(self.modes(size)[0], query_range)],
            !self.is_uniform() ==> ranges@ == segments(
                self.modes(size),
                query_range.start as int,
                if query_range.end < size {
                    query_range.end as int
                } else {
                    size as int
                },
            ),
            query_range.within(size) ==> ranges@ == segments(
                self.modes(size),
                query_range.start as int,
                query_range.end as int,
            ),
    {
        let current: u64 = self.load();
        let mut ranges: Vec<(SharingMode, BufferSubresourceRange)> = Vec::new();
        let ghost modes = self.modes(size);
        if current != Self::DENSE {
            let sharing = SharingMode::decode(current);
            ranges.push((sharing, query_range));
            proof {
                if query_range.within(size) {
                    lemma_first_segment(modes, query_range, sharing, query_range);
                    assert(ranges@ =~= segments(
                        modes,
                        query_range.start as int,
                        query_range.end as int,
                    ));
                }
            }
            return ranges;
        }
        let end: u64 = if query_range.end < size {
            query_range.end
        } else {
            size
        };
        let mut pos: u64 = query_range.start;
        if pos >= end {
            return ranges;
        }
        let run_count: usize = self.sharing_runs.run_count();
        let mut run_idx: usize = self.sharing_runs.run_index_at(pos);
        while pos < end
            invariant
                self.wf(size),
                modes == self.modes(size),
                !self.is_uniform(),
                run_count == self.sharing_runs.runs().len(),
                query_range.start <= pos <= end <= size,
                pos < end ==> crate::run_map::covers(
                    self.sharing_runs.runs(),
                    run_idx as int,
                    pos as int,
                ),
                ranges@ + segments(modes, pos as int, end as int) == segments(
                    modes,
                    query_range.start as int,
                    end as int,
                ),
            decreases end - pos,
        {
            let sharing = SharingMode::decode(self.sharing_runs.run(run_idx).0);
            let run_end: u64 = if run_idx + 1 < run_count {
                self.sharing_runs.run(run_idx + 1).1
            } else {
                size
            };
            let stop: u64 = if run_end < end {
                run_end
            } else {
                end
            };
            let range = BufferSubresourceRange { start: pos, end: stop };
            proof {
                self.lemma_run(size, run_idx as int, range, end);
                lemma_first_segment(
                    modes,
                    BufferSubresourceRange { start: pos, end },
                    sharing,
                    range,
                );
                assert(ranges@ + (seq![(sharing, range)] + segments(modes, stop as int, end as int))
                    =~= ranges@.push((sharing, range)) + segments(modes, stop as int, end as int));
            }
            ranges.push((sharing, range));
            run_idx += 1;
            pos = stop;
        }
        assert(ranges@ =~= segments(modes, query_range.start as int, end as int));
        ranges
    }

    /// Assigns a range, which stays with one owner where the range is the whole buffer.
    pub fn set_range(
        &mut self,
        size: u64,
        sharing: SharingMode,
        sharing_range: BufferSubresourceRange,
    )
        requires
            old(self).wf(size),
            sharing.valid(),
            sharing_range.within(size),
        ensures
            final(self).wf(size),
            final(self).is_uniform() == (old(self).is_uniform() && sharing_range.start == 0
                && sharing_range.end == size),
            final(self).modes(size) == assign(old(self).modes(size), sharing_range, sharing),
    {
        if sharing_range.start == 0 && sharing_range.end == size {
            let current: u64 = self.load();
            self.set_uniform_or_dense(current, size, sharing);
            return;
        }
        let mut ranges: Vec<BufferSubresourceRange> = Vec::new();
        ranges.push(sharing_range);
        self.promote_and_set_ranges(size, sharing, &ranges);
        assert(ranges@[0] == sharing_range);
        assert(self.modes(size) =~= assign(old(self).modes(size), sharing_range, sharing));
    }

    /// Assigns ranges: none changes nothing, and a single one may leave one owner in place.
    pub fn set_ranges(
        &mut self,
        size: u64,
        sharing: SharingMode,
        sharing_ranges: &Vec<BufferSubresourceRange>,
    )
        requires
            old(self).wf(size),
            sharing.valid(),
            forall|i: int|
                0 <= i < sharing_ranges@.len() ==> (#[trigger] sharing_ranges@[i]).within(size),
        ensures
            final(self).wf(size),
            final(self).is_uniform() == (old(self).is_uniform() && (sharing_ranges@.len() == 0
                || sharing_ranges@.len() == 1 && sharing_ranges@[0].start == 0
                && sharing_ranges@[0].end == size)),
            final(self).modes(size) == assign_all(old(self).modes(size), sharing_ranges@, sharing),
    {
        if sharing_ranges.len() == 0 {
            assert(self.modes(size) =~= assign_all(old(self).modes(size), sharing_ranges@, sharing));
            return;
        }
        if sharing_ranges.len() == 1 {
            self.set_range(size, sharing, sharing_ranges[0]);
            assert(self.modes(size) =~= assign_all(old(self).modes(size), sharing_ranges@, sharing));
            return;
        }
        self.promote_and_set_ranges(size, sharing, sharing_ranges);
    }

    /// Assigns the whole buffer, given what was last read of its owner.
    ///
    /// What was read may be out of date: another owner may have been stored since, or the buffer
    /// may have moved to one owner for each run. It never moves back, so a marker that was read is
    /// still there.
    pub fn set_uniform_or_dense(&mut self, observed: u64, size: u64, sharing: SharingMode)
        requires
            old(self).wf(size),
            sharing.valid(),
            observed == Self::DENSE ==> !old(self).is_uniform(),
        ensures
            final(self).wf(size),
            final(self).is_uniform() == old(self).is_uniform(),
            final(self).modes(size) == Seq::new(size as nat, |offset: int| sharing),
    {
        let encoded_sharing: u64 = sharing.encode();
        let mut current: u64 = observed;
        let ghost whole = Seq::new(size as nat, |offset: int| sharing);
        proof {
            decode_undoes_encode(sharing);
        }
        assert(encoded_sharing != Self::DENSE);
        loop
            invariant
                self.wf(size),
                *self == *old(self),
                encoded_sharing == sharing.code(),
                encoded_sharing != Self::DENSE,
                SharingMode::of_code(encoded_sharing) == sharing,
                current == Self::DENSE ==> !self.is_uniform(),
                whole == Seq::new(size as nat, |offset: int| sharing),
            decreases
                if current == self.uniform_code() {
                    0int
                } else {
                    1int
                },
        {
            if current == Self::DENSE {
                self.sharing_runs.set_range(
                    encoded_sharing,
                    BufferSubresourceRange { start: 0, end: size },
                );
                assert(self.modes(size) =~= whole);
                return;
            }
            match self.compare_exchange(current, encoded_sharing) {
                Ok(_) => {
                    assert(self.modes(size) =~= whole);
                    return;
                },
                Err(observed_again) => {
                    current = observed_again;
                },
            }
        }
    }

    /// A range that ends with its run or the query is a run of owners.
    proof fn lemma_run(
        &self,
        size: u64,
        index: int,
        range: BufferSubresourceRange,
        end: u64,
    )
        requires
            self.wf(size),
            !self.is_uniform(),
            range.start < range.end <= end <= size,
            crate::run_map::covers(self.sharing_runs.runs(), index, range.start as int),
            index + 1 < self.sharing_runs.runs().len() ==> range.end
                <= self.sharing_runs.runs()[index + 1].1,
            range.end == end || index + 1 < self.sharing_runs.runs().len() && range.end
                == self.sharing_runs.runs()[index + 1].1,
        ensures
            crate::segments::is_first_run(
                self.modes(size),
                BufferSubresourceRange { start: range.start, end },
                SharingMode::of_code(self.sharing_runs.runs()[index].0),
                range,
            ),
            range.end < end ==> crate::run_map::covers(
                self.sharing_runs.runs(),
                index + 1,
                range.end as int,
            ),
    {
        let runs = self.sharing_runs.runs();
        let modes = self.modes(size);
        assert forall|offset: int| range.start <= offset < range.end implies modes[offset]
            == SharingMode::of_code(runs[index].0) by {
            assert(crate::run_map::covers(runs, index, offset));
            crate::run_map::lemma_value_at(runs, size, index, offset);
        }
        if range.end < end {
            let stop = range.end as int;
            assert(crate::run_map::covers(runs, index + 1, stop)) by {
                assert(index + 2 < runs.len() ==> runs[index + 1].1 < runs[index + 2].1);
            }
            crate::run_map::lemma_value_at(runs, size, index + 1, stop);
            assert(runs[index].0 != runs[index + 1].0);
            encode_undoes_decode(runs[index].0);
            encode_undoes_decode(runs[index + 1].0);
        }
    }
}

/// Assigning one more range of a list.
proof fn lemma_assign_next<V>(
    before: Seq<V>,
    ranges: Seq<BufferSubresourceRange>,
    index: int,
    value: V,
)
    requires
        0 <= index < ranges.len(),
    ensures
        assign(assign_all(before, ranges.take(index), value), ranges[index], value) == assign_all(
            before,
            ranges.take(index + 1),
            value,
        ),
{
    let a = ranges.take(index);
    let b = ranges.take(index + 1);
    assert forall|offset: int| 0 <= offset < before.len() implies assign(
        assign_all(before, a, value),
        ranges[index],
        value,
    )[offset] == assign_all(before, b, value)[offset] by {
        assert(b[index] == ranges[index]);
        if exists|i: int| 0 <= i < a.len() && (#[trigger] a[i]).has(offset) {
            let i = choose|i: int| 0 <= i < a.len() && (#[trigger] a[i]).has(offset);
            assert(b[i] == a[i]);
        }
        if exists|i: int| 0 <= i < b.len() && (#[trigger] b[i]).has(offset) {
            let i = choose|i: int| 0 <= i < b.len() && (#[trigger] b[i]).has(offset);
            if i < index {
                assert(a[i] == b[i]);
            }
        }
    }
    assert(assign(assign_all(before, a, value), ranges[index], value) =~= assign_all(
        before,
        b,
        value,
    ));
}

/// Ownership of a buffer.
#[derive(Debug)]
pub enum Sharing {
    /// All queues use the buffer.
    Concurrent,
    /// Ranges of the buffer have owners.
    Exclusive(ExclusiveSharing),
}

impl Sharing {
    /// Whether all queues use the buffer.
    pub open spec fn is_concurrent(self) -> bool {
        self is Concurrent
    }

    /// Whether ownership is held once for the whole buffer.
    pub open spec fn is_uniform(self) -> bool {
        match self {
            Sharing::Concurrent => true,
            Sharing::Exclusive(exclusive) => exclusive.is_uniform(),
        }
    }

    /// The ownership of each byte.
    pub open spec fn modes(self, size: u64) -> Seq<SharingMode> {
        match self {
            Sharing::Concurrent => Seq::new(size as nat, |offset: int| SharingMode::Concurrent),
            Sharing::Exclusive(exclusive) => exclusive.modes(size),
        }
    }

    /// The ownership covers a buffer of the given size.
    pub open spec fn wf(self, size: u64) -> bool {
        match self {
            Sharing::Concurrent => true,
            Sharing::Exclusive(exclusive) => exclusive.wf(size),
        }
    }

    /// Ownership of a new buffer.
    pub fn new(size: u64, sharing_mode: i32) -> (sharing: Self)
        requires
            size > 0,
        ensures
            sharing.wf(size),
            sharing.is_uniform(),
            sharing.is_concurrent() == (sharing_mode == vk::SHARING_MODE_CONCURRENT),
            sharing.modes(size) == Seq::new(
                size as nat,
                |offset: int|
                    if sharing_mode == vk::SHARING_MODE_CONCURRENT {
                        SharingMode::Concurrent
                    } else {
                        SharingMode::Exclusive(None)
                    },
            ),
    {
        let sharing = if sharing_mode == vk::SHARING_MODE_CONCURRENT {
            Sharing::Concurrent
        } else {
            Sharing::Exclusive(ExclusiveSharing::new(size))
        };
        assert(sharing.modes(size) =~= Seq::new(
            size as nat,
            |offset: int|
                if sharing_mode == vk::SHARING_MODE_CONCURRENT {
                    SharingMode::Concurrent
                } else {
                    SharingMode::Exclusive(None)
                },
        ));
        sharing
    }

    /// The ownership of a queried range, run by run.
    pub fn ranges_in(&self, size: u64, range: BufferSubresourceRange) -> (ranges: Vec<
        (SharingMode, BufferSubresourceRange),
    >)
        requires
            self.wf(size),
        ensures
            self is Concurrent ==> ranges@ == seq![(SharingMode::Concurrent, range)],
            self matches Sharing::Exclusive(exclusive) ==> exclusive.is_uniform() ==> ranges@
                == seq![(exclusive.modes(size)[0], range)],
            self matches Sharing::Exclusive(exclusive) ==> !exclusive.is_uniform() ==> ranges@
                == segments(
                exclusive.modes(size),
                range.start as int,
                if range.end < size {
                    range.end as int
                } else {
                    size as int
                },
            ),
            range.within(size) ==> ranges@ == segments(
                self.modes(size),
                range.start as int,
                range.end as int,
            ),
    {
        match self {
            Sharing::Concurrent => {
                let mut ranges: Vec<(SharingMode, BufferSubresourceRange)> = Vec::new();
                ranges.push((SharingMode::Concurrent, range));
                proof {
                    if range.within(size) {
                        lemma_first_segment(
                            self.modes(size),
                            range,
                            SharingMode::Concurrent,
                            range,
                        );
                        assert(ranges@ =~= segments(
                            self.modes(size),
                            range.start as int,
                            range.end as int,
                        ));
                    }
                }
                ranges
            },
            Sharing::Exclusive(exclusive) => exclusive.ranges_in(size, range),
        }
    }

    /// Assigns ranges of an exclusive buffer.
    pub fn set_ranges(
        &mut self,
        size: u64,
        sharing: SharingMode,
        sharing_ranges: &Vec<BufferSubresourceRange>,
    )
        requires
            old(self).wf(size),
            sharing.valid(),
            forall|i: int|
                0 <= i < sharing_ranges@.len() ==> (#[trigger] sharing_ranges@[i]).within(size),
        ensures
            final(self).wf(size),
            final(self).is_concurrent() == old(self).is_concurrent(),
            final(self).modes(size) == (if old(self).is_concurrent() {
                old(self).modes(size)
            } else {
                assign_all(old(self).modes(size), sharing_ranges@, sharing)
            }),
    {
        if let Sharing::Exclusive(exclusive) = self {
            exclusive.set_ranges(size, sharing, sharing_ranges);
        }
    }

    /// There is one mode for each byte.
    pub proof fn lemma_modes(&self, size: u64)
        requires
            self.wf(size),
        ensures
            self.modes(size).len() == size,
    {
        if let Sharing::Exclusive(exclusive) = self {
            exclusive.lemma_modes(size);
        }
    }
}

impl ExclusiveSharing {
    /// There is one mode for each byte.
    pub proof fn lemma_modes(&self, size: u64)
        requires
            self.wf(size),
        ensures
            self.modes(size).len() == size,
    {
    }
}

} // verus!
