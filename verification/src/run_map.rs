//! Run-length encoded maps from byte offsets to values.

use crate::buffer::BufferSubresourceRange;
use crate::runs::Runs;
use crate::segments::{is_first_run, lemma_first_segment, lemma_segments_agree, segments};
use vstd::prelude::*;

verus! {

/// Runs that start at offset zero, in strictly ascending order, and before `size`.
pub open spec fn sorted(runs: Seq<(u64, u64)>, size: u64) -> bool {
    &&& runs.len() > 0
    &&& runs[0].1 == 0
    &&& forall|i: int, j: int| 0 <= i < j < runs.len() ==> runs[i].1 < runs[j].1
    &&& forall|i: int| 0 <= i < runs.len() ==> (#[trigger] runs[i]).1 < size
}

/// Runs of which no two neighbors hold the same value.
pub open spec fn maximal(runs: Seq<(u64, u64)>) -> bool {
    forall|i: int, j: int|
        0 <= i && j == i + 1 && j < runs.len() ==> (#[trigger] runs[i]).0 != (#[trigger] runs[j]).0
}

/// Whether `offset` lies in the run at `index`.
pub open spec fn covers(runs: Seq<(u64, u64)>, index: int, offset: int) -> bool {
    &&& 0 <= index < runs.len()
    &&& runs[index].1 <= offset
    &&& index + 1 < runs.len() ==> offset < runs[index + 1].1
}

/// The value of the run that `offset` lies in.
pub open spec fn value_at(runs: Seq<(u64, u64)>, offset: int) -> u64 {
    runs[choose|index: int| covers(runs, index, offset)].0
}

/// The values of all offsets below `size`.
pub open spec fn values(runs: Seq<(u64, u64)>, size: u64) -> Seq<u64> {
    Seq::new(size as nat, |offset: int| value_at(runs, offset))
}

/// `values` with those from `start` up to `end` replaced by `value`.
pub open spec fn overwrite(values: Seq<u64>, start: int, end: int, value: u64) -> Seq<u64> {
    Seq::new(
        values.len(),
        |offset: int| if start <= offset < end { value } else { values[offset] },
    )
}

/// The value of an offset is that of the run it lies in.
pub(crate) proof fn lemma_value_at(runs: Seq<(u64, u64)>, size: u64, index: int, offset: int)
    requires
        sorted(runs, size),
        covers(runs, index, offset),
    ensures
        value_at(runs, offset) == runs[index].0,
{
    let chosen = choose|i: int| covers(runs, i, offset);
    if chosen < index {
        assert(runs[chosen + 1].1 <= runs[index].1);
    } else if index < chosen {
        assert(runs[index + 1].1 <= runs[chosen].1);
    }
}

proof fn lemma_covered_below(runs: Seq<(u64, u64)>, size: u64, offset: int, bound: int) -> (index:
    int)
    requires
        sorted(runs, size),
        0 <= offset,
        0 < bound <= runs.len(),
        bound < runs.len() ==> offset < runs[bound].1,
    ensures
        covers(runs, index, offset),
        index < bound,
    decreases bound,
{
    if runs[bound - 1].1 <= offset {
        bound - 1
    } else {
        lemma_covered_below(runs, size, offset, bound - 1)
    }
}

/// Every offset lies in some run.
proof fn lemma_covered(runs: Seq<(u64, u64)>, size: u64, offset: int) -> (index: int)
    requires
        sorted(runs, size),
        0 <= offset,
    ensures
        covers(runs, index, offset),
{
    lemma_covered_below(runs, size, offset, runs.len() as int)
}

/// What replaces the runs that a new value covers: a run for the value, unless the run before it
/// holds the value already, and a run for what is left of the last one.
spec fn patch(left: Option<(u64, u64)>, right: Option<(u64, u64)>) -> Seq<(u64, u64)> {
    match (left, right) {
        (None, None) => seq![],
        (Some(left), None) => seq![left],
        (None, Some(right)) => seq![right],
        (Some(left), Some(right)) => seq![left, right],
    }
}

/// `run`, where it is there.
spec fn when(there: bool, run: (u64, u64)) -> Option<(u64, u64)> {
    if there {
        Some(run)
    } else {
        None
    }
}

/// Whether `spliced` is `runs` with those from `first` up to `last` replaced by a patch that
/// overwrites the offsets from `start` up to `end` with `value`.
spec fn is_splice(
    runs: Seq<(u64, u64)>,
    size: u64,
    first: int,
    last: int,
    start: u64,
    end: u64,
    value: u64,
    has_value: bool,
    has_right: bool,
    spliced: Seq<(u64, u64)>,
) -> bool {
    let mid = patch(when(has_value, (value, start)), when(has_right, (runs[last].0, end)));
    &&& sorted(runs, size)
    &&& start < end <= size
    &&& 0 <= first <= last + 1
    &&& 0 <= last < runs.len()
    &&& runs[last].1 <= end
    &&& first > 0 ==> runs[first - 1].1 < start
    &&& first <= last ==> runs[first].1 >= start
    &&& first == 0 ==> start == 0
    &&& last + 1 < runs.len() ==> end <= runs[last + 1].1
    &&& !has_value ==> first > 0 && runs[first - 1].0 == value
    &&& has_right ==> end < size && (last + 1 < runs.len() ==> end < runs[last + 1].1)
    &&& !has_right && value != runs[last].0 ==> end == (if last + 1 < runs.len() {
        runs[last + 1].1
    } else {
        size
    })
    &&& spliced == runs.take(first) + mid + runs.skip(last + 1)
}

proof fn lemma_splice_sorted(
    runs: Seq<(u64, u64)>,
    size: u64,
    first: int,
    last: int,
    start: u64,
    end: u64,
    value: u64,
    has_value: bool,
    has_right: bool,
    spliced: Seq<(u64, u64)>,
)
    requires
        is_splice(runs, size, first, last, start, end, value, has_value, has_right, spliced),
    ensures
        sorted(spliced, size),
{
    let mid = patch(when(has_value, (value, start)), when(has_right, (runs[last].0, end)));
    let shift = first + mid.len() - (last + 1);
    assert forall|i: int, j: int| 0 <= i < j < spliced.len() implies spliced[i].1
        < spliced[j].1 by {
        if i < first {
            assert(spliced[i] == runs[i]);
            assert(i < first - 1 ==> runs[i].1 < runs[first - 1].1);
        } else if i < first + mid.len() {
            assert(spliced[i] == mid[i - first]);
        } else {
            assert(spliced[i] == runs[i - shift]);
        }
        if j < first {
            assert(spliced[j] == runs[j]);
        } else if j < first + mid.len() {
            assert(spliced[j] == mid[j - first]);
        } else {
            assert(spliced[j] == runs[j - shift]);
            assert(last + 1 < j - shift ==> runs[last + 1].1 < runs[j - shift].1);
        }
    }
    assert forall|i: int| 0 <= i < spliced.len() implies (#[trigger] spliced[i]).1 < size by {
        if i < first {
            assert(spliced[i] == runs[i]);
        } else if i < first + mid.len() {
            assert(spliced[i] == mid[i - first]);
        } else {
            assert(spliced[i] == runs[i - shift]);
        }
    }
}

proof fn lemma_splice_value(
    runs: Seq<(u64, u64)>,
    size: u64,
    first: int,
    last: int,
    start: u64,
    end: u64,
    value: u64,
    has_value: bool,
    has_right: bool,
    spliced: Seq<(u64, u64)>,
    offset: int,
)
    requires
        is_splice(runs, size, first, last, start, end, value, has_value, has_right, spliced),
        sorted(spliced, size),
        0 <= offset < size,
    ensures
        value_at(spliced, offset) == (if start <= offset < end {
            value
        } else {
            value_at(runs, offset)
        }),
{
    let mid = patch(when(has_value, (value, start)), when(has_right, (runs[last].0, end)));
    let shift = first + mid.len() - (last + 1);
    let k = lemma_covered(runs, size, offset);
    lemma_value_at(runs, size, k, offset);
    let value_index = if has_value {
        first
    } else {
        first - 1
    };
    let right_index = first + mid.len() - 1;
    // The runs right after the patch, and the patch itself, by their positions.
    if last + 1 < runs.len() {
        assert(spliced[first + mid.len() as int] == runs[last + 1]);
    }
    if has_value {
        assert(spliced[first] == (value, start));
    } else {
        assert(spliced[first - 1] == runs[first - 1]);
    }
    if has_right {
        assert(spliced[right_index] == (runs[last].0, end));
    }
    if offset < start {
        if k >= first {
            if first <= last {
                assert(first < k ==> runs[first].1 < runs[k].1);
            } else {
                assert(last + 1 < k ==> runs[last + 1].1 < runs[k].1);
            }
        }
        assert(spliced[k] == runs[k]);
        if k + 1 < first {
            assert(spliced[k + 1] == runs[k + 1]);
        }
        assert(covers(spliced, k, offset));
        lemma_value_at(spliced, size, k, offset);
    } else if offset < end {
        assert(covers(spliced, value_index, offset));
        lemma_value_at(spliced, size, value_index, offset);
    } else if k <= last {
        if k < last {
            assert(k + 1 < last ==> runs[k + 1].1 < runs[last].1);
        }
        if has_right {
            assert(covers(spliced, right_index, offset));
            lemma_value_at(spliced, size, right_index, offset);
        } else {
            assert(covers(spliced, value_index, offset));
            lemma_value_at(spliced, size, value_index, offset);
        }
    } else {
        assert(spliced[k + shift] == runs[k]);
        if k + 1 < runs.len() {
            assert(spliced[k + 1 + shift] == runs[k + 1]);
        }
        assert(covers(spliced, k + shift, offset));
        lemma_value_at(spliced, size, k + shift, offset);
    }
}

/// Splicing a patch into sorted runs overwrites the values of the patched range.
proof fn lemma_splice(
    runs: Seq<(u64, u64)>,
    size: u64,
    first: int,
    last: int,
    start: u64,
    end: u64,
    value: u64,
    has_value: bool,
    has_right: bool,
    spliced: Seq<(u64, u64)>,
)
    requires
        is_splice(runs, size, first, last, start, end, value, has_value, has_right, spliced),
    ensures
        sorted(spliced, size),
        values(spliced, size) == overwrite(values(runs, size), start as int, end as int, value),
{
    lemma_splice_sorted(runs, size, first, last, start, end, value, has_value, has_right, spliced);
    assert forall|offset: int| 0 <= offset < size implies #[trigger] values(spliced, size)[offset]
        == overwrite(values(runs, size), start as int, end as int, value)[offset] by {
        lemma_splice_value(
            runs,
            size,
            first,
            last,
            start,
            end,
            value,
            has_value,
            has_right,
            spliced,
            offset,
        );
    }
    assert(values(spliced, size) =~= overwrite(
        values(runs, size),
        start as int,
        end as int,
        value,
    ));
}

/// A patch that repeats no neighbor's value keeps the runs maximal.
proof fn lemma_splice_maximal(
    runs: Seq<(u64, u64)>,
    size: u64,
    first: int,
    last: int,
    start: u64,
    end: u64,
    value: u64,
    has_value: bool,
    has_right: bool,
    spliced: Seq<(u64, u64)>,
)
    requires
        is_splice(runs, size, first, last, start, end, value, has_value, has_right, spliced),
        maximal(runs.take(first)),
        maximal(runs.skip(last)),
        has_value == (first == 0 || runs[first - 1].0 != value),
        has_right == (end < size && runs[last].0 != value),
    ensures
        maximal(spliced),
{
    let mid = patch(when(has_value, (value, start)), when(has_right, (runs[last].0, end)));
    let shift = first + mid.len() - (last + 1);
    assert forall|i: int, j: int| 0 <= i && j == i + 1 && j < spliced.len() implies (
    #[trigger] spliced[i]).0 != (#[trigger] spliced[j]).0 by {
        if i < first {
            assert(spliced[i] == runs[i]);
        } else if i < first + mid.len() {
            assert(spliced[i] == mid[i - first]);
        } else {
            assert(spliced[i] == runs[i - shift]);
        }
        if j < first {
            assert(spliced[j] == runs[j]);
            assert(runs.take(first)[i] == runs[i]);
            assert(runs.take(first)[j] == runs[j]);
        } else if j < first + mid.len() {
            assert(spliced[j] == mid[j - first]);
        } else {
            assert(spliced[j] == runs[j - shift]);
            assert(runs.skip(last)[j - shift - last] == runs[j - shift]);
            assert(runs.skip(last)[i - shift - last] == runs[i - shift]);
        }
    }
}

/// What [`RunMap::set_range`] does to the runs: those from `first` up to `last` are the ones that
/// the range touches, save for one that it leaves in part on its left.
proof fn lemma_set(
    runs: Seq<(u64, u64)>,
    size: u64,
    first: int,
    last: int,
    start: u64,
    end: u64,
    value: u64,
    has_value: bool,
    has_right: bool,
    spliced: Seq<(u64, u64)>,
)
    requires
        sorted(runs, size),
        maximal(runs),
        start < end <= size,
        0 <= first <= last + 1,
        first > 0 ==> runs[first - 1].1 < start,
        first < runs.len() ==> runs[first].1 >= start,
        first == 0 ==> start == 0,
        covers(runs, last, end as int),
        has_value == (first == 0 || runs[first - 1].0 != value),
        has_right == (end < size && runs[last].0 != value),
        spliced == runs.take(first) + patch(
            when(has_value, (value, start)),
            when(has_right, (runs[last].0, end)),
        ) + runs.skip(last + 1),
    ensures
        sorted(spliced, size),
        maximal(spliced),
        values(spliced, size) == overwrite(values(runs, size), start as int, end as int, value),
{
    lemma_splice(runs, size, first, last, start, end, value, has_value, has_right, spliced);
    lemma_splice_maximal(runs, size, first, last, start, end, value, has_value, has_right, spliced);
}

/// Replaces the runs from `first` up to `last` by a patch.
fn splice(
    runs: &mut Runs,
    first: usize,
    last: usize,
    left: Option<(u64, u64)>,
    right: Option<(u64, u64)>,
)
    requires
        first <= last + 1 <= old(runs)@.len(),
    ensures
        final(runs)@ == old(runs)@.take(first as int) + patch(left, right) + old(runs)@.skip(last + 1),
{
    let ghost before = runs@.take(first as int);
    let ghost after = runs@.skip(last + 1);
    let _len: usize = runs.len();
    runs.remove_range(first, last + 1);
    if let Some(run) = right {
        runs.insert(first, run);
    }
    if let Some(run) = left {
        runs.insert(first, run);
    }
    assert(runs@ =~= before + patch(left, right) + after);
}

/// A map from the offsets below its size to values, held as runs of equal values.
#[derive(Debug)]
pub struct RunMap {
    runs: Runs,
    size: u64,
}

impl RunMap {
    /// The runs: pairs of a value and the offset at which it starts.
    pub closed spec fn runs(self) -> Seq<(u64, u64)> {
        self.runs@
    }

    /// The number of offsets.
    pub closed spec fn spec_size(self) -> u64 {
        self.size
    }

    /// The values of all offsets, in order.
    pub open spec fn view(&self) -> Seq<u64> {
        values(self.runs(), self.spec_size())
    }

    /// The canonical form: sorted runs, of which no two neighbors hold the same value.
    pub open spec fn wf(self) -> bool {
        &&& sorted(self.runs(), self.spec_size())
        &&& maximal(self.runs())
    }

    /// Creates a map in which every offset has the same value.
    pub fn new(size: u64, value: u64) -> (map: Self)
        requires
            size > 0,
        ensures
            map.wf(),
            map.spec_size() == size,
            map.runs() == seq![(value, 0u64)],
            map@ == Seq::new(size as nat, |offset: int| value),
    {
        let map = RunMap { runs: Runs::single((value, 0)), size };
        proof {
            assert forall|offset: int| 0 <= offset < size implies value_at(map.runs(), offset)
                == value by {
                assert(covers(map.runs(), 0, offset));
                lemma_value_at(map.runs(), size, 0, offset);
            }
            assert(map@ =~= Seq::new(size as nat, |offset: int| value));
        }
        map
    }

    /// The number of offsets.
    pub fn size(&self) -> (size: u64)
        ensures
            size == self.spec_size(),
    {
        self.size
    }

    /// The number of runs.
    pub fn run_count(&self) -> (count: usize)
        ensures
            count == self.runs().len(),
    {
        self.runs.len()
    }

    /// The run at `index`: its value and the offset at which it starts.
    pub fn run(&self, index: usize) -> (run: (u64, u64))
        requires
            index < self.runs().len(),
        ensures
            run == self.runs()[index as int],
    {
        self.runs.get(index)
    }

    /// The index of the run that `offset` lies in, or of the last one where there is no such run.
    pub fn run_index_at(&self, offset: u64) -> (index: usize)
        requires
            sorted(self.runs(), self.spec_size()),
        ensures
            covers(self.runs(), index as int, offset as int),
    {
        let mut low: usize = 0;
        let mut high: usize = self.runs.len();
        while high - low > 1
            invariant
                sorted(self.runs(), self.spec_size()),
                low < high <= self.runs().len(),
                self.runs()[low as int].1 <= offset,
                high < self.runs().len() ==> offset < self.runs()[high as int].1,
            decreases high - low,
        {
            let middle: usize = low + (high - low) / 2;
            if self.runs.get(middle).1 <= offset {
                low = middle;
            } else {
                high = middle;
            }
        }
        low
    }

    /// Assigns without visiting old values, retaining only the boundary runs.
    pub fn set_range(&mut self, value: u64, range: BufferSubresourceRange)
        requires
            old(self).wf(),
            range.start < range.end <= old(self).spec_size(),
        ensures
            final(self).wf(),
            final(self).spec_size() == old(self).spec_size(),
            final(self)@ == overwrite(old(self)@, range.start as int, range.end as int, value),
    {
        let ghost runs = self.runs();
        let ghost size = self.size;
        if range.start == 0 && range.end == self.size {
            self.runs.truncate(1);
            self.runs.set(0, (value, 0));
            proof {
                assert(self.runs() =~= runs.take(0) + patch(Some((value, 0)), None) + runs.skip(
                    runs.len() as int,
                ));
                lemma_splice(
                    runs,
                    size,
                    0,
                    runs.len() - 1,
                    0,
                    size,
                    value,
                    true,
                    false,
                    self.runs(),
                );
            }
            return;
        }
        let run_count: usize = self.runs.len();
        let start_idx: usize = self.run_index_at(range.start);
        if self.runs.get(start_idx).0 == value && (start_idx + 1 >= run_count || range.end
            <= self.runs.get(start_idx + 1).1) {
            proof {
                assert forall|offset: int| range.start <= offset < range.end implies value_at(
                    runs,
                    offset,
                ) == value by {
                    assert(covers(runs, start_idx as int, offset));
                    lemma_value_at(runs, size, start_idx as int, offset);
                }
                assert(self@ =~= overwrite(
                    old(self)@,
                    range.start as int,
                    range.end as int,
                    value,
                ));
            }
            return;
        }
        let end_idx: usize = self.run_index_at(range.end);
        let right: u64 = self.runs.get(end_idx).0;
        let split: bool = self.runs.get(start_idx).1 < range.start;
        let insert_idx: usize = if split {
            start_idx + 1
        } else {
            start_idx
        };
        let ghost first = insert_idx as int;
        let ghost last = end_idx as int;
        proof {
            if end_idx < start_idx {
                assert(end_idx + 1 < start_idx ==> runs[end_idx + 1].1 < runs[start_idx as int].1);
            }
            assert(start_idx > 0 ==> runs[start_idx - 1].1 < runs[start_idx as int].1);
        }
        let has_value: bool = insert_idx == 0 || self.runs.get(insert_idx - 1).0 != value;
        let has_right: bool = range.end < self.size && right != value;
        splice(
            &mut self.runs,
            insert_idx,
            end_idx,
            if has_value {
                Some((value, range.start))
            } else {
                None
            },
            if has_right {
                Some((right, range.end))
            } else {
                None
            },
        );
        proof {
            lemma_set(
                runs,
                size,
                first,
                last,
                range.start,
                range.end,
                value,
                has_value,
                has_right,
                self.runs(),
            );
        }
    }
}

/// Dropping a run that holds the value of the one before it changes no value.
proof fn lemma_merge(before: Seq<(u64, u64)>, after: Seq<(u64, u64)>, size: u64)
    requires
        sorted(before + after, size),
        before.len() > 0,
        after.len() > 0,
        before.last().0 == after[0].0,
    ensures
        sorted(before + after.skip(1), size),
        values(before + after.skip(1), size) == values(before + after, size),
{
    let runs = before + after;
    let merged = before + after.skip(1);
    let n = before.len() as int;
    assert forall|i: int| 0 <= i < merged.len() implies #[trigger] merged[i] == (if i < n {
        runs[i]
    } else {
        runs[i + 1]
    }) by {}
    assert(sorted(merged, size));
    assert forall|offset: int| 0 <= offset < size implies value_at(merged, offset) == value_at(
        runs,
        offset,
    ) by {
        let k = lemma_covered(runs, size, offset);
        lemma_value_at(runs, size, k, offset);
        let m = if k < n {
            k
        } else {
            k - 1
        };
        assert(covers(merged, m, offset)) by {
            if m + 1 < merged.len() {
                if m + 1 < n {
                    assert(merged[m + 1] == runs[m + 1]);
                } else {
                    assert(merged[m + 1] == runs[m + 2]);
                }
            }
            assert(m < n ==> merged[m] == runs[m]);
            assert(m >= n ==> merged[m] == runs[m + 1]);
            assert(runs[n - 1].1 < runs[n].1);
        }
        lemma_value_at(merged, size, m, offset);
        assert(runs[n - 1] == before.last());
        assert(runs[n] == after[0]);
    }
    assert(values(merged, size) =~= values(runs, size));
}

/// Appending a run with another value than the last one's keeps the runs maximal.
proof fn lemma_push_maximal(runs: Seq<(u64, u64)>, run: (u64, u64))
    requires
        maximal(runs),
        runs.len() > 0 ==> runs.last().0 != run.0,
    ensures
        maximal(runs.push(run)),
{
    assert forall|i: int, j: int| 0 <= i && j == i + 1 && j < runs.push(run).len() implies (
    #[trigger] runs.push(run)[i]).0 != (#[trigger] runs.push(run)[j]).0 by {
        assert(runs.push(run)[i] == runs[i]);
        if j < runs.len() {
            assert(runs.push(run)[j] == runs[j]);
        }
    }
}

/// Putting a run with another value before the first one keeps the runs maximal.
proof fn lemma_prepend_maximal(run: (u64, u64), runs: Seq<(u64, u64)>)
    requires
        maximal(runs),
        runs.len() > 0 ==> runs[0].0 != run.0,
    ensures
        maximal(seq![run] + runs),
{
    let longer = seq![run] + runs;
    assert forall|i: int, j: int| 0 <= i && j == i + 1 && j < longer.len() implies (
    #[trigger] longer[i]).0 != (#[trigger] longer[j]).0 by {
        assert(longer[j] == runs[j - 1]);
        if i > 0 {
            assert(longer[i] == runs[i - 1]);
        }
    }
}

/// Where the run at `index` ends.
spec fn run_end(runs: Seq<(u64, u64)>, size: u64, index: int) -> u64 {
    if index + 1 < runs.len() {
        runs[index + 1].1
    } else {
        size
    }
}

/// Where a patch begins: the index of its first run, the offset at which the value starts, and
/// whether the value needs a run of its own.
pub struct PatchPlace {
    first: int,
    from: u64,
    has_value: bool,
}

/// Whether a patch that begins at `place` writes `value` from `start` on, in the run at `at`.
spec fn begins_patch(
    live: Seq<(u64, u64)>,
    at: int,
    start: u64,
    value: u64,
    place: PatchPlace,
) -> bool {
    let first = place.first;
    let from = place.from;
    &&& at <= first <= at + 1
    &&& first > 0 ==> live[first - 1].1 < from
    &&& first <= at ==> live[first].1 >= from
    &&& first == 0 ==> from == 0
    &&& from <= start
    &&& from < start ==> from == live[at].1 && live[at].0 == value
    &&& place.has_value == (first == 0 || live[first - 1].0 != value)
}

/// What one step of a visit does to the runs: a patch in the run at `at`.
proof fn lemma_advance(
    live: Seq<(u64, u64)>,
    size: u64,
    at: int,
    start: u64,
    end: u64,
    value: u64,
    place: PatchPlace,
    has_right: bool,
    spliced: Seq<(u64, u64)>,
)
    requires
        sorted(live, size),
        covers(live, at, start as int),
        start < end <= run_end(live, size, at),
        begins_patch(live, at, start, value, place),
        has_right == (end < run_end(live, size, at) && live[at].0 != value),
        spliced == live.take(place.first) + patch(
            when(place.has_value, (value, place.from)),
            when(has_right, (live[at].0, end)),
        ) + live.skip(at + 1),
    ensures
        sorted(spliced, size),
        values(spliced, size) == overwrite(values(live, size), start as int, end as int, value),
{
    lemma_splice(
        live,
        size,
        place.first,
        at,
        place.from,
        end,
        value,
        place.has_value,
        has_right,
        spliced,
    );
    let before = values(live, size);
    // Where the patch begins before the range, it repeats the value that was there.
    assert forall|offset: int| place.from <= offset < start implies before[offset] == value by {
        assert(covers(live, at, offset));
        lemma_value_at(live, size, at, offset);
    }
    assert(overwrite(before, place.from as int, end as int, value) =~= overwrite(
        before,
        start as int,
        end as int,
        value,
    ));
}

/// A position in a map from which the runs of a range are visited and rewritten one by one.
///
/// While a visit is under way the map's run storage has a gap: the runs before `write_idx` are
/// final, those from `run_idx` on are still to be visited, and the ones between them are void. The
/// last step closes the gap.
#[derive(Clone, Copy, Debug)]
pub struct RunMapCursor {
    run_idx: usize,
    write_idx: usize,
    remaining_range: BufferSubresourceRange,
}

impl RunMapCursor {
    /// The part of the range that is still to be visited.
    pub closed spec fn remaining(self) -> BufferSubresourceRange {
        self.remaining_range
    }

    /// Whether nothing is left to visit.
    pub open spec fn done(self) -> bool {
        self.remaining().start == self.remaining().end
    }

    /// The runs without the gap.
    pub closed spec fn live(self, map: RunMap) -> Seq<(u64, u64)> {
        if self.done() {
            map.runs()
        } else {
            map.runs().take(self.write_idx as int) + map.runs().skip(self.run_idx as int)
        }
    }

    /// The values of all offsets at this point of the visit.
    pub open spec fn values(self, map: RunMap) -> Seq<u64> {
        values(self.live(map), map.spec_size())
    }

    /// Whether the cursor stands at a run of the map.
    pub closed spec fn wf(self, map: RunMap) -> bool {
        let runs = map.runs();
        let w = self.write_idx as int;
        let r = self.run_idx as int;
        let start = self.remaining_range.start;
        &&& start <= self.remaining_range.end <= map.spec_size()
        &&& if self.done() {
            map.wf()
        } else {
            &&& w <= r
            &&& sorted(self.live(map), map.spec_size())
            &&& maximal(runs.take(w))
            &&& maximal(runs.skip(r))
            &&& covers(runs, r, start as int)
            &&& runs[r].1 < start ==> w == r && (w > 0 ==> runs[w - 1].0 != runs[r].0)
            &&& w > 0 ==> runs[w - 1].1 < start
        }
    }

    /// Once nothing is left to visit, the map is back in its canonical form.
    pub proof fn lemma_done(self, map: RunMap)
        requires
            self.wf(map),
            self.done(),
        ensures
            map.wf(),
            self.values(map) == map@,
    {
    }

    /// Starts a visit of the runs in a range.
    pub fn new(map: &RunMap, remaining_range: BufferSubresourceRange) -> (cursor: Self)
        requires
            map.wf(),
            remaining_range.start < remaining_range.end <= map.spec_size(),
        ensures
            cursor.wf(*map),
            cursor.remaining() == remaining_range,
            cursor.values(*map) == map@,
    {
        let run_idx: usize = map.run_index_at(remaining_range.start);
        let cursor = RunMapCursor { run_idx, write_idx: run_idx, remaining_range };
        proof {
            let runs = map.runs();
            assert(runs.take(run_idx as int) + runs.skip(run_idx as int) =~= runs);
            assert(run_idx > 0 ==> runs[run_idx - 1].1 < runs[run_idx as int].1);
        }
        cursor
    }

    /// Closes the gap once the last run has been visited.
    fn close(&mut self, map: &mut RunMap)
        requires
            0 < old(self).write_idx <= old(self).run_idx <= old(map).runs().len(),
            sorted(
                old(map).runs().take(old(self).write_idx as int) + old(map).runs().skip(
                    old(self).run_idx as int,
                ),
                old(map).spec_size(),
            ),
            maximal(old(map).runs().take(old(self).write_idx as int)),
            maximal(old(map).runs().skip(old(self).run_idx as int)),
        ensures
            final(map).wf(),
            final(map).spec_size() == old(map).spec_size(),
            final(map)@ == values(
                old(map).runs().take(old(self).write_idx as int) + old(map).runs().skip(
                    old(self).run_idx as int,
                ),
                old(map).spec_size(),
            ),
            final(self).remaining_range == old(self).remaining_range,
    {
        let ghost before = map.runs().take(self.write_idx as int);
        let ghost after = map.runs().skip(self.run_idx as int);
        let ghost runs = map.runs();
        let ghost size = map.size;
        let len: usize = map.runs.len();
        if self.run_idx < len && map.runs.get(self.run_idx).0 == map.runs.get(
            self.write_idx - 1,
        ).0 {
            proof {
                lemma_merge(before, after, size);
                assert(after.skip(1) =~= runs.skip(self.run_idx + 1));
            }
            self.run_idx += 1;
        }
        map.runs.remove_range(self.write_idx, self.run_idx);
        proof {
            let rest = runs.skip(self.run_idx as int);
            let joined = before + rest;
            let w = self.write_idx as int;
            assert(map.runs() == joined);
            assert forall|i: int, j: int| 0 <= i && j == i + 1 && j < joined.len() implies (
            #[trigger] joined[i]).0 != (#[trigger] joined[j]).0 by {
                if j < w {
                    assert(joined[i] == before[i]);
                    assert(joined[j] == before[j]);
                } else if i >= w {
                    assert(joined[i] == rest[i - w]);
                    assert(joined[j] == rest[j - w]);
                    assert(rest[i - w] == after[i - w + (self.run_idx - old(self).run_idx)]);
                    assert(rest[j - w] == after[j - w + (self.run_idx - old(self).run_idx)]);
                } else {
                    assert(joined[i] == before.last());
                    assert(joined[j] == rest[0]);
                    assert(self.run_idx > old(self).run_idx ==> rest[0] == after[1]);
                    assert(self.run_idx > old(self).run_idx ==> after[0].0 != after[1].0);
                }
            }
        }
    }

    /// Writes `value` over the part of the current run that starts at `start`, leaving the run's
    /// head in place where it lies before, and steps past the run.
    #[verifier::spinoff_prover]
    #[verifier::rlimit(30)]
    fn rewrite(&mut self, map: &mut RunMap, start: u64, end: u64, value: u64) -> (place: Ghost<
        PatchPlace,
    >)
        requires
            old(self).write_idx <= old(self).run_idx < old(map).runs().len(),
            sorted(
                old(map).runs().take(old(self).write_idx as int) + old(map).runs().skip(
                    old(self).run_idx as int,
                ),
                old(map).spec_size(),
            ),
            maximal(old(map).runs().take(old(self).write_idx as int)),
            maximal(old(map).runs().skip(old(self).run_idx as int)),
            covers(old(map).runs(), old(self).run_idx as int, start as int),
            old(map).runs()[old(self).run_idx as int].1 < start ==> old(self).write_idx == old(
                self,
            ).run_idx && (old(self).write_idx > 0 ==> old(map).runs()[old(self).write_idx - 1].0
                != old(map).runs()[old(self).run_idx as int].0),
            old(self).write_idx > 0 ==> old(map).runs()[old(self).write_idx - 1].1 < start,
            start < end <= old(map).spec_size(),
            old(self).run_idx + 1 < old(map).runs().len() ==> end <= old(map).runs()[old(
                self,
            ).run_idx + 1].1,
        ensures
            final(map).spec_size() == old(map).spec_size(),
            final(self).remaining_range == old(self).remaining_range,
            0 < final(self).write_idx <= final(self).run_idx <= final(map).runs().len(),
            final(map).runs().skip(final(self).run_idx as int) == old(map).runs().skip(
                old(self).run_idx + 1,
            ),
            maximal(final(map).runs().take(final(self).write_idx as int)),
            final(map).runs()[final(self).write_idx - 1].0 == value,
            final(map).runs()[final(self).write_idx - 1].1 <= start,
            begins_patch(
                old(map).runs().take(old(self).write_idx as int) + old(map).runs().skip(
                    old(self).run_idx as int,
                ),
                old(self).write_idx as int,
                start,
                value,
                place@,
            ),
            final(map).runs().take(final(self).write_idx as int) == (old(map).runs().take(
                old(self).write_idx as int,
            ) + old(map).runs().skip(old(self).run_idx as int)).take(place@.first) + patch(
                when(place@.has_value, (value, place@.from)),
                None,
            ),
    {
        let ghost runs = map.runs();
        let ghost w = self.write_idx as int;
        let ghost r = self.run_idx as int;
        let ghost live = runs.take(w) + runs.skip(r);
        let (old_value, old_start) = map.runs.get(self.run_idx);
        let _len: usize = map.runs.len();
        let mut new_start: u64 = start;
        assert(live[w] == runs[r]);
        assert(w > 0 ==> live[w - 1] == runs[w - 1]);
        if old_start < start {
            if old_value == value {
                new_start = old_start;
            } else {
                // Only the first run can need a left-boundary split.
                self.run_idx += 1;
                self.write_idx += 1;
                map.runs.insert(self.run_idx, (old_value, start));
                assert(map.runs().take(w + 1) =~= live.take(w + 1));
                assert(map.runs().skip(r + 2) =~= runs.skip(r + 1));
                assert(live.take(w + 1)[w] == runs[r]);
            }
        }
        let ghost first = self.write_idx as int;
        assert(map.runs().take(first) =~= live.take(first));
        assert(map.runs().skip(self.run_idx + 1) =~= runs.skip(r + 1));
        // Compact behind the read index without shifting unvisited runs.
        let has_value: bool = self.write_idx == 0 || map.runs.get(self.write_idx - 1).0 != value;
        let _len: usize = map.runs.len();
        if has_value {
            map.runs.set(self.write_idx, (value, new_start));
            self.write_idx += 1;
        }
        self.run_idx += 1;
        proof {
            assert(first > 0 ==> live[first - 1] == live.take(first)[first - 1]);
            assert(map.runs().skip(self.run_idx as int) =~= runs.skip(r + 1));
            let kept = map.runs().take(self.write_idx as int);
            assert(kept =~= live.take(first) + patch(when(has_value, (value, new_start)), None));
            assert(maximal(kept)) by {
                assert forall|i: int, j: int| 0 <= i && j == i + 1 && j < kept.len() implies (
                #[trigger] kept[i]).0 != (#[trigger] kept[j]).0 by {
                    assert(kept[i] == live[i]);
                    if j < w {
                        assert(runs.take(w)[i] == live[i]);
                        assert(runs.take(w)[j] == live[j]);
                    }
                }
            }
        }
        Ghost(PatchPlace { first, from: new_start, has_value })
    }

    /// Puts what the range leaves of the last run behind the runs that are final, and closes the
    /// gap.
    fn finish(&mut self, map: &mut RunMap, right: Option<(u64, u64)>)
        requires
            0 < old(self).write_idx <= old(self).run_idx <= old(map).runs().len(),
            sorted(
                old(map).runs().take(old(self).write_idx as int) + patch(None, right) + old(
                    map,
                ).runs().skip(old(self).run_idx as int),
                old(map).spec_size(),
            ),
            maximal(old(map).runs().take(old(self).write_idx as int)),
            maximal(old(map).runs().skip(old(self).run_idx as int)),
            right matches Some(run) ==> old(map).runs()[old(self).write_idx - 1].0 != run.0,
            right matches Some(run) ==> old(self).run_idx < old(map).runs().len() ==> old(
                map,
            ).runs()[old(self).run_idx as int].0 != run.0,
        ensures
            final(map).wf(),
            final(map).spec_size() == old(map).spec_size(),
            final(map)@ == values(
                old(map).runs().take(old(self).write_idx as int) + patch(None, right) + old(
                    map,
                ).runs().skip(old(self).run_idx as int),
                old(map).spec_size(),
            ),
            final(self).remaining_range == old(self).remaining_range,
    {
        let ghost kept = map.runs().take(self.write_idx as int);
        let ghost rest = map.runs().skip(self.run_idx as int);
        let ghost whole = kept + patch(None, right) + rest;
        if let Some(run) = right {
            if self.write_idx < self.run_idx {
                map.runs.set(self.write_idx, run);
                self.write_idx += 1;
                proof {
                    assert(map.runs().take(self.write_idx as int) =~= kept.push(run));
                    assert(map.runs().skip(self.run_idx as int) =~= rest);
                    lemma_push_maximal(kept, run);
                }
            } else {
                map.runs.insert(self.run_idx, run);
                proof {
                    assert(map.runs().take(self.write_idx as int) =~= kept);
                    assert(map.runs().skip(self.run_idx as int) =~= seq![run] + rest);
                    lemma_prepend_maximal(run, rest);
                }
            }
        }
        assert(map.runs().take(self.write_idx as int) + map.runs().skip(self.run_idx as int)
            =~= whole);
        self.close(map);
    }

    /// The part of the current run that is still to be visited, and the run's value.
    fn peek(&self, map: &RunMap) -> (run: (u64, BufferSubresourceRange))
        requires
            self.wf(*map),
            !self.done(),
        ensures
            is_first_run(self.values(*map), self.remaining(), run.0, run.1),
            run.0 == map.runs()[self.run_idx as int].0,
            run.1.end == run_end(map.runs(), map.spec_size(), self.run_idx as int) || run.1.end
                < run_end(map.runs(), map.spec_size(), self.run_idx as int) && run.1.end
                == self.remaining().end,
    {
        let len: usize = map.runs.len();
        let value: u64 = map.runs.get(self.run_idx).0;
        let start: u64 = self.remaining_range.start;
        let old_end: u64 = if self.run_idx + 1 < len {
            map.runs.get(self.run_idx + 1).1
        } else {
            map.size
        };
        let end: u64 = if self.remaining_range.end < old_end {
            self.remaining_range.end
        } else {
            old_end
        };
        proof {
            let runs = map.runs();
            let at = self.write_idx as int;
            let live = self.live(*map);
            let values = self.values(*map);
            assert(live[at] == runs[self.run_idx as int]);
            if self.run_idx + 1 < len {
                assert(live[at + 1] == runs[self.run_idx + 1]);
            }
            assert forall|offset: int| start <= offset < end implies values[offset] == value by {
                assert(covers(live, at, offset));
                lemma_value_at(live, map.size, at, offset);
            }
            if old_end < map.size {
                assert(covers(live, at + 1, old_end as int)) by {
                    if at + 2 < live.len() {
                        assert(live[at + 1].1 < live[at + 2].1);
                    }
                }
                lemma_value_at(live, map.size, at + 1, old_end as int);
                assert(runs.skip(self.run_idx as int)[0] == live[at]);
                assert(runs.skip(self.run_idx as int)[1] == live[at + 1]);
            }
        }
        (value, BufferSubresourceRange { start, end })
    }

    /// Replaces the part of the current run that ends at `end` by `value`, and steps past it.
    fn advance(&mut self, map: &mut RunMap, end: u64, value: u64)
        requires
            old(self).wf(*old(map)),
            old(self).remaining().start < end <= old(self).remaining().end,
            ({
                let run_end = run_end(
                    old(map).runs(),
                    old(map).spec_size(),
                    old(self).run_idx as int,
                );
                end == run_end || end < run_end && end == old(self).remaining().end
            }),
        ensures
            final(self).wf(*final(map)),
            final(map).spec_size() == old(map).spec_size(),
            final(self).remaining().start == end,
            final(self).remaining().end == old(self).remaining().end,
            final(self).values(*final(map)) == overwrite(
                old(self).values(*old(map)),
                old(self).remaining().start as int,
                end as int,
                value,
            ),
    {
        let ghost runs = map.runs();
        let ghost size = map.size;
        let ghost at = self.write_idx as int;
        let ghost live = self.live(*map);
        let ghost before = self.values(*map);
        let ghost old_end = run_end(runs, size, self.run_idx as int);
        let old_value: u64 = map.runs.get(self.run_idx).0;
        let len: usize = map.runs.len();
        let splits: bool = end < (if self.run_idx + 1 < len {
            map.runs.get(self.run_idx + 1).1
        } else {
            map.size
        });
        let start: u64 = self.remaining_range.start;
        assert(live[at] == runs[self.run_idx as int]);
        assert(self.run_idx + 1 < runs.len() ==> live[at + 1] == runs[self.run_idx + 1]);
        self.remaining_range.start = end;
        let place: Ghost<PatchPlace> = self.rewrite(map, start, end, value);
        let ghost kept = map.runs().take(self.write_idx as int);
        let ghost rest = map.runs().skip(self.run_idx as int);
        let has_right: bool = splits && old_value != value;
        let ghost spliced = live.take(place@.first) + patch(
            when(place@.has_value, (value, place@.from)),
            when(has_right, (old_value, end)),
        ) + live.skip(at + 1);
        proof {
            assert(live.skip(at + 1) =~= rest);
            lemma_advance(live, size, at, start, end, value, place@, has_right, spliced);
            assert(maximal(rest)) by {
                let all = runs.skip(old(self).run_idx as int);
                assert forall|i: int, j: int| 0 <= i && j == i + 1 && j < rest.len() implies (
                #[trigger] rest[i]).0 != (#[trigger] rest[j]).0 by {
                    assert(rest[i] == all[i + 1]);
                    assert(rest[j] == all[j + 1]);
                }
            }
        }
        if self.remaining_range.start == self.remaining_range.end {
            proof {
                let right = when(has_right, (old_value, end));
                assert(kept + patch(None, right) + rest =~= spliced);
                assert(kept.last() == map.runs()[self.write_idx - 1]);
                if rest.len() > 0 {
                    assert(runs.skip(old(self).run_idx as int)[0].0 == old_value);
                    assert(rest[0] == runs.skip(old(self).run_idx as int)[1]);
                }
            }
            self.finish(
                map,
                if has_right {
                    Some((old_value, end))
                } else {
                    None
                },
            );
        } else {
            proof {
                assert(kept + rest =~= spliced);
                assert(rest[0] == map.runs()[self.run_idx as int]);
                assert(rest[0] == runs[old(self).run_idx + 1]);
                if self.run_idx + 1 < map.runs().len() {
                    assert(rest[1] == map.runs()[self.run_idx + 1]);
                    assert(live[at + 1] == rest[0]);
                    assert(live[at + 2] == rest[1]);
                }
            }
        }
    }

    /// Visits the next run of the range: replaces its part of the range by `new_value` of its
    /// value, and returns that value and part.
    pub fn next_with<F: FnOnce(u64) -> u64>(&mut self, map: &mut RunMap, new_value: F) -> (step:
        Option<(u64, BufferSubresourceRange)>)
        requires
            old(self).wf(*old(map)),
            !old(self).done() ==> new_value.requires(
                (old(self).values(*old(map))[old(self).remaining().start as int],),
            ),
        ensures
            final(self).wf(*final(map)),
            final(map).spec_size() == old(map).spec_size(),
            step is None <==> old(self).done(),
            step is None ==> *final(self) == *old(self) && *final(map) == *old(map),
            step matches Some((value, range)) ==> {
                let before = old(self).values(*old(map));
                &&& is_first_run(before, old(self).remaining(), value, range)
                &&& final(self).remaining().start == range.end
                &&& final(self).remaining().end == old(self).remaining().end
                &&& exists|new: u64|
                    new_value.ensures((value,), new) && final(self).values(*final(map))
                        == #[trigger] overwrite(before, range.start as int, range.end as int, new)
            },
    {
        if self.remaining_range.start == self.remaining_range.end {
            return None;
        }
        let (value, range) = self.peek(map);
        let new: u64 = new_value(value);
        self.advance(map, range.end, new);
        Some((value, range))
    }
}

/// A visit of the runs in a range that assigns one value to all of it.
#[derive(Clone, Copy, Debug)]
pub struct RunMapIter {
    cursor: RunMapCursor,
    new_value: u64,
}

impl RunMapIter {
    /// The part of the range that is still to be visited.
    pub closed spec fn remaining(self) -> BufferSubresourceRange {
        self.cursor.remaining()
    }

    /// The value that is assigned.
    pub closed spec fn value(self) -> u64 {
        self.new_value
    }

    /// The values of all offsets at this point of the visit.
    pub closed spec fn values(self, map: RunMap) -> Seq<u64> {
        self.cursor.values(map)
    }

    /// Whether the visit stands at a run of the map.
    pub closed spec fn wf(self, map: RunMap) -> bool {
        self.cursor.wf(map)
    }

    /// Starts a visit that assigns `new_value` to a range.
    pub fn new(map: &RunMap, new_value: u64, remaining_range: BufferSubresourceRange) -> (iter:
        Self)
        requires
            map.wf(),
            remaining_range.start < remaining_range.end <= map.spec_size(),
        ensures
            iter.wf(*map),
            iter.remaining() == remaining_range,
            iter.value() == new_value,
            iter.values(*map) == map@,
    {
        RunMapIter { cursor: RunMapCursor::new(map, remaining_range), new_value }
    }

    /// Assigns the value to the next run, and returns the run's old value and part of the range.
    pub fn next(&mut self, map: &mut RunMap) -> (step: Option<(u64, BufferSubresourceRange)>)
        requires
            old(self).wf(*old(map)),
        ensures
            final(self).wf(*final(map)),
            final(map).spec_size() == old(map).spec_size(),
            final(self).value() == old(self).value(),
            step is None <==> old(self).remaining().start == old(self).remaining().end,
            step is None ==> *final(self) == *old(self) && *final(map) == *old(map),
            step matches Some((value, range)) ==> {
                &&& is_first_run(old(self).values(*old(map)), old(self).remaining(), value, range)
                &&& final(self).remaining().start == range.end
                &&& final(self).remaining().end == old(self).remaining().end
                &&& final(self).values(*final(map)) == overwrite(
                    old(self).values(*old(map)),
                    range.start as int,
                    range.end as int,
                    old(self).value(),
                )
            },
    {
        let new_value: u64 = self.new_value;
        let assign = |_old_value: u64| -> (new: u64)
            ensures
                new == new_value,
            { new_value };
        self.cursor.next_with(map, assign)
    }

    /// Assigns the value to all runs that are still to be visited, and returns their old values
    /// and parts of the range.
    pub fn drain(&mut self, map: &mut RunMap) -> (steps: Vec<(u64, BufferSubresourceRange)>)
        requires
            old(self).wf(*old(map)),
        ensures
            final(self).wf(*final(map)),
            final(self).remaining().start == final(self).remaining().end,
            final(map).wf(),
            final(map).spec_size() == old(map).spec_size(),
            final(map)@ == overwrite(
                old(self).values(*old(map)),
                old(self).remaining().start as int,
                old(self).remaining().end as int,
                old(self).value(),
            ),
            steps@ == segments(
                old(self).values(*old(map)),
                old(self).remaining().start as int,
                old(self).remaining().end as int,
            ),
    {
        let mut steps: Vec<(u64, BufferSubresourceRange)> = Vec::new();
        let ghost before = self.values(*map);
        let ghost all = self.remaining();
        let ghost value = self.value();
        assert(overwrite(before, all.start as int, all.start as int, value) =~= before);
        loop
            invariant
                self.wf(*map),
                self.value() == value,
                map.spec_size() == old(map).spec_size(),
                before.len() == map.spec_size(),
                all.start <= self.remaining().start <= self.remaining().end == all.end,
                all.end <= map.spec_size(),
                self.values(*map) == overwrite(
                    before,
                    all.start as int,
                    self.remaining().start as int,
                    value,
                ),
                steps@ + segments(before, self.remaining().start as int, all.end as int)
                    == segments(before, all.start as int, all.end as int),
            ensures
                self.remaining().start == self.remaining().end,
            decreases all.end - self.remaining().start,
        {
            let ghost now = self.values(*map);
            let ghost rest = self.remaining();
            let step = self.next(map);
            match step {
                None => {
                    break;
                },
                Some(run) => {
                    proof {
                        lemma_segments_agree(now, before, rest.start as int, rest.end as int);
                        lemma_segments_agree(now, before, run.1.end as int, rest.end as int);
                        lemma_first_segment(now, rest, run.0, run.1);
                        assert(steps@ + (seq![run] + segments(
                            before,
                            run.1.end as int,
                            rest.end as int,
                        )) =~= steps@.push(run) + segments(
                            before,
                            run.1.end as int,
                            rest.end as int,
                        ));
                        assert(self.values(*map) =~= overwrite(
                            before,
                            all.start as int,
                            run.1.end as int,
                            value,
                        ));
                    }
                    steps.push(run);
                },
            }
        }
        assert(steps@ =~= segments(before, all.start as int, all.end as int));
        steps
    }
}

proof fn lemma_same_runs(
    a: Seq<(u64, u64)>,
    b: Seq<(u64, u64)>,
    size: u64,
    count: int,
)
    requires
        sorted(a, size),
        maximal(a),
        sorted(b, size),
        maximal(b),
        values(a, size) == values(b, size),
        0 <= count <= a.len(),
    ensures
        count <= b.len(),
        forall|i: int| 0 <= i < count ==> a[i] == b[i],
    decreases count,
{
    if count > 0 {
        let k = count - 1;
        lemma_same_runs(a, b, size, k);
        let start = a[k].1 as int;
        assert(covers(a, k, start)) by {
            assert(k + 1 < a.len() ==> a[k].1 < a[k + 1].1);
        }
        lemma_value_at(a, size, k, start);
        assert(values(a, size)[start] == value_at(a, start));
        assert(values(b, size)[start] == value_at(b, start));
        if k == 0 {
            assert(covers(b, 0, 0)) by {
                assert(1 < b.len() ==> b[0].1 < b[1].1);
            }
            lemma_value_at(b, size, 0, 0);
        } else {
            assert(a[k - 1] == b[k - 1]);
            assert(a[k - 1].0 != a[k].0);
            assert(a[k - 1].1 < a[k].1);
            if k >= b.len() || start < b[k].1 {
                assert(covers(b, k - 1, start));
                lemma_value_at(b, size, k - 1, start);
            } else {
                let other = b[k].1 as int;
                assert(covers(b, k, other)) by {
                    assert(k + 1 < b.len() ==> b[k].1 < b[k + 1].1);
                }
                lemma_value_at(b, size, k, other);
                assert(values(a, size)[other] == value_at(a, other));
                assert(values(b, size)[other] == value_at(b, other));
                assert(b[k - 1].0 != b[k].0);
                assert(b[k - 1].1 < b[k].1);
                if other < start {
                    assert(covers(a, k - 1, other));
                    lemma_value_at(a, size, k - 1, other);
                }
            }
        }
    }
}

/// The canonical form is unique: maps with the same values are held as the same runs, however
/// they came about.
pub proof fn canonical_runs_are_unique(a: RunMap, b: RunMap)
    requires
        a.wf(),
        b.wf(),
        a.spec_size() == b.spec_size(),
        a@ == b@,
    ensures
        a.runs() == b.runs(),
{
    lemma_same_runs(a.runs(), b.runs(), a.spec_size(), a.runs().len() as int);
    lemma_same_runs(b.runs(), a.runs(), a.spec_size(), b.runs().len() as int);
    assert(a.runs() =~= b.runs());
}

/// Assigning a value to a range twice is assigning it once.
pub proof fn assignment_is_idempotent(values: Seq<u64>, start: int, end: int, value: u64)
    ensures
        overwrite(overwrite(values, start, end, value), start, end, value) == overwrite(
            values,
            start,
            end,
            value,
        ),
{
    assert(overwrite(overwrite(values, start, end, value), start, end, value) =~= overwrite(
        values,
        start,
        end,
        value,
    ));
}

} // verus!
