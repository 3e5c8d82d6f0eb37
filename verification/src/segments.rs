//! Sequences of values as lists of maximal runs.

use crate::buffer::BufferSubresourceRange;
use vstd::prelude::*;

verus! {

/// Where the run of equal values that contains `start` stops, at `end` at the latest.
pub open spec fn run_stop<V>(values: Seq<V>, start: int, end: int) -> int
    decreases end - start,
{
    if start + 1 >= end || values[start + 1] != values[start] {
        start + 1
    } else {
        run_stop(values, start + 1, end)
    }
}

/// The maximal runs of equal values from `start` up to `end`, in order.
pub open spec fn segments<V>(values: Seq<V>, start: int, end: int) -> Seq<
    (V, BufferSubresourceRange),
>
    decreases end - start,
{
    if start >= end {
        seq![]
    } else {
        let stop = run_stop(values, start, end);
        proof {
            lemma_run_stop(values, start, end);
        }
        seq![(values[start], BufferSubresourceRange { start: start as u64, end: stop as u64 })]
            + segments(values, stop, end)
    }
}

/// Whether `range` is what the first run of `value` covers of `within`: all of it holds the value,
/// and it ends where `within` does or where another value begins.
pub open spec fn is_first_run<V>(
    values: Seq<V>,
    within: BufferSubresourceRange,
    value: V,
    range: BufferSubresourceRange,
) -> bool {
    &&& range.start == within.start
    &&& range.start < range.end <= within.end
    &&& forall|offset: int| range.start <= offset < range.end ==> values[offset] == value
    &&& range.end < within.end ==> values[range.end as int] != value
}

/// A run is not empty, stays within bounds, holds one value, and is as long as can be.
pub proof fn lemma_run_stop<V>(values: Seq<V>, start: int, end: int)
    requires
        start < end,
    ensures
        start < run_stop(values, start, end) <= end,
        forall|i: int| start <= i < run_stop(values, start, end) ==> values[i] == values[start],
        run_stop(values, start, end) < end ==> values[run_stop(values, start, end)]
            != values[start],
    decreases end - start,
{
    if !(start + 1 >= end || values[start + 1] != values[start]) {
        lemma_run_stop(values, start + 1, end);
    }
}

/// The first run of a list of segments.
pub proof fn lemma_first_segment<V>(
    values: Seq<V>,
    within: BufferSubresourceRange,
    value: V,
    range: BufferSubresourceRange,
)
    requires
        is_first_run(values, within, value, range),
    ensures
        segments(values, within.start as int, within.end as int) == seq![(value, range)]
            + segments(values, range.end as int, within.end as int),
{
    lemma_run_stop(values, within.start as int, within.end as int);
    let stop = run_stop(values, within.start as int, within.end as int);
    if stop < range.end {
        assert(values[stop] == value);
    }
    if range.end < stop {
        assert(values[range.end as int] == values[within.start as int]);
    }
}

/// Segments depend only on the values in their range.
pub proof fn lemma_segments_agree<V>(a: Seq<V>, b: Seq<V>, start: int, end: int)
    requires
        forall|i: int| start <= i < end ==> a[i] == b[i],
    ensures
        segments(a, start, end) == segments(b, start, end),
    decreases end - start,
{
    if start < end {
        lemma_run_stop_agree(a, b, start, end);
        lemma_run_stop(a, start, end);
        lemma_segments_agree(a, b, run_stop(a, start, end), end);
    }
}

proof fn lemma_run_stop_agree<V>(a: Seq<V>, b: Seq<V>, start: int, end: int)
    requires
        start < end,
        forall|i: int| start <= i < end ==> a[i] == b[i],
    ensures
        run_stop(a, start, end) == run_stop(b, start, end),
    decreases end - start,
{
    if !(start + 1 >= end || a[start + 1] != a[start]) {
        lemma_run_stop_agree(a, b, start + 1, end);
    }
}

/// Segments of values that correspond one to one.
pub proof fn lemma_segments_map<U, V>(
    a: Seq<U>,
    b: Seq<V>,
    f: spec_fn(U) -> V,
    start: int,
    end: int,
)
    requires
        forall|i: int| start <= i < end ==> b[i] == #[trigger] f(a[i]),
        forall|i: int, j: int|
            start <= i < end && start <= j < end && #[trigger] f(a[i]) == #[trigger] f(a[j])
                ==> a[i] == a[j],
    ensures
        segments(b, start, end) == segments(a, start, end).map_values(
            |run: (U, BufferSubresourceRange)| (f(run.0), run.1),
        ),
    decreases end - start,
{
    let convert = |run: (U, BufferSubresourceRange)| (f(run.0), run.1);
    if start < end {
        lemma_run_stop_map(a, b, f, start, end);
        lemma_run_stop(a, start, end);
        let stop = run_stop(a, start, end);
        lemma_segments_map(a, b, f, stop, end);
        assert(b[start] == f(a[start]));
        let first = (a[start], BufferSubresourceRange { start: start as u64, end: stop as u64 });
        assert((seq![first] + segments(a, stop, end)).map_values(convert) =~= seq![convert(first)]
            + segments(a, stop, end).map_values(convert));
    } else {
        assert(segments(a, start, end).map_values(convert) =~= segments(b, start, end));
    }
}

proof fn lemma_run_stop_map<U, V>(
    a: Seq<U>,
    b: Seq<V>,
    f: spec_fn(U) -> V,
    start: int,
    end: int,
)
    requires
        start < end,
        forall|i: int| start <= i < end ==> b[i] == #[trigger] f(a[i]),
        forall|i: int, j: int|
            start <= i < end && start <= j < end && #[trigger] f(a[i]) == #[trigger] f(a[j])
                ==> a[i] == a[j],
    ensures
        run_stop(a, start, end) == run_stop(b, start, end),
    decreases end - start,
{
    if start + 1 < end {
        assert(b[start] == f(a[start]) && b[start + 1] == f(a[start + 1]));
        if a[start + 1] == a[start] {
            lemma_run_stop_map(a, b, f, start + 1, end);
        }
    }
}

/// The segments of a range cover it in order without gaps, each holds one value, and neighbors
/// hold different ones.
pub proof fn segments_partition<V>(values: Seq<V>, start: int, end: int)
    requires
        0 <= start <= end <= u64::MAX,
    ensures
        ({
            let list = segments(values, start, end);
            &&& start < end <==> list.len() > 0
            &&& list.len() > 0 ==> list[0].1.start == start && list.last().1.end == end
            &&& forall|i: int|
                0 <= i < list.len() ==> start <= (#[trigger] list[i]).1.start < list[i].1.end
                    <= end
            &&& forall|i: int, offset: int|
                0 <= i < list.len() && list[i].1.start <= offset < list[i].1.end
                    ==> #[trigger] values[offset] == (#[trigger] list[i]).0
            &&& forall|i: int, j: int|
                0 <= i && j == i + 1 && j < list.len() ==> (#[trigger] list[i]).1.end == (
                #[trigger] list[j]).1.start && list[i].0 != list[j].0
        }),
    decreases end - start,
{
    if start < end {
        lemma_run_stop(values, start, end);
        let stop = run_stop(values, start, end);
        segments_partition(values, stop, end);
        let list = segments(values, start, end);
        let rest = segments(values, stop, end);
        assert forall|i: int| 0 < i < list.len() implies #[trigger] list[i] == rest[i - 1] by {}
        assert forall|i: int, offset: int|
            0 <= i < list.len() && list[i].1.start <= offset < list[i].1.end implies
            #[trigger] values[offset] == (#[trigger] list[i]).0 by {
            if i > 0 {
                assert(list[i] == rest[i - 1]);
            }
        }
        assert forall|i: int, j: int| 0 <= i && j == i + 1 && j < list.len() implies (
        #[trigger] list[i]).1.end == (#[trigger] list[j]).1.start && list[i].0 != list[j].0 by {
            assert(list[j] == rest[j - 1]);
            if i > 0 {
                assert(list[i] == rest[i - 1]);
            } else {
                assert(rest[0].1.start == stop);
                assert(values[stop] == rest[0].0);
            }
        }
        if rest.len() > 0 {
            assert(list.last() == rest.last());
        }
    }
}

/// Every place of a range is in a segment that holds the value of the place.
pub proof fn segments_cover_range<V>(values: Seq<V>, start: int, end: int, offset: int)
    requires
        0 <= start <= offset < end <= u64::MAX,
    ensures
        exists|i: int|
            0 <= i < segments(values, start, end).len() && (#[trigger] segments(
                values,
                start,
                end,
            )[i]).1.has(offset) && segments(values, start, end)[i].0 == values[offset],
    decreases end - start,
{
    lemma_run_stop(values, start, end);
    let stop = run_stop(values, start, end);
    let list = segments(values, start, end);
    if offset < stop {
        assert(list[0].1.has(offset) && list[0].0 == values[offset]);
    } else {
        segments_cover_range(values, stop, end, offset);
        let rest = segments(values, stop, end);
        let i = choose|i: int|
            0 <= i < rest.len() && (#[trigger] rest[i]).1.has(offset) && rest[i].0
                == values[offset];
        assert(list[i + 1] == rest[i]);
    }
}

} // verus!
