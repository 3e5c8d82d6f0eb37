//! Storage for short lists of runs.

use smallvec::SmallVec;
use vstd::prelude::*;

verus! {

/// The pairs that a run list holds, in order.
pub uninterp spec fn run_list(runs: Runs) -> Seq<(u64, u64)>;

/// A list of pairs of a value and a start offset, backed by `smallvec::SmallVec` so that up to
/// four pairs need no allocation.
///
/// [`run_list`] names its contents; the methods below are calls of the vector's methods of the
/// same names, and state what those do to the contents.
#[verifier::external_body]
#[derive(Debug)]
pub struct Runs {
    inner: SmallVec<[(u64, u64); 4]>,
}

impl Runs {
    /// The pairs of the list, in order.
    pub open spec fn view(&self) -> Seq<(u64, u64)> {
        run_list(*self)
    }

    /// `SmallVec::from_elem` with a count of one: a list that holds just `run`.
    #[verifier::external_body]
    pub(crate) fn single(run: (u64, u64)) -> (runs: Self)
        ensures
            run_list(runs) == seq![run],
    {
        Runs { inner: SmallVec::from_elem(run, 1) }
    }

    /// `SmallVec::len`: the number of pairs.
    #[verifier::external_body]
    pub(crate) fn len(&self) -> (len: usize)
        ensures
            len == run_list(*self).len(),
    {
        self.inner.len()
    }

    /// Indexing a `SmallVec`: the pair at `index`, which must be in bounds.
    #[verifier::external_body]
    pub(crate) fn get(&self, index: usize) -> (run: (u64, u64))
        requires
            index < run_list(*self).len(),
        ensures
            run == run_list(*self)[index as int],
    {
        self.inner[index]
    }

    /// Assignment through an index of a `SmallVec`: replaces the pair at `index`, which must be in
    /// bounds, and keeps the others.
    #[verifier::external_body]
    pub(crate) fn set(&mut self, index: usize, run: (u64, u64))
        requires
            index < run_list(*old(self)).len(),
        ensures
            run_list(*final(self)) == run_list(*old(self)).update(index as int, run),
    {
        self.inner[index] = run;
    }

    /// `SmallVec::insert`: puts `run` at `index`, which must not exceed the length, and shifts
    /// what followed up by one.
    #[verifier::external_body]
    pub(crate) fn insert(&mut self, index: usize, run: (u64, u64))
        requires
            index <= run_list(*old(self)).len(),
        ensures
            run_list(*final(self)) == run_list(*old(self)).insert(index as int, run),
    {
        self.inner.insert(index, run);
    }

    /// `SmallVec::truncate`: keeps the first `len` pairs, or all where there are no more.
    #[verifier::external_body]
    pub(crate) fn truncate(&mut self, len: usize)
        ensures
            run_list(*final(self)) == (if len < run_list(*old(self)).len() {
                run_list(*old(self)).take(len as int)
            } else {
                run_list(*old(self))
            }),
    {
        self.inner.truncate(len);
    }

    /// `copy_within` on the slice of a `SmallVec`, from `from` to the end: the pairs from `from` on
    /// are copied to the place that starts at `to`, and the rest keep theirs.
    #[verifier::external_body]
    pub(crate) fn copy_tail(&mut self, from: usize, to: usize)
        requires
            to <= from <= run_list(*old(self)).len(),
        ensures
            run_list(*final(self)).len() == run_list(*old(self)).len(),
            forall|i: int|
                0 <= i < run_list(*old(self)).len() ==> #[trigger] run_list(*final(self))[i] == (
                if to <= i < to + run_list(*old(self)).len() - from {
                    run_list(*old(self))[i - to + from]
                } else {
                    run_list(*old(self))[i]
                }),
    {
        self.inner.copy_within(from.., to);
    }

    /// Removes the pairs from `from` up to `to`.
    pub(crate) fn remove_range(&mut self, from: usize, to: usize)
        requires
            from <= to <= old(self)@.len(),
        ensures
            final(self)@ == old(self)@.take(from as int) + old(self)@.skip(to as int),
    {
        let removed: usize = to - from;
        self.copy_tail(to, from);
        let kept: usize = self.len() - removed;
        self.truncate(kept);
        assert(self@ =~= old(self)@.take(from as int) + old(self)@.skip(to as int));
    }
}

} // verus!
