//! Lists of the accesses that last touched an object as a whole.

use crate::access::{
    access_codes_are_distinct, access_type_from_u8, access_type_into_u8, is_write_access, write_bits,
    writes_perform_write_accesses, AccessType, ACCESS_TYPE_COUNT,
};
use smallvec::SmallVec;
use vstd::prelude::*;

verus! {

/// The codes that a list holds, in order.
pub uninterp spec fn code_list(codes: AccessCodes) -> Seq<u8>;

/// A list of codes of accesses, backed by `smallvec::SmallVec` so that up to four codes need no
/// allocation.
///
/// [`code_list`] names its contents; the methods below are calls of the vector's methods, and
/// state what those do to the contents.
#[verifier::external_body]
#[derive(Debug)]
pub struct AccessCodes {
    inner: SmallVec<[u8; 4]>,
}

impl AccessCodes {
    /// `SmallVec::from_elem` with a count of one: a list that holds just `code`.
    #[verifier::external_body]
    fn single(code: u8) -> (codes: Self)
        ensures
            code_list(codes) == seq![code],
    {
        AccessCodes { inner: SmallVec::from_elem(code, 1) }
    }

    /// `SmallVec::len`: the number of codes.
    #[verifier::external_body]
    fn code_count(&self) -> (len: usize)
        ensures
            len == code_list(*self).len(),
    {
        self.inner.len()
    }

    /// Indexing a `SmallVec`: the code at `index`, which must be in bounds.
    #[verifier::external_body]
    fn code_at(&self, index: usize) -> (code: u8)
        requires
            index < code_list(*self).len(),
        ensures
            code == code_list(*self)[index as int],
    {
        self.inner[index]
    }

    /// `SmallVec::push`: appends a code.
    #[verifier::external_body]
    fn push_code(&mut self, code: u8)
        ensures
            code_list(*final(self)) == code_list(*old(self)).push(code),
    {
        self.inner.push(code);
    }

    /// `SmallVec::drain` of the first `len` codes, which must be there: removes them, and keeps
    /// the others in order.
    #[verifier::external_body]
    fn drain_codes(&mut self, len: usize)
        requires
            len <= code_list(*old(self)).len(),
        ensures
            code_list(*final(self)) == code_list(*old(self)).skip(len as int),
    {
        self.inner.drain(..len);
    }

    /// A list that holds just `access`.
    pub fn new(access: AccessType) -> (codes: Self)
        ensures
            codes.valid(),
            codes.list() == seq![access],
    {
        proof {
            access_codes_are_distinct(access, access);
        }
        let codes = AccessCodes::single(access_type_into_u8(access));
        assert(codes.list() =~= seq![access]);
        codes
    }
}

/// Storage of a list of accesses.
pub trait AccessStore {
    /// The accesses of the list, in order.
    spec fn list(&self) -> Seq<AccessType>;

    /// Whether the storage holds a list of accesses.
    spec fn valid(&self) -> bool;

    /// The number of accesses.
    fn access_count(&self) -> (len: usize)
        requires
            self.valid(),
        ensures
            len == self.list().len(),
    ;

    /// The access at an index.
    fn access_at(&self, index: usize) -> (access: AccessType)
        requires
            self.valid(),
            index < self.list().len(),
        ensures
            access == self.list()[index as int],
    ;

    /// Appends an access.
    fn push_access(&mut self, access: AccessType)
        requires
            old(self).valid(),
        ensures
            final(self).valid(),
            final(self).list() == old(self).list().push(access),
    ;

    /// Removes the first accesses.
    fn remove_front(&mut self, len: usize)
        requires
            old(self).valid(),
            len <= old(self).list().len(),
        ensures
            final(self).valid(),
            final(self).list() == old(self).list().skip(len as int),
    ;
}

impl AccessStore for AccessCodes {
    open spec fn list(&self) -> Seq<AccessType> {
        code_list(*self).map_values(|code: u8| AccessType::of_code(code as u64))
    }

    open spec fn valid(&self) -> bool {
        forall|i: int|
            0 <= i < code_list(*self).len() ==> (#[trigger] code_list(*self)[i])
                < ACCESS_TYPE_COUNT
    }

    fn access_count(&self) -> (len: usize) {
        self.code_count()
    }

    fn access_at(&self, index: usize) -> (access: AccessType) {
        access_type_from_u8(self.code_at(index))
    }

    fn push_access(&mut self, access: AccessType) {
        proof {
            access_codes_are_distinct(access, access);
        }
        self.push_code(access_type_into_u8(access));
        assert(self.list() =~= old(self).list().push(access));
    }

    fn remove_front(&mut self, len: usize) {
        self.drain_codes(len);
        assert(self.list() =~= old(self).list().skip(len as int));
        assert(forall|i: int|
            0 <= i < code_list(*self).len() ==> (#[trigger] code_list(*self)[i]) == code_list(
                *old(self),
            )[i + len]);
    }
}

impl AccessStore for Vec<AccessType> {
    open spec fn list(&self) -> Seq<AccessType> {
        self@
    }

    open spec fn valid(&self) -> bool {
        true
    }

    fn access_count(&self) -> (len: usize) {
        self.len()
    }

    fn access_at(&self, index: usize) -> (access: AccessType) {
        self[index]
    }

    fn push_access(&mut self, access: AccessType) {
        self.push(access);
    }

    fn remove_front(&mut self, len: usize) {
        let mut rest = self.split_off(len);
        std::mem::swap(self, &mut rest);
        assert(self@ =~= old(self)@.skip(len as int));
    }
}

/// Whether one of some accesses writes.
pub open spec fn any_writes(accesses: Seq<AccessType>) -> bool {
    exists|i: int| 0 <= i < accesses.len() && (#[trigger] accesses[i]).writes()
}

/// Whether all of some accesses are in a list.
pub open spec fn all_listed(list: Seq<AccessType>, accesses: Seq<AccessType>) -> bool {
    forall|i: int| 0 <= i < accesses.len() ==> list.contains(#[trigger] accesses[i])
}

/// A list with accesses appended, but for those that are in it already.
pub open spec fn absorbed(list: Seq<AccessType>, accesses: Seq<AccessType>) -> Seq<AccessType>
    decreases accesses.len(),
{
    if accesses.len() == 0 {
        list
    } else {
        let before = absorbed(list, accesses.drop_last());
        if before.contains(accesses.last()) {
            before
        } else {
            before.push(accesses.last())
        }
    }
}

/// Whether new accesses need no barrier: they all read, and all of them are in the list.
pub open spec fn known_reads(list: Seq<AccessType>, nexts: Seq<AccessType>) -> bool {
    nexts.len() > 0 && !any_writes(nexts) && all_listed(list, nexts)
}

/// The accesses that new ones have to wait for.
pub open spec fn told(list: Seq<AccessType>, nexts: Seq<AccessType>) -> Seq<AccessType> {
    if known_reads(list, nexts) {
        seq![]
    } else {
        list
    }
}

/// The list after new accesses: reads join it, a write takes its place, and without any access
/// nothing is left to wait for.
pub open spec fn recorded(list: Seq<AccessType>, nexts: Seq<AccessType>) -> Seq<AccessType> {
    if nexts.len() == 0 {
        seq![AccessType::Nothing]
    } else if any_writes(nexts) {
        absorbed(seq![], nexts)
    } else {
        absorbed(list, nexts)
    }
}

/// Visits the accesses that new ones have to wait for. They stay at the front of the list until
/// the visit is over.
#[derive(Debug)]
pub struct AccessIter {
    idx: usize,
    previous_len: usize,
}

impl AccessIter {
    /// How many accesses were visited.
    pub closed spec fn visited(self) -> int {
        self.idx as int
    }

    /// How many accesses are visited in all.
    pub closed spec fn total(self) -> int {
        self.previous_len as int
    }

    /// The accesses to be visited are at the front of the list.
    pub open spec fn fits(self, list: Seq<AccessType>) -> bool {
        0 <= self.visited() <= self.total() <= list.len()
    }

    /// Appends accesses, but for those that are in the list from `start` on already.
    fn absorb<S: AccessStore>(accesses: &mut S, start: usize, next_accesses: &Vec<AccessType>)
        requires
            old(accesses).valid(),
            start <= old(accesses).list().len(),
        ensures
            final(accesses).valid(),
            final(accesses).list() == old(accesses).list().take(start as int) + absorbed(
                old(accesses).list().skip(start as int),
                next_accesses@,
            ),
    {
        let ghost front = accesses.list().take(start as int);
        let ghost back = accesses.list().skip(start as int);
        let mut index: usize = 0;
        assert(next_accesses@.take(0) =~= seq![]);
        assert(accesses.list() =~= front + back);
        while index < next_accesses.len()
            invariant
                index <= next_accesses@.len(),
                accesses.valid(),
                front.len() == start,
                accesses.list() == front + absorbed(back, next_accesses@.take(index as int)),
            decreases next_accesses@.len() - index,
        {
            let next_access = next_accesses[index];
            let ghost sofar = absorbed(back, next_accesses@.take(index as int));
            proof {
                assert(next_accesses@.take(index + 1).drop_last() =~= next_accesses@.take(
                    index as int,
                ));
                assert(next_accesses@.take(index + 1).last() == next_access);
                assert(accesses.list().skip(start as int) =~= sofar);
            }
            if !Self::holds(accesses, start, next_access) {
                accesses.push_access(next_access);
                assert(accesses.list() =~= front + sofar.push(next_access));
            }
            index += 1;
        }
        assert(next_accesses@.take(index as int) =~= next_accesses@);
    }

    /// Whether an access is in the list from `start` on.
    fn holds<S: AccessStore>(accesses: &S, start: usize, access: AccessType) -> (holds: bool)
        requires
            accesses.valid(),
            start <= accesses.list().len(),
        ensures
            holds == accesses.list().skip(start as int).contains(access),
    {
        let ghost back = accesses.list().skip(start as int);
        let mut index: usize = start;
        while index < accesses.access_count()
            invariant
                accesses.valid(),
                start <= index <= accesses.list().len(),
                back == accesses.list().skip(start as int),
                forall|i: int| 0 <= i < index - start ==> back[i] != access,
            decreases accesses.list().len() - index,
        {
            let _len: usize = accesses.access_count();
            if accesses.access_at(index) == access {
                assert(back[index - start] == access);
                return true;
            }
            assert(back[index - start] != access);
            index += 1;
        }
        false
    }

    /// Whether one of some accesses writes.
    fn any_write(next_accesses: &Vec<AccessType>) -> (any: bool)
        ensures
            any == any_writes(next_accesses@),
    {
        let mut index: usize = 0;
        while index < next_accesses.len()
            invariant
                index <= next_accesses@.len(),
                forall|i: int| 0 <= i < index ==> !(#[trigger] next_accesses@[i]).writes(),
            decreases next_accesses@.len() - index,
        {
            if is_write_access(next_accesses[index]) {
                assert(next_accesses@[index as int].writes());
                return true;
            }
            index += 1;
        }
        false
    }

    /// Whether all of some accesses are in the list.
    fn holds_all<S: AccessStore>(accesses: &S, next_accesses: &Vec<AccessType>) -> (all: bool)
        requires
            accesses.valid(),
        ensures
            all == all_listed(accesses.list(), next_accesses@),
    {
        let mut index: usize = 0;
        assert(accesses.list().skip(0) =~= accesses.list());
        while index < next_accesses.len()
            invariant
                accesses.valid(),
                accesses.list().skip(0) == accesses.list(),
                index <= next_accesses@.len(),
                forall|i: int|
                    0 <= i < index ==> accesses.list().contains(#[trigger] next_accesses@[i]),
            decreases next_accesses@.len() - index,
        {
            if !Self::holds(accesses, 0, next_accesses[index]) {
                assert(!accesses.list().contains(next_accesses@[index as int]));
                return false;
            }
            index += 1;
        }
        true
    }

    /// Records new accesses, and starts a visit of those that they have to wait for.
    pub fn many<S: AccessStore>(accesses: &mut S, next_accesses: &Vec<AccessType>) -> (iter: Self)
        requires
            old(accesses).valid(),
        ensures
            final(accesses).valid(),
            iter.fits(final(accesses).list()),
            iter.visited() == 0,
            final(accesses).list().take(iter.total()) == told(old(accesses).list(), next_accesses@),
            final(accesses).list().skip(iter.total()) == recorded(
                old(accesses).list(),
                next_accesses@,
            ),
    {
        let ghost list = accesses.list();
        let previous_len: usize = accesses.access_count();
        if next_accesses.len() == 0 {
            return Self::one(accesses, AccessType::Nothing);
        }
        assert(list.skip(previous_len as int) =~= seq![]);
        assert(list.take(previous_len as int) =~= list);
        if Self::any_write(next_accesses) {
            Self::absorb(accesses, previous_len, next_accesses);
            let iter = AccessIter { idx: 0, previous_len };
            assert(accesses.list().take(iter.total()) =~= list);
            assert(accesses.list().skip(iter.total()) =~= recorded(list, next_accesses@));
            return iter;
        }
        if Self::holds_all(accesses, next_accesses) {
            let iter = AccessIter { idx: 0, previous_len: 0 };
            proof {
                lemma_absorb_known(list, next_accesses@);
                assert(accesses.list().take(0) =~= seq![]);
                assert(accesses.list().skip(0) =~= list);
            }
            return iter;
        }
        let mut idx: usize = 0;
        while idx < previous_len
            invariant
                accesses.valid(),
                idx <= previous_len == list.len(),
                accesses.list() == list + list.take(idx as int),
            decreases previous_len - idx,
        {
            let access = accesses.access_at(idx);
            accesses.push_access(access);
            proof {
                assert(list.take(idx + 1) =~= list.take(idx as int).push(list[idx as int]));
                assert(accesses.list() =~= list + list.take(idx + 1));
            }
            idx += 1;
        }
        proof {
            assert(list.take(previous_len as int) =~= list);
            assert(accesses.list().take(previous_len as int) =~= list);
            assert(accesses.list().skip(previous_len as int) =~= list);
        }
        Self::absorb(accesses, previous_len, next_accesses);
        let iter = AccessIter { idx: 0, previous_len };
        assert(accesses.list().take(iter.total()) =~= list);
        assert(accesses.list().skip(iter.total()) =~= recorded(list, next_accesses@));
        iter
    }

    /// Records one new access in place of the others, and starts a visit of those.
    pub fn one<S: AccessStore>(accesses: &mut S, next_access: AccessType) -> (iter: Self)
        requires
            old(accesses).valid(),
        ensures
            final(accesses).valid(),
            iter.fits(final(accesses).list()),
            iter.visited() == 0,
            final(accesses).list().take(iter.total()) == old(accesses).list(),
            final(accesses).list().skip(iter.total()) == seq![next_access],
    {
        let previous_len: usize = accesses.access_count();
        accesses.push_access(next_access);
        assert(accesses.list().take(previous_len as int) =~= old(accesses).list());
        assert(accesses.list().skip(previous_len as int) =~= seq![next_access]);
        AccessIter { idx: 0, previous_len }
    }

    /// How many accesses are still to be visited.
    pub fn len(&self) -> (len: usize)
        requires
            self.visited() <= self.total(),
        ensures
            len == self.total() - self.visited(),
    {
        self.previous_len - self.idx
    }

    /// Visits the next access.
    pub fn next<S: AccessStore>(&mut self, accesses: &S) -> (access: Option<AccessType>)
        requires
            accesses.valid(),
            old(self).fits(accesses.list()),
        ensures
            final(self).fits(accesses.list()),
            final(self).total() == old(self).total(),
            access == (if old(self).visited() == old(self).total() {
                None
            } else {
                Some(accesses.list()[old(self).visited()])
            }),
            final(self).visited() == (if access is Some {
                old(self).visited() + 1
            } else {
                old(self).visited()
            }),
    {
        if self.idx == self.previous_len {
            return None;
        }
        let access = accesses.access_at(self.idx);
        self.idx += 1;
        Some(access)
    }

    /// Ends the visit, at any time: what was to be visited leaves the list.
    pub fn close<S: AccessStore>(self, accesses: &mut S)
        requires
            old(accesses).valid(),
            self.fits(old(accesses).list()),
        ensures
            final(accesses).valid(),
            final(accesses).list() == old(accesses).list().skip(self.total()),
    {
        accesses.remove_front(self.previous_len);
    }

    /// Visits all accesses that are still to be visited, and ends the visit.
    pub fn drain<S: AccessStore>(self, accesses: &mut S) -> (previous: Vec<AccessType>)
        requires
            old(accesses).valid(),
            self.fits(old(accesses).list()),
        ensures
            final(accesses).valid(),
            final(accesses).list() == old(accesses).list().skip(self.total()),
            previous@ == old(accesses).list().subrange(self.visited(), self.total()),
    {
        let mut iter = self;
        let mut previous: Vec<AccessType> = Vec::new();
        let ghost list = accesses.list();
        let mut count: usize = iter.len();
        while count > 0
            invariant
                accesses.valid(),
                accesses.list() == list,
                iter.fits(list),
                iter.total() == self.total(),
                self.visited() <= iter.visited(),
                count == iter.total() - iter.visited(),
                previous@ == list.subrange(self.visited(), iter.visited()),
            decreases count,
        {
            if let Some(access) = iter.next(accesses) {
                previous.push(access);
                assert(previous@ =~= list.subrange(self.visited(), iter.visited()));
            }
            count -= 1;
        }
        iter.close(accesses);
        previous
    }
}

/// Records one new access, and returns those that it has to wait for.
pub fn swap_access<S: AccessStore>(accesses: &mut S, next_access: AccessType) -> (previous: Vec<
    AccessType,
>)
    requires
        old(accesses).valid(),
    ensures
        final(accesses).valid(),
        final(accesses).list() == seq![next_access],
        previous@ == old(accesses).list(),
{
    let iter = AccessIter::one(accesses, next_access);
    let ghost list = accesses.list();
    let previous = iter.drain(accesses);
    assert(previous@ =~= list.take(iter.total()));
    previous
}

/// Records new accesses, and returns those that they have to wait for.
pub fn swap_accesses<S: AccessStore>(accesses: &mut S, next_accesses: &Vec<AccessType>) -> (previous:
    Vec<AccessType>)
    requires
        old(accesses).valid(),
    ensures
        final(accesses).valid(),
        final(accesses).list() == recorded(old(accesses).list(), next_accesses@),
        previous@ == told(old(accesses).list(), next_accesses@),
{
    let iter = AccessIter::many(accesses, next_accesses);
    let ghost list = accesses.list();
    let previous = iter.drain(accesses);
    assert(previous@ =~= list.take(iter.total()));
    previous
}

/// Appending what is in a list already changes nothing.
proof fn lemma_absorb_known(list: Seq<AccessType>, accesses: Seq<AccessType>)
    requires
        all_listed(list, accesses),
    ensures
        absorbed(list, accesses) == list,
    decreases accesses.len(),
{
    if accesses.len() > 0 {
        assert(list.contains(accesses[accesses.len() - 1]));
        assert forall|i: int| 0 <= i < accesses.drop_last().len() implies list.contains(
            #[trigger] accesses.drop_last()[i],
        ) by {
            assert(list.contains(accesses[i]));
        }
        lemma_absorb_known(list, accesses.drop_last());
    }
}

/// What a list holds after accesses were appended.
proof fn lemma_absorbed(list: Seq<AccessType>, accesses: Seq<AccessType>)
    ensures
        list.is_prefix_of(absorbed(list, accesses)),
        forall|access: AccessType| #[trigger]
            absorbed(list, accesses).contains(access) <==> list.contains(access)
                || accesses.contains(access),
    decreases accesses.len(),
{
    if accesses.len() > 0 {
        let some = accesses.drop_last();
        let last = accesses.last();
        let before = absorbed(list, some);
        let after = absorbed(list, accesses);
        lemma_absorbed(list, some);
        assert forall|access: AccessType| #[trigger] after.contains(access) <==> list.contains(
            access,
        ) || accesses.contains(access) by {
            if accesses.contains(access) {
                let i = choose|i: int| 0 <= i < accesses.len() && accesses[i] == access;
                if i < some.len() {
                    assert(some[i] == access);
                    assert(some.contains(access));
                }
            }
            if some.contains(access) {
                let i = choose|i: int| 0 <= i < some.len() && some[i] == access;
                assert(accesses[i] == access);
            }
            if before.contains(access) {
                let i = choose|i: int| 0 <= i < before.len() && before[i] == access;
                assert(after[i] == access);
            }
            if after.contains(access) {
                let i = choose|i: int| 0 <= i < after.len() && after[i] == access;
                if i < before.len() {
                    assert(before[i] == access);
                    assert(before.contains(access));
                } else {
                    assert(accesses[accesses.len() - 1] == access);
                }
            }
            if access == last {
                assert(accesses[accesses.len() - 1] == access);
                if !before.contains(last) {
                    assert(after[before.len() as int] == last);
                }
            }
        }
    }
}

/// Reads forget nothing: whatever a list held, such as a write, is still in it after reads, so that
/// the next write waits for it.
pub proof fn reads_forget_nothing(
    list: Seq<AccessType>,
    reads: Seq<AccessType>,
    nexts: Seq<AccessType>,
)
    requires
        reads.len() > 0,
        !any_writes(reads),
        any_writes(nexts),
    ensures
        list.is_prefix_of(recorded(list, reads)),
        told(recorded(list, reads), nexts) == recorded(list, reads),
        forall|access: AccessType|
            list.contains(access) || reads.contains(access) ==> #[trigger] told(
                recorded(list, reads),
                nexts,
            ).contains(access),
{
    lemma_absorbed(list, reads);
}

/// Reads that were just recorded wait for nothing when they come again.
pub proof fn repeated_reads_wait_for_nothing(list: Seq<AccessType>, reads: Seq<AccessType>)
    requires
        reads.len() > 0,
        !any_writes(reads),
    ensures
        told(recorded(list, reads), reads) == Seq::<AccessType>::empty(),
        recorded(recorded(list, reads), reads) == recorded(list, reads),
{
    lemma_absorbed(list, reads);
    let after = recorded(list, reads);
    assert forall|i: int| 0 <= i < reads.len() implies after.contains(#[trigger] reads[i]) by {
        assert(reads.contains(reads[i]));
    }
    lemma_absorb_known(after, reads);
}

/// A write takes the place of all that was recorded: just the new accesses are left to wait for.
pub proof fn write_takes_the_place(list: Seq<AccessType>, nexts: Seq<AccessType>)
    requires
        any_writes(nexts),
    ensures
        told(list, nexts) == list,
        forall|access: AccessType| #[trigger]
            recorded(list, nexts).contains(access) <==> nexts.contains(access),
{
    lemma_absorbed(seq![], nexts);
}

/// Without any new access, all that was recorded is told once, and the list then stands for no
/// access: of no stage, and of no memory.
pub proof fn no_access_ends_the_list(list: Seq<AccessType>)
    ensures
        told(list, seq![]) == list,
        recorded(list, seq![]).len() == 1,
        recorded(list, seq![])[0].stages() == 0,
        recorded(list, seq![])[0].accesses() == 0,
{
}

/// What has to be waited for is all that was recorded, or nothing. It is nothing just where the
/// list would stay as it is, and none of the new accesses has a bit of a write.
pub proof fn waits_are_for_all_or_nothing(list: Seq<AccessType>, nexts: Seq<AccessType>)
    requires
        list.len() > 0,
    ensures
        told(list, nexts) == list || told(list, nexts) == Seq::<AccessType>::empty(),
        told(list, nexts) != list <==> {
            &&& nexts.len() > 0
            &&& recorded(list, nexts) == list
            &&& forall|i: int|
                0 <= i < nexts.len() ==> (#[trigger] nexts[i]).accesses() & write_bits() == 0
        },
{
    lemma_absorbed(list, nexts);
    assert forall|i: int| 0 <= i < nexts.len() implies (#[trigger] nexts[i]).writes() == (
    nexts[i].accesses() & write_bits() != 0) by {
        writes_perform_write_accesses(nexts[i]);
    }
    if known_reads(list, nexts) {
        lemma_absorb_known(list, nexts);
    }
    if nexts.len() > 0 && recorded(list, nexts) == list && !any_writes(nexts) {
        assert forall|i: int| 0 <= i < nexts.len() implies list.contains(#[trigger] nexts[i]) by {
            assert(nexts.contains(nexts[i]));
            assert(absorbed(list, nexts).contains(nexts[i]));
        }
    }
}

/// No access is listed twice.
pub proof fn accesses_are_listed_once(list: Seq<AccessType>, nexts: Seq<AccessType>)
    requires
        list.no_duplicates(),
    ensures
        recorded(list, nexts).no_duplicates(),
{
    lemma_absorbed_once(list, nexts);
    lemma_absorbed_once(seq![], nexts);
}

/// Appending what is not in a list yet repeats nothing.
proof fn lemma_absorbed_once(list: Seq<AccessType>, accesses: Seq<AccessType>)
    requires
        list.no_duplicates(),
    ensures
        absorbed(list, accesses).no_duplicates(),
    decreases accesses.len(),
{
    if accesses.len() > 0 {
        lemma_absorbed_once(list, accesses.drop_last());
    }
}

} // verus!
