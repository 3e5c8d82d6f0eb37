//! Native handles. Zero stands for none.

use vstd::prelude::*;

verus! {

/// The first handle of a list that is not zero.
pub open spec fn first_nonzero(handles: Seq<u64>) -> Option<u64>
    decreases handles.len(),
{
    if handles.len() == 0 {
        None
    } else if handles[0] != 0 {
        Some(handles[0])
    } else {
        first_nonzero(handles.skip(1))
    }
}

/// Returns the first handle of a list that is not zero.
pub fn first_handle(handles: &Vec<u64>) -> (handle: Option<u64>)
    ensures
        handle == first_nonzero(handles@),
{
    let mut index: usize = 0;
    assert(handles@.skip(0) =~= handles@);
    while index < handles.len()
        invariant
            index <= handles@.len(),
            first_nonzero(handles@.skip(index as int)) == first_nonzero(handles@),
        decreases handles@.len() - index,
    {
        if handles[index] != 0 {
            return Some(handles[index]);
        }
        assert(handles@.skip(index as int).skip(1) =~= handles@.skip(index + 1));
        index += 1;
    }
    None
}

/// The first handle is in the list, and only zeros stand before it; where there is none, the list
/// holds only zeros.
pub proof fn only_zeros_precede_the_first_handle(handles: Seq<u64>)
    ensures
        match first_nonzero(handles) {
            Some(handle) => handle != 0 && exists|i: int|
                {
                    &&& 0 <= i < handles.len()
                    &&& #[trigger] handles[i] == handle
                    &&& forall|j: int| 0 <= j < i ==> handles[j] == 0
                },
            None => forall|j: int| 0 <= j < handles.len() ==> handles[j] == 0,
        },
    decreases handles.len(),
{
    if handles.len() > 0 && handles[0] == 0 {
        let rest = handles.skip(1);
        only_zeros_precede_the_first_handle(rest);
        assert(forall|j: int| 0 < j < handles.len() ==> handles[j] == rest[j - 1]);
        if let Some(handle) = first_nonzero(rest) {
            let i = choose|i: int|
                {
                    &&& 0 <= i < rest.len()
                    &&& #[trigger] rest[i] == handle
                    &&& forall|j: int| 0 <= j < i ==> rest[j] == 0
                };
            assert(handles[i + 1] == handle);
        }
    } else if handles.len() > 0 {
        assert(handles[0] == first_nonzero(handles)->0);
    }
}

} // verus!
