use vstd::prelude::*;

use crate::error::StacheError;

verus! {

/// The counter of an index allocator stays between 1 and 254: 0 and 255 are
/// reserved sentinel values that are never handed out, and 254 is the point
/// at which the counter wraps.
pub open spec fn index_counter_in_range(next: u8) -> bool {
    1 <= next <= 254
}

/// The identifier one allocation hands out for a given counter: the counter
/// itself, except that a counter that has reached 254 hands out 1 again.
pub open spec fn issued_index(next: u8) -> u8 {
    if next == 254 {
        1
    } else {
        next
    }
}

/// The counter after one allocation: one more than before, resetting to 2
/// when incrementing would reach the sentinel 255.
pub open spec fn advanced_counter(next: u8) -> u8 {
    if next == 254 {
        2
    } else {
        (next + 1) as u8
    }
}

/// No identifier occurs twice in the list.
pub open spec fn distinct_indices(s: Seq<u8>) -> bool {
    forall|i: int, j: int| 0 <= i < j < s.len() ==> s[i] != s[j]
}

/// What an order-disturbing removal at position `i` leaves: the removed slot
/// takes the last element and the list shrinks by one.
pub open spec fn swap_removed<T>(s: Seq<T>, i: int) -> Seq<T> {
    s.update(i, s.last()).drop_last()
}

/// Position of the first occurrence of `index` in the list, if any.
pub fn find_index(list: &Vec<u8>, index: u8) -> (r: Option<usize>)
    ensures
        match r {
            Some(i) => {
                &&& i < list@.len()
                &&& list@[i as int] == index
                &&& forall|j: int| 0 <= j < i ==> list@[j] != index
            },
            None => !list@.contains(index),
        },
{
    let mut i: usize = 0;
    while i < list.len()
        invariant
            i <= list@.len(),
            forall|j: int| 0 <= j < i ==> list@[j] != index,
        decreases list@.len() - i,
    {
        if list[i] == index {
            return Some(i);
        }
        i += 1;
    }
    None
}

/// Hands out the next identifier: fails with `HitLimit` when the list is
/// full, otherwise returns the issued identifier, appends it to the list and
/// advances the counter past it.
pub fn allocate(list: &mut Vec<u8>, max: usize, next_index: &mut u8) -> (r: Result<
    u8,
    StacheError,
>)
    requires
        index_counter_in_range(*old(next_index)),
    ensures
        old(list)@.len() >= max ==> {
            &&& r == Err::<u8, StacheError>(StacheError::HitLimit)
            &&& final(list)@ == old(list)@
            &&& *final(next_index) == *old(next_index)
        },
        old(list)@.len() < max ==> {
            &&& r == Ok::<u8, StacheError>(issued_index(*old(next_index)))
            &&& final(list)@ == old(list)@.push(issued_index(*old(next_index)))
            &&& *final(next_index) == advanced_counter(*old(next_index))
        },
        index_counter_in_range(*final(next_index)),
{
    if list.len() >= max {
        return Err(StacheError::HitLimit);
    }
    let mut index: u8 = *next_index;
    if *next_index + 1 == 255 {
        *next_index = 2;
        index = 1;
    } else {
        *next_index = *next_index + 1;
    }
    list.push(index);
    Ok(index)
}

/// Removes `index` from the list by swapping it with the last element; a
/// no-op when the index is absent.  Returns whether anything was removed.
pub fn release(list: &mut Vec<u8>, index: u8) -> (found: bool)
    ensures
        !found ==> {
            &&& !old(list)@.contains(index)
            &&& final(list)@ == old(list)@
        },
        found ==> exists|i: int|
            {
                &&& 0 <= i < old(list)@.len()
                &&& old(list)@[i] == index
                &&& (forall|j: int| 0 <= j < i ==> old(list)@[j] != index)
                &&& final(list)@ == swap_removed(old(list)@, i)
            },
{
    match find_index(list, index) {
        Some(i) => {
            let ghost pos = i as int;
            list.swap_remove(i);
            proof {
                assert(final(list)@ == swap_removed(old(list)@, pos));
            }
            true
        },
        None => false,
    }
}

/// Law: within capacity, allocation keeps an identifier list free of
/// duplicates, provided the identifier being issued is not still live in the
/// list.  After enough allocations the wrapping 8-bit counter reissues an
/// identifier (for example, a list still holding 1 while the counter has
/// come around to 254 again), which is why the proviso is needed.
pub proof fn lemma_allocate_keeps_distinct(list: Seq<u8>, next: u8)
    requires
        distinct_indices(list),
        !list.contains(issued_index(next)),
    ensures
        distinct_indices(list.push(issued_index(next))),
{
    let pushed = list.push(issued_index(next));
    assert forall|i: int, j: int| 0 <= i < j < pushed.len() implies pushed[i] != pushed[j] by {
        if j == list.len() {
            assert(pushed[i] == list[i]);
            assert(list.contains(list[i]));
        }
    }
}

/// Law: releasing an identifier by swap-removal keeps the list free of
/// duplicates and shortens it by one, so a list within its bound stays
/// within it.
pub proof fn lemma_release_keeps_distinct(list: Seq<u8>, i: int)
    requires
        distinct_indices(list),
        0 <= i < list.len(),
    ensures
        distinct_indices(swap_removed(list, i)),
        swap_removed(list, i).len() == list.len() - 1,
{
    let shrunk = swap_removed(list, i);
    assert forall|p: int, q: int| 0 <= p < q < shrunk.len() implies shrunk[p] != shrunk[q] by {
        assert(shrunk[p] == if p == i {
            list[list.len() - 1]
        } else {
            list[p]
        });
        assert(shrunk[q] == if q == i {
            list[list.len() - 1]
        } else {
            list[q]
        });
    }
}

/// Law: the issued identifiers skip the sentinels 0 and 255; a counter that
/// has reached 254 hands out 1 and continues from 2, so the identifier
/// domain is 1 to 253 for every allocator, vault and action counters alike.
pub proof fn lemma_index_wraparound()
    ensures
        issued_index(254) == 1,
        advanced_counter(254) == 2,
        forall|next: u8|
            index_counter_in_range(next) ==> 1 <= #[trigger] issued_index(next) <= 253,
        forall|next: u8|
            index_counter_in_range(next) ==> index_counter_in_range(
                #[trigger] advanced_counter(next),
            ),
{
}

} // verus!
