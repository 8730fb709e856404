//! The stack map: the frames of a request, sorted into one bucket of
//! addresses per module index.

use std::collections::HashMap;
use vstd::prelude::*;

verus! {

broadcast use vstd::std_specs::hash::group_hash_axioms;

/// The frame list that is symbolicated: the first of the request's lists,
/// or no frame at all where the request has no list.
pub open spec fn first_frames(stacks: Seq<Vec<(i8, u64)>>) -> Seq<(i8, u64)> {
    if stacks.len() == 0 {
        Seq::empty()
    } else {
        stacks[0]@
    }
}

/// The test that picks the frames of module index `index`.
pub open spec fn in_bucket(index: i8) -> spec_fn((i8, u64)) -> bool {
    |frame: (i8, u64)| frame.0 == index
}

/// The addresses of the frames with module index `index`, in the order in
/// which they stand in `frames`. Nothing is dropped or merged.
pub open spec fn bucket(frames: Seq<(i8, u64)>, index: i8) -> Seq<u64> {
    frames.filter(in_bucket(index)).map_values(|frame: (i8, u64)| frame.1)
}

/// The stack map of a frame list: a bucket for each module index that
/// occurs in it, and for no other.
pub open spec fn stack_map_of(frames: Seq<(i8, u64)>) -> Map<i8, Seq<u64>> {
    Map::new(|index: i8| bucket(frames, index).len() > 0, |index: i8| bucket(frames, index))
}

/// A stack map as a map from module index to the addresses of its bucket.
pub open spec fn buckets(stack_map: Map<i8, Vec<u64>>) -> Map<i8, Seq<u64>> {
    stack_map.map_values(|addresses: Vec<u64>| addresses@)
}

/// The bucket of the module index `index`; empty where the stack map has
/// none, as it must be for an index that no `i8` can hold.
pub open spec fn bucket_at(buckets: Map<i8, Seq<u64>>, index: int) -> Seq<u64> {
    if -128 <= index <= 127 && buckets.contains_key(index as i8) {
        buckets[index as i8]
    } else {
        Seq::empty()
    }
}

/// The number of addresses that the stack map of `frames` holds in the
/// buckets of the indices from `low` up to, but without, `high`.
pub open spec fn bucket_total(frames: Seq<(i8, u64)>, low: int, high: int) -> nat
    decreases high - low,
{
    if high <= low {
        0
    } else {
        bucket_total(frames, low, high - 1) + bucket_at(stack_map_of(frames), high - 1).len()
    }
}

/// One more frame at the end of the list adds its address at the end of its
/// own bucket and leaves the other buckets as they were.
pub proof fn lemma_bucket_push(frames: Seq<(i8, u64)>, frame: (i8, u64), index: i8)
    ensures
        bucket(frames.push(frame), index) == if frame.0 == index {
            bucket(frames, index).push(frame.1)
        } else {
            bucket(frames, index)
        },
{
    frames.lemma_filter_push(frame, in_bucket(index));
}

/// The list without frames has only empty buckets.
pub proof fn lemma_bucket_empty(index: i8)
    ensures
        bucket(Seq::empty(), index) == Seq::<u64>::empty(),
{
    reveal(Seq::filter);
}

/// The bucket that the stack map of `frames` holds for an index is the list
/// of the frames' addresses with that index.
pub proof fn lemma_bucket_at(frames: Seq<(i8, u64)>, index: int)
    ensures
        bucket_at(stack_map_of(frames), index) == if -128 <= index <= 127 {
            bucket(frames, index as i8)
        } else {
            Seq::empty()
        },
{
}

/// One more frame adds one to the total of a range of buckets if its index
/// lies in the range, and nothing otherwise.
proof fn lemma_bucket_total_push(frames: Seq<(i8, u64)>, frame: (i8, u64), low: int, high: int)
    ensures
        bucket_total(frames.push(frame), low, high) == bucket_total(frames, low, high) + if low
            <= frame.0 < high {
            1nat
        } else {
            0nat
        },
    decreases high - low,
{
    if low < high {
        let index = high - 1;
        lemma_bucket_total_push(frames, frame, low, index);
        lemma_bucket_at(frames, index);
        lemma_bucket_at(frames.push(frame), index);
        if -128 <= index <= 127 {
            lemma_bucket_push(frames, frame, index as i8);
        }
    }
}

/// Without frames every range of buckets is empty.
proof fn lemma_bucket_total_empty(low: int, high: int)
    ensures
        bucket_total(Seq::empty(), low, high) == 0,
    decreases high - low,
{
    if low < high {
        let index = high - 1;
        lemma_bucket_total_empty(low, index);
        lemma_bucket_at(Seq::empty(), index);
        if -128 <= index <= 127 {
            lemma_bucket_empty(index as i8);
        }
    }
}

/// Where the module index of every frame lies in a range, the buckets of
/// that range hold as many addresses as there are frames: each address
/// stands in exactly one bucket.
pub proof fn lemma_bucket_total(frames: Seq<(i8, u64)>, low: int, high: int)
    requires
        forall|i: int| 0 <= i < frames.len() ==> low <= (#[trigger] frames[i]).0 < high,
    ensures
        bucket_total(frames, low, high) == frames.len(),
    decreases frames.len(),
{
    if frames.len() == 0 {
        assert(frames =~= Seq::empty());
        lemma_bucket_total_empty(low, high);
    } else {
        let shorter = frames.drop_last();
        let frame = frames.last();
        assert(frames =~= shorter.push(frame));
        assert forall|i: int| 0 <= i < shorter.len() implies low <= (#[trigger] shorter[i]).0
            < high by {
        }
        lemma_bucket_total(shorter, low, high);
        lemma_bucket_total_push(shorter, frame, low, high);
    }
}

/// The total of a range of buckets is the total of its lower part and of
/// its upper part.
pub proof fn lemma_bucket_total_split(frames: Seq<(i8, u64)>, low: int, middle: int, high: int)
    requires
        low <= middle <= high,
    ensures
        bucket_total(frames, low, high) == bucket_total(frames, low, middle) + bucket_total(
            frames,
            middle,
            high,
        ),
    decreases high - middle,
{
    if middle < high {
        lemma_bucket_total_split(frames, low, middle, high - 1);
    }
}

/// The stack map loses no address and adds none: its buckets, taken
/// together, hold as many addresses as the frame list has frames.
pub proof fn lemma_stack_map_keeps_every_address(frames: Seq<(i8, u64)>)
    ensures
        bucket_total(frames, -128, 128) == frames.len(),
{
    lemma_bucket_total(frames, -128, 128);
}

/// Builds the stack map of a decoded request: each address of the first
/// frame list is appended to the bucket of its module index, and a bucket
/// exists only once a frame has named its index.
pub fn stacks_to_stack_map(decoded_stacks: Vec<Vec<(i8, u64)>>) -> (stack_map: HashMap<
    i8,
    Vec<u64>,
>)
    ensures
        buckets(stack_map@) == stack_map_of(first_frames(decoded_stacks@)),
{
    let mut stack_map: HashMap<i8, Vec<u64>> = HashMap::new();
    let ghost frames = first_frames(decoded_stacks@);
    proof {
        assert forall|index: i8| bucket(Seq::empty(), index).len() == 0 by {
            lemma_bucket_empty(index);
        }
    }
    if decoded_stacks.len() == 0 {
        return stack_map;
    }
    let stack = &decoded_stacks[0];
    let mut i: usize = 0;
    while i < stack.len()
        invariant
            i <= stack.len(),
            stack@ == frames,
            buckets(stack_map@) == stack_map_of(frames.take(i as int)),
        decreases stack.len() - i,
    {
        let (index, offset) = stack[i];
        let ghost before = stack_map@;
        let mut offsets = match stack_map.remove(&index) {
            Some(found) => found,
            None => Vec::new(),
        };
        proof {
            let known = buckets(before);
            assert(known.contains_key(index) <==> before.contains_key(index));
            if before.contains_key(index) {
                assert(known[index] == before[index]@);
            }
        }
        offsets.push(offset);
        stack_map.insert(index, offsets);
        proof {
            let shorter = frames.take(i as int);
            let longer = frames.take(i + 1);
            assert(longer =~= shorter.push(frames[i as int]));
            assert forall|k: i8|
                bucket(longer, k) == (if k == index {
                    bucket(shorter, k).push(offset)
                } else {
                    bucket(shorter, k)
                }) by {
                lemma_bucket_push(shorter, frames[i as int], k);
            }
            assert forall|k: i8| #[trigger]
                buckets(stack_map@).contains_key(k) <==> stack_map_of(longer).contains_key(
                    k,
                ) by {
                assert(buckets(before).contains_key(k) <==> before.contains_key(k));
            }
            assert forall|k: i8| #[trigger] buckets(stack_map@).contains_key(k) implies buckets(
                stack_map@,
            )[k] == stack_map_of(longer)[k] by {
                if k != index {
                    assert(buckets(before)[k] == before[k]@);
                }
            }
        }
        i += 1;
    }
    assert(frames.take(stack.len() as int) =~= frames);
    stack_map
}

} // verus!
