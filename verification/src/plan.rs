//! Segment planning: partitioning `[0, total_size - 1]` into contiguous
//! inclusive ranges, one per worker, and naming each segment's part
//! file.

use vstd::prelude::*;
use vstd::string::StringExecFns;
use crate::metadata::{SegmentMetadata, segments_partition};
use crate::text::{dec_of, u64_to_string, lemma_dec_of_injective};

verus! {

/// The on-disk name of a segment's part file.
pub open spec fn part_path_of(output: Seq<char>, i: int) -> Seq<char> {
    output + ".part"@ + dec_of(i as nat)
}

/// Builds the part-file name `<output_path>.part<segment_id>`.
pub fn part_path(output_path: &str, segment_id: usize) -> (r: String)
    ensures
        r@ == part_path_of(output_path@, segment_id as int),
{
    let mut s = output_path.to_owned();
    s.append(".part");
    let n = u64_to_string(segment_id as u64);
    s.append(n.as_str());
    s
}

/// Part-file names are unique per task: distinct segment indices name
/// distinct files.
pub proof fn lemma_part_path_injective(output: Seq<char>, i: int, j: int)
    requires
        0 <= i,
        0 <= j,
        part_path_of(output, i) == part_path_of(output, j),
    ensures
        i == j,
{
    let prefix = output + ".part"@;
    let a = part_path_of(output, i);
    let b = part_path_of(output, j);
    assert(a.len() == prefix.len() + dec_of(i as nat).len());
    assert(b.len() == prefix.len() + dec_of(j as nat).len());
    assert(a.skip(prefix.len() as int) =~= dec_of(i as nat));
    assert(b.skip(prefix.len() as int) =~= dec_of(j as nat));
    lemma_dec_of_injective(i as nat, j as nat);
}

/// Facts about `chunk = total / n` that the planner's arithmetic rests
/// on: every slot start fits below `total`, and each non-final slot ends
/// before the next begins.
proof fn lemma_chunk_bounds(total: int, n: int, i: int)
    requires
        1 <= n <= total,
        0 <= i < n,
    ensures
        total / n >= 1,
        n * (total / n) <= total,
        (i + 1) * (total / n) <= total,
        i * (total / n) >= 0,
        i * (total / n) + 1 <= (i + 1) * (total / n),
{
    let chunk = total / n;
    vstd::arithmetic::div_mod::lemma_fundamental_div_mod(total, n);
    vstd::arithmetic::div_mod::lemma_mod_division_less_than_divisor(total, n);
    assert(total == n * chunk + total % n);
    assert(chunk >= 1) by {
        vstd::arithmetic::div_mod::lemma_div_is_ordered(n, total, n);
        vstd::arithmetic::div_mod::lemma_div_by_self(n);
    }
    assert((i + 1) * chunk <= n * chunk) by {
        vstd::arithmetic::mul::lemma_mul_inequality(i + 1, n, chunk);
    }
    assert(i * chunk >= 0) by {
        vstd::arithmetic::mul::lemma_mul_nonnegative(i, chunk);
    }
    assert((i + 1) * chunk == i * chunk + chunk) by {
        vstd::arithmetic::mul::lemma_mul_is_distributive_add_other_way(chunk, i, 1);
    }
}

/// What the planner assigns to slot `i` of `n`: with
/// `chunk = total / n`, slot `i` spans `[i * chunk, (i + 1) * chunk - 1]`
/// and the last slot's end is forced to `total - 1` to absorb the
/// remainder.
pub open spec fn planned_start(total_size: u64, n: int, i: int) -> int {
    i * (total_size as int / n)
}

/// The planned inclusive end of slot `i` of `n`.
pub open spec fn planned_end(total_size: u64, n: int, i: int) -> int {
    if i == n - 1 {
        total_size - 1
    } else {
        (i + 1) * (total_size as int / n) - 1
    }
}

/// Partitions `[0, total_size - 1]` into `num_threads` contiguous
/// inclusive segments: floor division sizes every slot, the last slot
/// absorbs the remainder, and each slot is named its own part file.
pub fn plan_segments(total_size: u64, num_threads: usize, output_path: &str) -> (segs: Vec<
    SegmentMetadata,
>)
    requires
        1 <= num_threads,
        num_threads <= total_size,
    ensures
        segs@.len() == num_threads,
        forall|i: int|
            0 <= i < num_threads ==> {
                &&& (#[trigger] segs@[i]).segment_id == i
                &&& segs@[i].start == planned_start(total_size, num_threads as int, i)
                &&& segs@[i].end == planned_end(total_size, num_threads as int, i)
                &&& segs@[i].downloaded == 0
                &&& segs@[i].part_path@ == part_path_of(output_path@, i)
            },
        segments_partition(segs@, total_size),
        forall|i: int, j: int|
            0 <= i < num_threads && 0 <= j < num_threads && i != j ==> (#[trigger] segs@[i]).part_path@
                != (#[trigger] segs@[j]).part_path@,
{
    let chunk: u64 = total_size / (num_threads as u64);
    let mut segs: Vec<SegmentMetadata> = Vec::new();
    let mut i: usize = 0;
    while i < num_threads
        invariant
            i <= num_threads,
            1 <= num_threads <= total_size,
            chunk == total_size as int / num_threads as int,
            segs@.len() == i,
            forall|k: int|
                0 <= k < i ==> {
                    &&& (#[trigger] segs@[k]).segment_id == k
                    &&& segs@[k].start == planned_start(total_size, num_threads as int, k)
                    &&& segs@[k].end == planned_end(total_size, num_threads as int, k)
                    &&& segs@[k].downloaded == 0
                    &&& segs@[k].part_path@ == part_path_of(output_path@, k)
                },
        decreases num_threads - i,
    {
        proof {
            lemma_chunk_bounds(total_size as int, num_threads as int, i as int);
        }
        let iu: u64 = i as u64;
        let start: u64 = iu * chunk;
        let end: u64 = if i == num_threads - 1 {
            total_size - 1
        } else {
            (iu + 1) * chunk - 1
        };
        let pp = part_path(output_path, i);
        segs.push(
            SegmentMetadata { segment_id: i, start, end, downloaded: 0, part_path: pp },
        );
        i = i + 1;
    }
    proof {
        assert forall|k: int| 0 <= k < num_threads implies (#[trigger] segs@[k]).wf() by {
            lemma_chunk_bounds(total_size as int, num_threads as int, k);
        }
        assert forall|k: int|
            0 <= k < num_threads as int - 1 implies (#[trigger] segs@[k + 1]).start == segs@[k].end
            + 1 by {
            lemma_chunk_bounds(total_size as int, num_threads as int, k);
        }
        assert(segs@[0].start == 0) by {
            lemma_chunk_bounds(total_size as int, num_threads as int, 0);
        }
        assert forall|i0: int, j0: int|
            0 <= i0 < num_threads && 0 <= j0 < num_threads && i0 != j0 implies (
        #[trigger] segs@[i0]).part_path@ != (#[trigger] segs@[j0]).part_path@ by {
            if segs@[i0].part_path@ == segs@[j0].part_path@ {
                lemma_part_path_injective(output_path@, i0, j0);
            }
        }
    }
    segs
}

} // verus!
