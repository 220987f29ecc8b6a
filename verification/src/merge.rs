//! The final merge: concatenating part files in ascending segment order
//! reproduces the resource byte for byte. The byte-level model is
//! verified here; streaming the same bytes between files is done by the
//! process around the library.

use vstd::prelude::*;
use crate::metadata::{SegmentMetadata, segments_partition, lemma_partition_disjoint};

verus! {

/// The concatenation of a sequence of byte strings, in order.
pub open spec fn concat_bytes(parts: Seq<Seq<u8>>) -> Seq<u8>
    decreases parts.len(),
{
    if parts.len() == 0 {
        Seq::<u8>::empty()
    } else {
        concat_bytes(parts.drop_last()) + parts.last()
    }
}

/// The bytes each segment of a plan covers, one byte string per segment
/// in ascending segment order.
pub open spec fn parts_of(segs: Seq<SegmentMetadata>, resource: Seq<u8>) -> Seq<Seq<u8>> {
    Seq::new(segs.len(), |i: int| resource.subrange(segs[i].start as int, segs[i].end + 1))
}

/// Concatenates the given parts in order.
pub fn merge_parts(parts: &Vec<Vec<u8>>) -> (out: Vec<u8>)
    ensures
        out@ == concat_bytes(parts@.map_values(|p: Vec<u8>| p@)),
{
    let ghost views = parts@.map_values(|p: Vec<u8>| p@);
    let mut out: Vec<u8> = Vec::new();
    let mut i: usize = 0;
    proof {
        assert(views.take(0) =~= Seq::<Seq<u8>>::empty());
    }
    while i < parts.len()
        invariant
            i <= parts@.len(),
            views == parts@.map_values(|p: Vec<u8>| p@),
            out@ == concat_bytes(views.take(i as int)),
        decreases parts@.len() - i,
    {
        let part: &Vec<u8> = &parts[i];
        let ghost out_before = out@;
        let mut j: usize = 0;
        while j < part.len()
            invariant
                j <= part@.len(),
                part@ == views[i as int],
                i < views.len(),
                out@ == out_before + part@.take(j as int),
            decreases part@.len() - j,
        {
            out.push(part[j]);
            proof {
                assert(out@ =~= out_before + part@.take(j + 1));
            }
            j = j + 1;
        }
        proof {
            assert(views.take(i + 1).drop_last() =~= views.take(i as int));
            assert(views.take(i + 1).last() == views[i as int]);
            assert(part@.take(part@.len() as int) =~= part@);
            assert(out@ == concat_bytes(views.take(i + 1)));
        }
        i = i + 1;
    }
    proof {
        assert(views.take(views.len() as int) =~= views);
    }
    out
}

/// The first `k` parts of a plan concatenate to the resource's prefix
/// ending at the `k`-th segment's end.
proof fn lemma_merge_prefix(
    segs: Seq<SegmentMetadata>,
    total_size: u64,
    resource: Seq<u8>,
    k: int,
)
    requires
        segments_partition(segs, total_size),
        resource.len() == total_size,
        1 <= k <= segs.len(),
    ensures
        concat_bytes(parts_of(segs, resource).take(k)) == resource.take(segs[k - 1].end + 1),
    decreases k,
{
    let ps = parts_of(segs, resource);
    if k < segs.len() {
        lemma_partition_disjoint(segs, total_size, k - 1, segs.len() - 1);
    }
    assert(segs[k - 1].end + 1 <= resource.len());
    if k == 1 {
        assert(ps.take(1).drop_last() =~= Seq::<Seq<u8>>::empty());
        assert(ps.take(1).last() == ps[0]);
        assert(concat_bytes(Seq::<Seq<u8>>::empty()) == Seq::<u8>::empty());
        assert(concat_bytes(ps.take(1)) == Seq::<u8>::empty() + ps[0]);
        assert(concat_bytes(ps.take(1)) =~= ps[0]);
        assert(ps[0] =~= resource.take(segs[0].end + 1));
    } else {
        lemma_merge_prefix(segs, total_size, resource, k - 1);
        assert(ps.take(k).drop_last() =~= ps.take(k - 1));
        assert(ps.take(k).last() == ps[k - 1]);
        assert(segs[(k - 2) + 1].start == segs[k - 2].end + 1);
        assert(resource.take(segs[k - 1].end + 1) =~= resource.take(segs[k - 1].start as int)
            + resource.subrange(segs[k - 1].start as int, segs[k - 1].end + 1));
    }
}

/// For any plan that partitions the resource, concatenating the bytes of
/// the part files in ascending segment order yields a byte-exact
/// reproduction of the resource, of length `total_size`.
pub proof fn lemma_merge_fidelity(segs: Seq<SegmentMetadata>, total_size: u64, resource: Seq<u8>)
    requires
        segments_partition(segs, total_size),
        resource.len() == total_size,
    ensures
        concat_bytes(parts_of(segs, resource)) == resource,
{
    lemma_merge_prefix(segs, total_size, resource, segs.len() as int);
    assert(parts_of(segs, resource).take(segs.len() as int) =~= parts_of(segs, resource));
    assert(resource.take(segs[segs.len() - 1].end + 1) =~= resource);
}

/// Resume idempotence for a whole task: abort every segment after any
/// number of buffer writes — segment `i` holding `written[i]` of its
/// bytes — and re-run; each part file is completed from its first
/// missing offset, and the merge of the completed parts is byte-exact
/// the same resource an uninterrupted run produces.
pub proof fn lemma_rerun_matches_uninterrupted(
    segs: Seq<SegmentMetadata>,
    total_size: u64,
    resource: Seq<u8>,
    written: Seq<int>,
)
    requires
        segments_partition(segs, total_size),
        resource.len() == total_size,
        written.len() == segs.len(),
        forall|i: int| 0 <= i < segs.len() ==> 0 <= #[trigger] written[i] <= segs[i].byte_len(),
    ensures
        concat_bytes(
            Seq::new(
                segs.len(),
                |i: int|
                    resource.subrange(segs[i].start as int, segs[i].start + written[i])
                        + resource.subrange(segs[i].start + written[i], segs[i].end + 1),
            ),
        ) == resource,
{
    let resumed = Seq::new(
        segs.len(),
        |i: int|
            resource.subrange(segs[i].start as int, segs[i].start + written[i])
                + resource.subrange(segs[i].start + written[i], segs[i].end + 1),
    );
    assert forall|i: int| 0 <= i < segs.len() implies resumed[i] == parts_of(segs, resource)[i] by {
        if i < segs.len() - 1 {
            lemma_partition_disjoint(segs, total_size, i, segs.len() - 1);
        }
        lemma_resume_idempotent(resource, segs[i].start as int, segs[i].end as int, written[i]);
    }
    assert(resumed =~= parts_of(segs, resource));
    lemma_merge_fidelity(segs, total_size, resource);
}

/// Aborting a segment after any number of buffer writes leaves its part
/// file holding a prefix of the segment's bytes; the resumed run fetches
/// from the first missing offset, so the prefix followed by the resumed
/// bytes is exactly what one uninterrupted run would have written.
pub proof fn lemma_resume_idempotent(resource: Seq<u8>, start: int, end: int, written: int)
    requires
        0 <= start <= end < resource.len(),
        0 <= written <= end - start + 1,
    ensures
        resource.subrange(start, start + written) + resource.subrange(start + written, end + 1)
            == resource.subrange(start, end + 1),
{
    assert(resource.subrange(start, start + written) + resource.subrange(
        start + written,
        end + 1,
    ) =~= resource.subrange(start, end + 1));
}

} // verus!
