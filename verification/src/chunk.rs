use vstd::prelude::*;

verus! {

/// Bytes written per step while zeroing a region.
pub const ZERO_CHUNK_SIZE: u64 = 4096;

/// Bytes read per step while copying a region.
pub const COPY_CHUNK_SIZE: u64 = 8192;

/// The sizes of the successive chunks that cover `length` bytes with
/// chunks of at most `chunk` bytes: full chunks, then one truncated to
/// whatever remains.
pub open spec fn chunk_plan(length: int, chunk: int) -> Seq<int>
    decreases length,
    when chunk > 0
{
    if length <= 0 {
        Seq::empty()
    } else if length <= chunk {
        seq![length]
    } else {
        seq![chunk] + chunk_plan(length - chunk, chunk)
    }
}

/// The sum of a sequence of integers.
pub open spec fn seq_sum(s: Seq<int>) -> int
    decreases s.len(),
{
    if s.len() == 0 {
        0
    } else {
        s[0] + seq_sum(s.drop_first())
    }
}

/// The chunks of a plan cover the length exactly — their sizes sum to
/// `length`, no more and no fewer bytes — and every chunk is positive
/// and bounded by `chunk`, whether or not `length` is a multiple of it.
pub proof fn lemma_chunk_plan_covers(length: int, chunk: int)
    requires
        0 <= length,
        0 < chunk,
    ensures
        seq_sum(chunk_plan(length, chunk)) == length,
        forall|i: int|
            0 <= i < chunk_plan(length, chunk).len() ==> 0 < #[trigger] chunk_plan(length, chunk)[i]
                <= chunk,
    decreases length,
{
    if length <= 0 {
    } else if length <= chunk {
        let plan = chunk_plan(length, chunk);
        assert(plan =~= seq![length]);
        assert(plan.drop_first() =~= Seq::<int>::empty());
        assert(seq_sum(plan) == length + seq_sum(Seq::<int>::empty()));
        assert(seq_sum(Seq::<int>::empty()) == 0);
    } else {
        lemma_chunk_plan_covers(length - chunk, chunk);
        let plan = chunk_plan(length, chunk);
        let rest = chunk_plan(length - chunk, chunk);
        assert(plan.drop_first() =~= rest);
        assert(plan[0] == chunk);
        assert(seq_sum(plan) == chunk + seq_sum(rest));
        assert(forall|i: int| 0 <= i < plan.len() ==> 0 < #[trigger] plan[i] <= chunk) by {
            assert(forall|i: int| 1 <= i < plan.len() ==> plan[i] == #[trigger] rest[i - 1]);
        }
    }
}

/// The size of the next chunk when `remaining` bytes are left and chunks
/// hold at most `chunk` bytes: a full chunk, or the truncated final one.
pub fn chunk_len(remaining: u64, chunk: u64) -> (r: u64)
    requires
        0 < chunk,
    ensures
        r == if remaining < chunk {
            remaining as int
        } else {
            chunk as int
        },
        r <= remaining,
        r <= chunk,
        remaining > 0 ==> 0 < r,
        remaining > 0 ==> r == chunk_plan(remaining as int, chunk as int)[0],
{
    if remaining < chunk {
        remaining
    } else {
        chunk
    }
}

} // verus!
