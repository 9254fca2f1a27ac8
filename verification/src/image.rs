use vstd::prelude::*;

use crate::chunk::{chunk_len, COPY_CHUNK_SIZE, ZERO_CHUNK_SIZE};

verus! {

/// The image bytes after `length` bytes from `offset` are overwritten
/// with zeros: zero inside the range, untouched outside it.
pub open spec fn zero_region(s: Seq<u8>, offset: int, length: int) -> Seq<u8> {
    Seq::new(
        s.len(),
        |i: int|
            if offset <= i < offset + length {
                0u8
            } else {
                s[i]
            },
    )
}

/// How many bytes a source holds from `offset` on: what a reader can
/// still deliver once it has sought there.
pub open spec fn bytes_available(s: Seq<u8>, offset: int) -> int {
    if offset <= s.len() {
        s.len() - offset
    } else {
        0
    }
}

/// The bytes a range copy yields: at most `length` bytes of `s` starting
/// at `offset`, fewer when the source ends first.
pub open spec fn copy_region(s: Seq<u8>, offset: int, length: int) -> Seq<u8> {
    let take = if length <= bytes_available(s, offset) {
        length
    } else {
        bytes_available(s, offset)
    };
    Seq::new(take as nat, |i: int| s[offset + i])
}

/// Overwrite `length` bytes of `image` from `offset` with zeros, one
/// bounded chunk at a time, the final chunk truncated to what remains.
/// Write-only and single-pass: after it, every byte of the range is zero
/// and every byte outside the range is exactly what it was.
pub fn zero(image: &mut Vec<u8>, offset: u64, length: u64)
    requires
        offset + length <= old(image)@.len(),
    ensures
        final(image)@ == zero_region(old(image)@, offset as int, length as int),
        final(image)@.len() == old(image)@.len(),
        forall|i: int| offset <= i < offset + length ==> final(image)@[i] == 0u8,
        forall|i: int|
            0 <= i < old(image)@.len() && !(offset <= i < offset + length) ==> final(image)@[i]
                == old(image)@[i],
{
    let image_len = image.len();
    let mut written: u64 = 0;
    while written < length
        invariant
            offset + length <= image_len,
            image_len == image@.len(),
            image@.len() == old(image)@.len(),
            written <= length,
            forall|i: int| offset <= i < offset + written ==> image@[i] == 0u8,
            forall|i: int|
                0 <= i < image@.len() && !(offset <= i < offset + written) ==> image@[i] == old(
                    image,
                )@[i],
        decreases length - written,
    {
        let write_size = chunk_len(length - written, ZERO_CHUNK_SIZE);
        let mut j: u64 = 0;
        while j < write_size
            invariant
                offset + length <= image_len,
                image_len == image@.len(),
                image@.len() == old(image)@.len(),
                written + write_size <= length,
                0 < write_size,
                j <= write_size,
                forall|i: int| offset <= i < offset + written + j ==> image@[i] == 0u8,
                forall|i: int|
                    0 <= i < image@.len() && !(offset <= i < offset + written + j) ==> image@[i]
                        == old(image)@[i],
            decreases write_size - j,
        {
            let pos = (offset + written + j) as usize;
            image[pos] = 0u8;
            j += 1;
        }
        written += write_size;
    }
    assert(image@ =~= zero_region(old(image)@, offset as int, length as int));
}

/// Copy at most `length` bytes of `src` starting at `offset` into a
/// fresh buffer, reading one bounded chunk at a time. A source shorter
/// than `offset + length` is not an error: the copy stops at the end of
/// the source, so exactly `min(length, available)` bytes come out.
pub fn copy_range(src: &Vec<u8>, offset: u64, length: u64) -> (dst: Vec<u8>)
    ensures
        dst@ == copy_region(src@, offset as int, length as int),
        dst@.len() == if length <= bytes_available(src@, offset as int) {
            length as int
        } else {
            bytes_available(src@, offset as int)
        },
        forall|i: int| 0 <= i < dst@.len() ==> dst@[i] == src@[offset + i],
{
    let src_len = src.len();
    let avail: u64 = if offset <= src_len as u64 {
        src_len as u64 - offset
    } else {
        0
    };
    let take: u64 = if length <= avail {
        length
    } else {
        avail
    };
    let mut dst: Vec<u8> = Vec::new();
    let mut copied: u64 = 0;
    while copied < take
        invariant
            src_len == src@.len(),
            take == 0 || offset + take <= src@.len(),
            copied <= take,
            dst@.len() == copied,
            forall|i: int| 0 <= i < dst@.len() ==> dst@[i] == src@[offset + i],
        decreases take - copied,
    {
        let read_size = chunk_len(take - copied, COPY_CHUNK_SIZE);
        let mut j: u64 = 0;
        while j < read_size
            invariant
                src_len == src@.len(),
                take == 0 || offset + take <= src@.len(),
                copied + read_size <= take,
                j <= read_size,
                dst@.len() == copied + j,
                forall|i: int| 0 <= i < dst@.len() ==> dst@[i] == src@[offset + i],
            decreases read_size - j,
        {
            let b = src[(offset + copied + j) as usize];
            dst.push(b);
            j += 1;
        }
        copied += read_size;
    }
    assert(dst@ =~= copy_region(src@, offset as int, length as int));
    dst
}

/// Zeroing a region and then copying that same region yields an
/// all-zero buffer of exactly `length` bytes, for any image that holds
/// the region.
pub proof fn lemma_zero_then_copy_is_zero(s: Seq<u8>, offset: int, length: int)
    requires
        0 <= offset,
        0 <= length,
        offset + length <= s.len(),
    ensures
        copy_region(zero_region(s, offset, length), offset, length).len() == length,
        forall|i: int|
            0 <= i < length ==> copy_region(zero_region(s, offset, length), offset, length)[i]
                == 0u8,
{
    let zeroed = zero_region(s, offset, length);
    assert(zeroed.len() == s.len());
    assert(bytes_available(zeroed, offset) == s.len() - offset);
}

} // verus!
