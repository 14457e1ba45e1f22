//! Chunking of an image into fixed-size transfer segments.
//!
//! An image is transmitted as a sequence of 256-byte chunks, addressed by a
//! 0-based index; the final chunk may be shorter. Concatenating all chunks in
//! index order reconstructs the image exactly.

use vstd::prelude::*;

verus! {

/// Fixed transfer segment size shared by both protocol roles.
pub const CHUNK_SIZE: usize = 256;

/// Number of chunks an image of `len` bytes splits into: the ceiling of
/// `len / 256`, so a zero-length image has no chunks at all.
pub open spec fn spec_num_chunks(len: nat) -> nat {
    (len + 255) / 256
}

/// First byte offset of chunk `i`.
pub open spec fn chunk_start(i: nat) -> int {
    256 * (i as int)
}

/// One-past-the-last byte offset of chunk `i` in an image of `len` bytes.
pub open spec fn chunk_end(len: nat, i: nat) -> int {
    if 256 * (i + 1) <= len {
        256 * (i as int + 1)
    } else {
        len as int
    }
}

/// The bytes of chunk `i` of `image`.
pub open spec fn spec_chunk(image: Seq<u8>, i: nat) -> Seq<u8> {
    image.subrange(chunk_start(i), chunk_end(image.len(), i))
}

/// The first `n` chunks of `image`, concatenated in index order.
pub open spec fn concat_chunks(image: Seq<u8>, n: nat) -> Seq<u8>
    decreases n,
{
    if n == 0 {
        Seq::empty()
    } else {
        concat_chunks(image, (n - 1) as nat) + spec_chunk(image, (n - 1) as nat)
    }
}

/// Concatenating the first `n` chunks yields exactly the image's first
/// `min(256 * n, len)` bytes.
pub proof fn lemma_concat_chunks_prefix(image: Seq<u8>, n: nat)
    requires
        n <= spec_num_chunks(image.len()),
    ensures
        concat_chunks(image, n) == image.take(chunk_end_of_prefix(image.len(), n)),
    decreases n,
{
    if n == 0 {
    } else {
        let m = (n - 1) as nat;
        lemma_concat_chunks_prefix(image, m);
        assert(concat_chunks(image, n) =~= image.take(chunk_end_of_prefix(image.len(), n)));
    }
}

/// `min(256 * n, len)`: how many bytes the first `n` chunks cover.
pub open spec fn chunk_end_of_prefix(len: nat, n: nat) -> int {
    if 256 * n <= len {
        256 * (n as int)
    } else {
        len as int
    }
}

/// Concatenating all chunks in index order reconstructs the image exactly.
pub proof fn lemma_chunks_reconstruct(image: Seq<u8>)
    ensures
        concat_chunks(image, spec_num_chunks(image.len())) == image,
{
    let n = spec_num_chunks(image.len());
    lemma_concat_chunks_prefix(image, n);
    assert(concat_chunks(image, n) =~= image);
}

/// Number of chunks of an image of `len` bytes.
pub fn num_chunks(len: usize) -> (r: usize)
    ensures
        r as nat == spec_num_chunks(len as nat),
{
    if len == 0 {
        0
    } else {
        1 + (len - 1) / CHUNK_SIZE
    }
}

/// Copy of chunk `i` of `image`.
pub fn chunk(image: &Vec<u8>, i: usize) -> (r: Vec<u8>)
    requires
        (i as nat) < spec_num_chunks(image@.len()),
    ensures
        r@ == spec_chunk(image@, i as nat),
{
    let len = image.len();
    let start = i * CHUNK_SIZE;
    assert(256 * (i as nat) < len) by {
        assert((i as nat) < (len as nat + 255) / 256);
    };
    let end = if len - start > CHUNK_SIZE {
        start + CHUNK_SIZE
    } else {
        len
    };
    let mut r: Vec<u8> = Vec::new();
    let mut j = start;
    while j < end
        invariant
            start <= j <= end <= len,
            end == chunk_end(len as nat, i as nat),
            start == chunk_start(i as nat),
            len == image@.len(),
            r@ == image@.subrange(start as int, j as int),
        decreases end - j,
    {
        r.push(image[j]);
        assert(r@ =~= image@.subrange(start as int, j + 1));
        j = j + 1;
    }
    assert(r@ =~= spec_chunk(image@, i as nat));
    r
}

} // verus!
