//! Laws of the checksum: it depends on the bytes of the source alone, never on how
//! they were split into reads.

use crate::scanner::{checksum_of, joined};
use vstd::prelude::*;

verus! {

/// `data` split into consecutive reads of `size` bytes, the last one possibly shorter.
pub open spec fn chunks_of(data: Seq<u8>, size: nat) -> Seq<Seq<u8>>
    decreases data.len(),
{
    if data.len() == 0 || size == 0 {
        Seq::empty()
    } else if data.len() <= size {
        seq![data]
    } else {
        seq![data.take(size as int)] + chunks_of(data.skip(size as int), size)
    }
}

/// Splitting into reads of any positive size loses, adds and reorders no byte.
pub proof fn lemma_chunks_rejoin(data: Seq<u8>, size: nat)
    requires
        size > 0,
    ensures
        chunks_of(data, size).flatten() == data,
    decreases data.len(),
{
    if data.len() == 0 {
    } else if data.len() <= size {
        seq![data].lemma_flatten_one_element();
        assert(seq![data].flatten() =~= data);
    } else {
        let head = data.take(size as int);
        let rest = chunks_of(data.skip(size as int), size);
        lemma_chunks_rejoin(data.skip(size as int), size);
        let all = seq![head] + rest;
        assert(all.first() == head);
        assert(all.drop_first() =~= rest);
        assert(all.flatten() == head + rest.flatten());
        assert(head + data.skip(size as int) =~= data);
    }
}

/// Two scans whose reads lay out the same bytes report the same checksum.
pub proof fn lemma_scan_determinism(first: Seq<Vec<u8>>, second: Seq<Vec<u8>>)
    requires
        joined(first) == joined(second),
    ensures
        checksum_of(joined(first)) == checksum_of(joined(second)),
{
}

/// The checksum of a source read in chunks of any two positive sizes is the checksum
/// of its bytes, for both sizes alike.
pub proof fn lemma_chunk_size_independence(data: Seq<u8>, size_a: nat, size_b: nat)
    requires
        size_a > 0,
        size_b > 0,
    ensures
        checksum_of(chunks_of(data, size_a).flatten()) == checksum_of(data),
        checksum_of(chunks_of(data, size_a).flatten()) == checksum_of(
            chunks_of(data, size_b).flatten(),
        ),
{
    lemma_chunks_rejoin(data, size_a);
    lemma_chunks_rejoin(data, size_b);
}

} // verus!
