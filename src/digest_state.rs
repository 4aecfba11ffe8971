//! A running BLAKE2s-256 hash state, seen through the bytes it has absorbed.

use blake2::Digest;
use vstd::prelude::*;

verus! {

/// The BLAKE2s-256 digest (32 bytes) of a byte sequence.
pub uninterp spec fn blake2s_of(data: Seq<u8>) -> Seq<u8>;

/// The bytes that a running hash state has absorbed, in order.
pub uninterp spec fn absorbed_of(state: Blake2sState) -> Seq<u8>;

/// An incremental BLAKE2s hasher with a 256-bit output.
///
/// Opaque: blake2's `Blake2s256` is built from a type parameter that `digest` keeps in a
/// private module, so the type itself cannot be declared here.
#[verifier::external_body]
pub struct Blake2sState {
    inner: blake2::Blake2s256,
}

impl Blake2sState {
    /// Relies on `Digest::new` of blake2's Blake2s256: a fresh state has absorbed nothing.
    #[verifier::external_body]
    pub(crate) fn fresh() -> (r: Blake2sState)
        ensures
            absorbed_of(r) == Seq::<u8>::empty(),
    {
        Blake2sState { inner: blake2::Blake2s256::new() }
    }

    /// Relies on `Digest::update` of blake2's Blake2s256: `data` is appended to the
    /// absorbed input.
    #[verifier::external_body]
    pub(crate) fn absorb(&mut self, data: &[u8])
        ensures
            absorbed_of(*final(self)) == absorbed_of(*old(self)) + data@,
    {
        self.inner.update(data)
    }

    /// Relies on `Digest::finalize` of blake2's Blake2s256: the 32-byte digest of all the
    /// absorbed input.
    #[verifier::external_body]
    pub(crate) fn digest(self) -> (r: Vec<u8>)
        ensures
            r@ == blake2s_of(absorbed_of(self)),
            r@.len() == 32,
    {
        self.inner.finalize().to_vec()
    }
}

} // verus!
