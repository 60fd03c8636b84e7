//! A hasher for keys that are hashes already.

use std::hash::{BuildHasherDefault, Hasher};
use vstd::prelude::*;

verus! {

/// `std::hash::BuildHasherDefault`, which builds a hasher from its default.
#[verifier::external_type_specification]
#[verifier::external_body]
#[verifier::reject_recursive_types(H)]
pub struct ExBuildHasherDefault<H>(BuildHasherDefault<H>);

/// Builds [`Passthru`] hashers.
pub type PassthruHasher = BuildHasherDefault<Passthru>;

/// Hands the last 64-bit word it was given back as the digest.
#[derive(Default)]
pub struct Passthru {
    hash: u64,
}

impl Passthru {
    /// The digest the hasher holds.
    pub closed spec fn digest(&self) -> u64 {
        self.hash
    }
}

impl Hasher for Passthru {
    #[inline]
    fn finish(&self) -> (hash: u64)
        ensures
            hash == self.digest(),
    {
        self.hash
    }

    /// Keys are fed as whole words; loose bytes do not count.
    fn write(&mut self, _bytes: &[u8])
        ensures
            final(self).digest() == old(self).digest(),
    {
    }

    #[inline]
    fn write_u64(&mut self, i: u64)
        ensures
            final(self).digest() == i,
    {
        self.hash = i;
    }
}

} // verus!
