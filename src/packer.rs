//! A packer pairs a serialization strategy with a compression strategy. On
//! the wire a value is serialized, then compressed; on receipt the inverse.

use crate::compression::{CompressionStrategy, ModificationCompressor};
use vstd::prelude::*;

verus! {

pub struct Packer<S, C: CompressionStrategy> {
    compression: ModificationCompressor<C>,
    serialization: S,
}

impl<S, C: CompressionStrategy> Packer<S, C> {
    pub closed spec fn spec_compression(&self) -> ModificationCompressor<C> {
        self.compression
    }

    pub closed spec fn spec_serialization(&self) -> S {
        self.serialization
    }

    pub fn new(serialization: S, compression: C) -> (r: Packer<S, C>)
        ensures
            r.spec_serialization() == serialization,
            r.spec_compression().strategy() == compression,
    {
        Packer { serialization, compression: ModificationCompressor::new(compression) }
    }

    /// Returns the compressor.
    pub fn compression(&self) -> (r: &ModificationCompressor<C>)
        ensures
            *r == self.spec_compression(),
    {
        &self.compression
    }

    /// Returns the serialization strategy.
    pub fn serialization(&self) -> (r: &S)
        ensures
            *r == self.spec_serialization(),
    {
        &self.serialization
    }
}

impl<S: Default, C: CompressionStrategy + Default> Default for Packer<S, C> {
    fn default() -> (r: Packer<S, C>)
        ensures
            call_ensures(S::default, (), r.spec_serialization()),
            call_ensures(C::default, (), r.spec_compression().strategy()),
    {
        Packer { serialization: S::default(), compression: ModificationCompressor::default() }
    }
}

} // verus!
