//! Compression strategies for byte buffers.
//!
//! The library consumes two capabilities of a strategy: `compress`, which
//! cannot fail, and `decompress`, which fails on data that no `compress` could
//! have produced. Each strategy names what it computes with spec functions, so
//! that code generic over the strategy can state what it hands on.

use crate::error::ErrorKind;
use vstd::prelude::*;

verus! {

/// An adapter interface for compressing byte buffers.
pub trait CompressionStrategy: Sized {
    /// What `compress` returns for `input`.
    spec fn compressed(&self, input: Seq<u8>) -> Seq<u8>;

    /// What `decompress` returns for `input`: `None` where it fails.
    spec fn decompressed(&self, input: Seq<u8>) -> Option<Seq<u8>>;

    /// Compresses the given buffer and returns the compression result.
    fn compress(&self, buffer: &[u8]) -> (r: Vec<u8>)
        ensures
            r@ == self.compressed(buffer@),
    ;

    /// Decompresses the given buffer and returns the uncompressed result.
    fn decompress(&self, buffer: &[u8]) -> (r: Result<Vec<u8>, ErrorKind>)
        ensures
            match r {
                Ok(v) => self.decompressed(buffer@) == Some(v@),
                Err(e) => self.decompressed(buffer@) is None && e is CompressionError,
            },
    ;
}

/// A wrapper over an implementation of `CompressionStrategy`.
pub struct ModificationCompressor<S: CompressionStrategy> {
    strategy: S,
}

impl<S: CompressionStrategy> ModificationCompressor<S> {
    pub closed spec fn strategy(&self) -> S {
        self.strategy
    }

    pub fn new(strategy: S) -> (r: ModificationCompressor<S>)
        ensures
            r.strategy() == strategy,
    {
        ModificationCompressor { strategy }
    }

    /// Compresses the given buffer with the wrapped strategy.
    pub fn compress(&self, buffer: &[u8]) -> (r: Vec<u8>)
        ensures
            r@ == self.strategy().compressed(buffer@),
    {
        self.strategy.compress(buffer)
    }

    /// Decompresses the given buffer with the wrapped strategy.
    pub fn decompress(&self, buffer: &[u8]) -> (r: Result<Vec<u8>, ErrorKind>)
        ensures
            match r {
                Ok(v) => self.strategy().decompressed(buffer@) == Some(v@),
                Err(e) => self.strategy().decompressed(buffer@) is None && e is CompressionError,
            },
    {
        self.strategy.decompress(buffer)
    }
}

impl<S: CompressionStrategy + Default> Default for ModificationCompressor<S> {
    fn default() -> (r: ModificationCompressor<S>)
        ensures
            call_ensures(S::default, (), r.strategy()),
    {
        ModificationCompressor::new(S::default())
    }
}

/// What `lz4_compress::compress` returns for `input`.
pub uninterp spec fn lz4_compressed(input: Seq<u8>) -> Seq<u8>;

/// What `lz4_compress::decompress` returns for `input`: `None` where it fails.
pub uninterp spec fn lz4_decompressed(input: Seq<u8>) -> Option<Seq<u8>>;

/// Relies on `lz4_compress::compress`: the LZ4 block encoding of `input`,
/// which depends on the bytes alone.
#[verifier::external_body]
fn lz4_compress_bytes(input: &[u8]) -> (r: Vec<u8>)
    ensures
        r@ == lz4_compressed(input@),
{
    lz4_compress::compress(input)
}

/// Relies on `lz4_compress::decompress`: the decoded bytes, or the decoder's
/// error message where `input` is no valid LZ4 block stream. The outcome
/// depends on the bytes alone.
#[verifier::external_body]
fn lz4_decompress_bytes(input: &[u8]) -> (r: Result<Vec<u8>, String>)
    ensures
        match r {
            Ok(v) => lz4_decompressed(input@) == Some(v@),
            Err(_) => lz4_decompressed(input@) is None,
        },
{
    lz4_compress::decompress(input).map_err(|e| e.to_string())
}

/// A compression strategy using the LZ4 block format.
pub struct Lz4;

impl CompressionStrategy for Lz4 {
    open spec fn compressed(&self, input: Seq<u8>) -> Seq<u8> {
        lz4_compressed(input)
    }

    open spec fn decompressed(&self, input: Seq<u8>) -> Option<Seq<u8>> {
        lz4_decompressed(input)
    }

    fn compress(&self, buffer: &[u8]) -> (r: Vec<u8>) {
        lz4_compress_bytes(buffer)
    }

    fn decompress(&self, buffer: &[u8]) -> (r: Result<Vec<u8>, ErrorKind>) {
        match lz4_decompress_bytes(buffer) {
            Ok(v) => Ok(v),
            Err(message) => Err(ErrorKind::CompressionError(message)),
        }
    }
}

impl Clone for Lz4 {
    fn clone(&self) -> (r: Lz4) {
        Lz4
    }
}

impl Default for Lz4 {
    fn default() -> (r: Lz4) {
        Lz4
    }
}

} // verus!
