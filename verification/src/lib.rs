//! Streaming access to the rsync delta-compression family: signature
//! generation, delta computation and patch reconstruction, on top of an
//! external incremental engine that consumes and produces bytes in discrete,
//! resumable steps.
//!
//! The verified core is the adaptation layer: the pull-stream pump that
//! turns the engine's suspend/resume step function into blocking byte
//! streams, the staging buffer it manages across suspend points, the exact
//! mapping of raw engine status codes to this crate's error taxonomy, and
//! the random-access bridge that serves base-file bytes during patching.
//! The engine itself is opaque: an embedding program creates its jobs and
//! runs its step function, and reports every outcome back to the pump.

use vstd::prelude::*;

pub mod bridge;
pub mod error;
pub mod job;
pub mod source;

pub use crate::bridge::{copy_outcome, serve_copy};
pub use crate::error::{Error, IoErrorKind, error_of_code, io_err};
pub use crate::job::{JobDriver, PumpMove, PumpVerdict, step_verdict};
pub use crate::source::{ByteSource, MemSource, RandomSource};

use crate::error::RS_DONE;

verus! {

/// Format magic number of the legacy weak-hash signature format.
pub const RS_MD4_SIG_MAGIC: i32 = 0x7273_0136;

/// Format magic number of the strong-hash signature format.
pub const RS_BLAKE2_SIG_MAGIC: i32 = 0x7273_0137;

/// The engine-defined default block length for signature generation.
pub const RS_DEFAULT_BLOCK_LEN: usize = 2048;

/// The default strong-checksum length: zero, an untruncated strong sum.
pub const RS_DEFAULT_STRONG_LEN: usize = 0;

/// The signature format selector.
#[derive(Clone, Copy, Debug, Eq, PartialEq, Structural)]
pub enum SignatureType {
    /// A signature file with MD4 signatures.
    ///
    /// Backward compatible with old engines, but deprecated because of a
    /// known collision weakness.
    MD4,
    /// A signature file using BLAKE2 hash.
    Blake2,
}

impl SignatureType {
    /// The format-specific magic number written at the start of a signature
    /// stream of this type.
    pub fn as_raw(&self) -> (r: i32)
        ensures
            *self == SignatureType::MD4 ==> r == RS_MD4_SIG_MAGIC,
            *self == SignatureType::Blake2 ==> r == RS_BLAKE2_SIG_MAGIC,
    {
        match *self {
            SignatureType::MD4 => RS_MD4_SIG_MAGIC,
            SignatureType::Blake2 => RS_BLAKE2_SIG_MAGIC,
        }
    }
}

/// The default signature parameters: the engine's default block length, an
/// untruncated strong sum, and the strong-hash format.
pub fn default_signature_options() -> (r: (usize, usize, SignatureType))
    ensures
        r.0 == RS_DEFAULT_BLOCK_LEN,
        r.1 == RS_DEFAULT_STRONG_LEN,
        r.2 == SignatureType::Blake2,
{
    (RS_DEFAULT_BLOCK_LEN, RS_DEFAULT_STRONG_LEN, SignatureType::Blake2)
}

/// A struct to generate a signature.
///
/// It owns the input byte source from which the signatures are computed,
/// staged through the pump, and the opaque engine job that an embedding
/// program created for the requested parameters and pumps to produce the
/// signature byte stream.
pub struct Signature<S: ByteSource, J> {
    /// The pump that owns the input source and decides each pull call.
    pub driver: JobDriver<S>,
    /// The opaque signature job, owned exclusively by this stream.
    pub job: J,
}

impl<S: ByteSource, J> Signature<S, J> {
    /// Wraps the engine job made for the requested block length, strong-sum
    /// length and format around an input source. No job — the engine
    /// rejected the format and parameter combination — is a bad-magic error.
    pub fn new(input: S, job: Option<J>) -> (r: Result<Self, Error>)
        ensures
            (match r {
                Ok(s) => (job is Some) && s.job == job->0 && s.driver.fresh_for(input),
                Err(e) => (job is None) && e == Error::BadMagic,
            }),
    {
        match job {
            Some(job) => Ok(Signature { driver: JobDriver::new(input), job }),
            None => Err(Error::BadMagic),
        }
    }

    /// Unwraps this stream, returning the underlying input source.
    pub fn into_inner(self) -> (r: S)
        ensures
            r == self.driver.source,
    {
        let Signature { driver, job: _ } = self;
        driver.into_inner()
    }
}

/// A struct to generate a delta between two files.
///
/// It owns the byte source for the new file, the opaque delta job, and the
/// loaded-and-indexed signature set of the base file the job matches
/// against. The job holds references into the set's memory, so the job field
/// stands first: it is destroyed strictly before the set.
pub struct Delta<S: ByteSource, J, G> {
    /// The pump that owns the new-file source and decides each pull call.
    pub driver: JobDriver<S>,
    /// The opaque delta job; destroyed before the signature set below.
    pub job: J,
    /// The loaded, indexed signature set the job depends on.
    pub sumset: G,
}

impl<S: ByteSource, J, G> Delta<S, J, G> {
    /// Wraps the delta job made from a fully loaded and indexed signature
    /// set around the new-file source. No job — the engine rejected the
    /// loaded set — is an invalid-data error, and the partially-acquired
    /// set is released.
    pub fn new(new: S, sumset: G, job: Option<J>) -> (r: Result<Self, Error>)
        ensures
            (match r {
                Ok(d) => (job is Some) && d.job == job->0 && d.driver.fresh_for(new),
                Err(e) => (job is None) && e == Error::Io(IoErrorKind::InvalidData),
            }),
    {
        match job {
            Some(job) => Ok(Delta { driver: JobDriver::new(new), job, sumset }),
            None => Err(Error::Io(IoErrorKind::InvalidData)),
        }
    }

    /// Unwraps this stream, returning the underlying new-file source.
    pub fn into_inner(self) -> (r: S)
        ensures
            r == self.driver.source,
    {
        let Delta { driver, job: _, sumset: _ } = self;
        driver.into_inner()
    }
}

/// The outcome of indexing a loaded signature set — building the lookup
/// table used for matching: the engine's raw status, surfaced through the
/// error taxonomy, with completion as the only success.
pub fn index_outcome(status: i32) -> (r: Result<(), Error>)
    ensures
        ((r is Ok) <==> status == RS_DONE),
        ((r is Err) ==> r->Err_0 == error_of_code(status)),
{
    if status == RS_DONE {
        Ok(())
    } else {
        Err(Error::from(status))
    }
}

/// A struct to apply a delta to a basis file, to recreate the new file.
///
/// It owns the pump over the delta source, the opaque patch job, the bridge
/// context the engine calls back into for base bytes, and the boxed base
/// source that context reads from. Both the context and the base are heap
/// allocations whose addresses the engine holds, so they must stay where
/// they are even as this façade moves. The fields stand in destruction
/// order: the job first, since it may still invoke the bridge, then the
/// bridge context, then the boxed base source.
pub struct Patch<B: RandomSource, D: ByteSource, J, C> {
    /// The pump that owns the delta source and decides each pull call.
    pub driver: JobDriver<D>,
    /// The opaque patch job; destroyed before the bridge context below.
    pub job: J,
    /// The bridge context the engine calls back into; destroyed before the
    /// base source below.
    pub ctx: C,
    /// The boxed base source the bridge serves random-access reads from.
    pub base: Box<B>,
}

impl<B: RandomSource, D: ByteSource, J, C> Patch<B, D, J, C> {
    /// Wraps the engine's patch job, the bridge context registered with it,
    /// and the boxed base source that context points at, around the delta
    /// source the job consumes.
    pub fn new(base: Box<B>, delta: D, job: J, ctx: C) -> (r: Self)
        ensures
            r.driver.fresh_for(delta),
            r.job == job,
            r.ctx == ctx,
            r.base == base,
    {
        Patch { driver: JobDriver::new(delta), job, ctx, base }
    }

    /// Unwraps this stream and returns the underlying base and delta
    /// sources.
    pub fn into_inner(self) -> (r: (B, D))
        ensures
            r.0 == *self.base,
            r.1 == self.driver.source,
    {
        let Patch { driver, job: _, ctx: _, base } = self;
        (*base, driver.into_inner())
    }
}

} // verus!
