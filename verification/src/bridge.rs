use vstd::prelude::*;

use crate::error::{IoErrorKind, RS_IO_ERROR};
use crate::source::{RandomSource, span_of};

verus! {

/// The engine's answer for one bridge read, given what the base source
/// returned and how many bytes were requested: a result of the full
/// requested length is handed on unchanged; anything else — a read failure,
/// or a short read — is the raw IO-error status.
pub open spec fn copy_verdict(
    r: Result<Vec<u8>, IoErrorKind>,
    len: int,
) -> Result<Vec<u8>, i32> {
    match r {
        Ok(v) => if v@.len() == len {
            Ok(v)
        } else {
            Err(RS_IO_ERROR)
        },
        Err(_) => Err(RS_IO_ERROR),
    }
}

/// Decides the engine's answer for one bridge read from what the base
/// source returned: exactly `copy_verdict` — a full-length read is handed
/// on as it came, a failed or short one becomes the raw IO-error status.
pub fn copy_outcome(r: Result<Vec<u8>, IoErrorKind>, len: usize) -> (out: Result<Vec<u8>, i32>)
    ensures
        out == copy_verdict(r, len as int),
{
    match r {
        Ok(v) => {
            if v.len() == len {
                Ok(v)
            } else {
                Err(RS_IO_ERROR)
            }
        },
        Err(_) => Err(RS_IO_ERROR),
    }
}

/// Serves one random-access request the engine makes while applying a delta:
/// exactly `len` base bytes at absolute offset `pos`, pulled from the
/// caller-supplied base source, with the answer decided by `copy_outcome`.
///
/// A request the source fails, and a request that runs past the true end of
/// the base (a short read), are both answered with the raw IO-error status
/// for the engine — never with silently fewer bytes. Whether the source
/// serves a request is the source's own affair, so success is not owed
/// here; `copy_outcome` pins the answer for each thing the source can do.
pub fn serve_copy<B: RandomSource>(base: &mut B, pos: u64, len: usize) -> (r: Result<Vec<u8>, i32>)
    ensures
        final(base).data() == old(base).data(),
        (match r {
            Ok(v) => v@ == span_of(old(base).data(), pos as int, len as int) && v@.len() == len,
            Err(s) => s == RS_IO_ERROR,
        }),
        (len > 0 && pos as int + len as int > old(base).data().len() ==> (r is Err)),
{
    let read = base.read_at(pos, len);
    copy_outcome(read, len)
}

} // verus!
