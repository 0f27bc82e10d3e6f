use vstd::prelude::*;

use crate::error::{Error, IoErrorKind, error_of_code, io_err, RS_BLOCKED, RS_DONE, RS_INPUT_ENDED};
use crate::source::ByteSource;

verus! {

/// The next move of one pull call, decided by the pump.
#[derive(Clone, Copy, Debug, PartialEq, Eq, Structural)]
pub enum PumpMove {
    /// The job already ran to completion: the pull call ends here and
    /// returns the bytes produced so far (zero on a call after the last
    /// real output, which is the end of the stream).
    Finish,
    /// Run one engine step, with the pending staging bytes as input, the
    /// unwritten tail of the caller's destination as output space, and this
    /// end-of-input flag; then report the outcome through `record_step`.
    Step {
        /// Whether the owned source is exhausted, so the step runs with the
        /// end-of-input mark set.
        eof: bool,
    },
}

/// The pump's verdict on one recorded engine step.
#[derive(Clone, Copy, Debug, PartialEq, Eq, Structural)]
pub enum PumpVerdict {
    /// The engine reported the job done: the job is terminal and the pull
    /// call returns the bytes produced.
    Complete,
    /// The engine wants more input but output was already produced: the
    /// pull call returns it rather than blocking on another refill.
    Output,
    /// No output yet and more progress is possible: pump again.
    Again,
}

/// The pump's decision on one engine step outcome: completion ends the job;
/// blocked with output on hand returns that output; blocked with the source
/// already exhausted and nothing produced is a truncated stream — the
/// engine wants input that will never come — promoted to an
/// unexpected-end-of-input error; blocked otherwise pumps again; and any
/// other status maps to the error taxonomy and is permanent.
pub open spec fn step_verdict(
    source_eof: bool,
    produced_total: int,
    status: i32,
) -> Result<PumpVerdict, Error> {
    if status == RS_DONE {
        Ok(PumpVerdict::Complete)
    } else if status == RS_BLOCKED {
        if produced_total > 0 {
            Ok(PumpVerdict::Output)
        } else if source_eof {
            Err(Error::Io(IoErrorKind::UnexpectedEof))
        } else {
            Ok(PumpVerdict::Again)
        }
    } else {
        Err(error_of_code(status))
    }
}

/// Owns one engine job's input side: the byte source and the staging buffer
/// drained by engine steps. It turns the engine's suspend/resume step model
/// into a blocking pull stream by deciding each move of the pump loop; the
/// embedding loop only runs the opaque step itself and reports back.
pub struct JobDriver<S: ByteSource> {
    /// The owned byte source the staging buffer is refilled from.
    pub source: S,
    /// The staging buffer: bytes read from the source, not yet consumed.
    pub staging: Vec<u8>,
    /// The staging cursor: `staging[pos..]` is the unconsumed tail.
    pub pos: usize,
    /// Whether the source has reported end of stream.
    pub source_eof: bool,
    /// Whether the engine has reported the job complete.
    pub done: bool,
    /// The permanent failure, once any pull call has failed.
    pub failed: Option<Error>,
    /// The bytes already consumed by the engine, in stream order.
    pub fed: Ghost<Seq<u8>>,
    /// The bytes the engine has emitted so far, in emission order: the
    /// output-side mirror of `fed`. Each recorded step appends exactly the
    /// bytes the engine wrote, so output is surfaced in the exact order the
    /// engine emits it, with nothing added, dropped or reordered.
    pub emitted: Ghost<Seq<u8>>,
}

impl<S: ByteSource> JobDriver<S> {
    /// Well-formedness: the cursor never exceeds the filled length, and the
    /// end-of-stream mark is set only once the source has nothing left.
    pub open spec fn wf(&self) -> bool {
        &&& self.pos <= self.staging@.len()
        &&& (self.source_eof ==> self.source.bytes().len() == 0)
    }

    /// The staged bytes not yet consumed by the engine.
    pub open spec fn pending_view(&self) -> Seq<u8> {
        self.staging@.skip(self.pos as int)
    }

    /// The bytes the engine has not seen yet: the unconsumed staging tail
    /// followed by whatever the source still holds.
    pub open spec fn upcoming(&self) -> Seq<u8> {
        self.pending_view() + self.source.bytes()
    }

    /// The whole input stream: what was fed to the engine followed by what
    /// is still to come. The pump never loses or reorders a byte, so this
    /// is constant over the driver's whole life.
    pub open spec fn stream(&self) -> Seq<u8> {
        self.fed@ + self.upcoming()
    }

    /// A driver freshly wrapped around `source`: nothing fed, staged,
    /// finished or failed yet, so the whole stream is what the source holds.
    pub open spec fn fresh_for(&self, source: S) -> bool {
        &&& self.wf()
        &&& self.source == source
        &&& self.fed@ == Seq::<u8>::empty()
        &&& self.pending_view() == Seq::<u8>::empty()
        &&& self.stream() == source.bytes()
        &&& self.emitted@ == Seq::<u8>::empty()
        &&& !self.source_eof
        &&& !self.done
        &&& (self.failed is None)
    }

    /// Wraps a byte source for a fresh engine job.
    pub fn new(source: S) -> (r: Self)
        ensures
            r.fresh_for(source),
    {
        let r = JobDriver {
            source,
            staging: Vec::new(),
            pos: 0,
            source_eof: false,
            done: false,
            failed: None,
            fed: Ghost(Seq::empty()),
            emitted: Ghost(Seq::empty()),
        };
        proof {
            assert(r.pending_view() =~= Seq::<u8>::empty());
            assert(r.stream() =~= r.source.bytes());
        }
        r
    }

    /// Unwraps this driver, returning the underlying byte source.
    pub fn into_inner(self) -> (r: S)
        ensures
            r == self.source,
    {
        self.source
    }

    /// The unconsumed staging bytes, to hand to the next engine step.
    pub fn pending(&self) -> (r: &[u8])
        requires
            self.wf(),
        ensures
            r@ == self.pending_view(),
    {
        vstd::slice::slice_subrange(self.staging.as_slice(), self.pos, self.staging.len())
    }

    /// Decides how one pull call goes on: report a permanent failure, finish
    /// a completed stream, or — refilling the exhausted staging buffer from
    /// the source first — run one more engine step.
    pub fn next_move(&mut self) -> (r: Result<PumpMove, Error>)
        requires
            old(self).wf(),
        ensures
            final(self).wf(),
            final(self).stream() == old(self).stream(),
            final(self).fed == old(self).fed,
            final(self).emitted == old(self).emitted,
            final(self).done == old(self).done,
            next_move_post(*old(self), *final(self), r),
    {
        match self.failed {
            Some(e) => {
                return Err(e);
            },
            None => {},
        }
        if self.done {
            return Ok(PumpMove::Finish);
        }
        if self.pos == self.staging.len() && !self.source_eof {
            let ghost pre_bytes = self.source.bytes();
            match self.source.read_chunk() {
                Ok(chunk) => {
                    proof {
                        assert(pre_bytes.take(chunk@.len() as int) + pre_bytes.skip(
                            chunk@.len() as int,
                        ) =~= pre_bytes);
                    }
                    if chunk.len() == 0 {
                        self.source_eof = true;
                    } else {
                        self.staging = chunk;
                        self.pos = 0;
                    }
                    proof {
                        assert(self.stream() =~= old(self).stream());
                    }
                },
                Err(k) => {
                    let e = io_err(k);
                    self.failed = Some(e);
                    proof {
                        assert(self.stream() =~= old(self).stream());
                    }
                    return Err(e);
                },
            }
        }
        Ok(PumpMove::Step { eof: self.source_eof })
    }

    /// Records what one engine step did — how many pending input bytes it
    /// consumed, the output bytes it wrote (`produced`), how many output
    /// bytes this pull call has produced in total, and the raw status it
    /// returned — advances the staging cursor past the consumed bytes,
    /// appends the produced bytes to the emission record, and passes the
    /// verdict of `step_verdict`.
    pub fn record_step(
        &mut self,
        consumed: usize,
        produced: &[u8],
        produced_total: usize,
        status: i32,
    ) -> (r: Result<PumpVerdict, Error>)
        requires
            old(self).wf(),
            !old(self).done,
            (old(self).failed is None),
            consumed <= old(self).pending_view().len(),
        ensures
            final(self).wf(),
            final(self).source == old(self).source,
            final(self).source_eof == old(self).source_eof,
            final(self).fed@ == old(self).fed@ + old(self).pending_view().take(consumed as int),
            final(self).emitted@ == old(self).emitted@ + produced@,
            final(self).pending_view() == old(self).pending_view().skip(consumed as int),
            final(self).stream() == old(self).stream(),
            r == step_verdict(old(self).source_eof, produced_total as int, status),
            final(self).done == (status == RS_DONE),
            ((r is Err) ==> final(self).failed == Some(r->Err_0)),
            ((r is Ok) ==> final(self).failed is None),
    {
        let ghost pre = *self;
        let staging_len = self.staging.len();
        proof {
            assert(pre.pending_view().len() == staging_len - self.pos);
        }
        self.pos = self.pos + consumed;
        self.fed = Ghost(pre.fed@ + pre.pending_view().take(consumed as int));
        self.emitted = Ghost(pre.emitted@ + produced@);
        proof {
            assert(self.pending_view() =~= pre.pending_view().skip(consumed as int));
            assert(pre.pending_view().take(consumed as int) + pre.pending_view().skip(
                consumed as int,
            ) =~= pre.pending_view());
            assert(self.stream() =~= pre.stream());
        }
        if status == RS_DONE {
            self.done = true;
            Ok(PumpVerdict::Complete)
        } else if status == RS_BLOCKED {
            if produced_total > 0 {
                Ok(PumpVerdict::Output)
            } else if self.source_eof {
                let e = io_err(IoErrorKind::UnexpectedEof);
                self.failed = Some(e);
                Err(e)
            } else {
                Ok(PumpVerdict::Again)
            }
        } else {
            let e = Error::from(status);
            self.failed = Some(e);
            Err(e)
        }
    }
}

/// What any outcome of `next_move` means. A reported failure is permanent:
/// either it was already recorded, and nothing changes, or a refill that was
/// actually needed — the staging was exhausted with the source not yet at
/// its end — just failed, and it is recorded now; in every other state the
/// call succeeds. A finished stream stays as it is. Before a step, the
/// staging buffer was refilled only if it was exhausted, and it is empty
/// afterwards only at the true end of the input.
pub open spec fn next_move_post<S: ByteSource>(
    pre: JobDriver<S>,
    post: JobDriver<S>,
    r: Result<PumpMove, Error>,
) -> bool {
    match r {
        Ok(PumpMove::Finish) => pre.done && post == pre && (pre.failed is None),
        Ok(PumpMove::Step { eof }) => {
            &&& !pre.done
            &&& (pre.failed is None) && (post.failed is None)
            &&& eof == post.source_eof
            &&& (post.pending_view().len() > 0 || post.source_eof)
            &&& (pre.pending_view().len() > 0 ==> post == pre)
            &&& (pre.source_eof ==> post == pre)
        },
        Err(e) => {
            &&& post.failed == Some(e)
            &&& (pre.failed == Some(e) && post == pre || (pre.failed is None) && (e matches
            Error::Io(_)) && post.done == pre.done && post.source_eof == pre.source_eof
                && post.pending_view() == pre.pending_view())
            &&& ((pre.failed is None) ==> !pre.done && pre.pending_view().len() == 0
                && !pre.source_eof)
        },
    }
}

/// Law: a stream truncated mid-record or mid-opcode never yields a silent
/// success. A verdict is a success only when the engine reported completion
/// or asked for more input while more input or output was possible; blocked
/// at the true end of input with nothing produced, and likewise the engine's
/// own input-ended status, give exactly the unexpected-end-of-input error.
pub proof fn lemma_truncation_is_never_silent(
    source_eof: bool,
    produced_total: int,
    status: i32,
)
    ensures
        ((step_verdict(source_eof, produced_total, status) is Ok) ==> status == RS_DONE || status
            == RS_BLOCKED),
        (source_eof && produced_total == 0 && status == RS_BLOCKED ==> step_verdict(
            source_eof,
            produced_total,
            status,
        ) == Err::<PumpVerdict, Error>(Error::Io(IoErrorKind::UnexpectedEof))),
        (status == RS_INPUT_ENDED ==> step_verdict(source_eof, produced_total, status) == Err::<
            PumpVerdict,
            Error,
        >(Error::Io(IoErrorKind::UnexpectedEof))),
{
}

} // verus!
