use vstd::prelude::*;

use crate::error::IoErrorKind;

verus! {

/// Largest number of bytes one refill of a staging buffer asks a source for.
pub const CHUNK_LEN: usize = 8192;

/// What a successful chunk read means: the chunk is the next prefix of the
/// stream, the source moves past it, and an empty chunk comes only at the
/// true end of the stream.
pub open spec fn chunk_read_ok(pre: Seq<u8>, post: Seq<u8>, chunk: Seq<u8>) -> bool {
    &&& chunk.len() <= pre.len()
    &&& chunk == pre.take(chunk.len() as int)
    &&& post == pre.skip(chunk.len() as int)
    &&& (chunk.len() == 0 ==> pre.len() == 0)
}

/// What any outcome of a chunk read means: on success the chunk is the next
/// prefix of the stream, on failure the stream is left as it was.
pub open spec fn chunk_read_post(
    pre: Seq<u8>,
    post: Seq<u8>,
    r: Result<Vec<u8>, IoErrorKind>,
) -> bool {
    match r {
        Ok(chunk) => chunk_read_ok(pre, post, chunk@),
        Err(_) => post == pre,
    }
}

/// An ordinary pull byte source: it yields its bytes strictly in order, one
/// chunk at a time, with no reordering or lookahead.
pub trait ByteSource: Sized {
    /// The bytes this source will yield from here on, in order. An impl
    /// outside the verified world leaves the default, about which nothing
    /// is known.
    open spec fn bytes(&self) -> Seq<u8> {
        Seq::empty()
    }

    /// Reads the next chunk of bytes. An empty chunk means end of stream.
    fn read_chunk(&mut self) -> (r: Result<Vec<u8>, IoErrorKind>)
        ensures
            chunk_read_post(old(self).bytes(), final(self).bytes(), r),
    ;
}

/// The span of `data` that starts at absolute offset `pos` and holds at most
/// `len` bytes, clipped to the end of `data`.
pub open spec fn span_of(data: Seq<u8>, pos: int, len: int) -> Seq<u8> {
    if pos < 0 || len <= 0 || pos >= data.len() {
        Seq::empty()
    } else if pos + len >= data.len() {
        data.skip(pos)
    } else {
        data.subrange(pos, pos + len)
    }
}

/// What any outcome of a random-access read means: a successful read is the
/// requested span of the contents, clipped only at their true end.
pub open spec fn span_read_post(
    data: Seq<u8>,
    pos: int,
    len: int,
    r: Result<Vec<u8>, IoErrorKind>,
) -> bool {
    match r {
        Ok(v) => v@ == span_of(data, pos, len),
        Err(_) => true,
    }
}

/// A randomly-addressable byte source: it serves a span of bytes at any
/// absolute offset on demand, without consuming anything.
pub trait RandomSource: Sized {
    /// The whole addressable contents of this source. An impl outside the
    /// verified world leaves the default, about which nothing is known.
    open spec fn data(&self) -> Seq<u8> {
        Seq::empty()
    }

    /// Reads up to `len` bytes starting at absolute offset `pos`.
    fn read_at(&mut self, pos: u64, len: usize) -> (r: Result<Vec<u8>, IoErrorKind>)
        ensures
            final(self).data() == old(self).data(),
            span_read_post(old(self).data(), pos as int, len as int, r),
    ;
}

/// An in-memory byte source over an owned buffer, readable both as a pull
/// stream and at random offsets.
pub struct MemSource {
    data: Vec<u8>,
    pos: usize,
}

impl MemSource {
    #[verifier::type_invariant]
    spec fn wf(self) -> bool {
        self.pos <= self.data@.len()
    }

    /// Wraps an owned buffer; the pull cursor starts at the first byte.
    pub fn new(data: Vec<u8>) -> (r: Self)
        ensures
            r.bytes() == data@,
            r.data() == data@,
    {
        let r = MemSource { data, pos: 0 };
        proof {
            assert(r.bytes() =~= r.data@);
        }
        r
    }

    /// Unwraps this source, returning the whole underlying buffer.
    pub fn into_inner(self) -> (r: Vec<u8>)
        ensures
            r@ == self.data(),
    {
        self.data
    }
}

impl ByteSource for MemSource {
    closed spec fn bytes(&self) -> Seq<u8> {
        if self.pos <= self.data@.len() {
            self.data@.skip(self.pos as int)
        } else {
            Seq::empty()
        }
    }

    fn read_chunk(&mut self) -> (r: Result<Vec<u8>, IoErrorKind>)
        ensures
            (r is Ok),
    {
        proof {
            use_type_invariant(&*self);
        }
        let remaining = self.data.len() - self.pos;
        let k = if remaining < CHUNK_LEN {
            remaining
        } else {
            CHUNK_LEN
        };
        let s = vstd::slice::slice_subrange(self.data.as_slice(), self.pos, self.pos + k);
        let chunk = vstd::slice::slice_to_vec(s);
        let ghost prev = *self;
        self.pos = self.pos + k;
        proof {
            assert(chunk@ =~= prev.bytes().take(k as int));
            assert(self.bytes() =~= prev.bytes().skip(k as int));
        }
        Ok(chunk)
    }
}

impl RandomSource for MemSource {
    closed spec fn data(&self) -> Seq<u8> {
        self.data@
    }

    fn read_at(&mut self, pos: u64, len: usize) -> (r: Result<Vec<u8>, IoErrorKind>)
        ensures
            (r is Ok),
    {
        proof {
            use_type_invariant(&*self);
        }
        if pos >= self.data.len() as u64 || len == 0 {
            let v: Vec<u8> = Vec::new();
            proof {
                assert(v@ =~= span_of(self.data@, pos as int, len as int));
            }
            return Ok(v);
        }
        let start = pos as usize;
        let end = if len >= self.data.len() - start {
            self.data.len()
        } else {
            start + len
        };
        let s = vstd::slice::slice_subrange(self.data.as_slice(), start, end);
        let v = vstd::slice::slice_to_vec(s);
        proof {
            assert(v@ =~= span_of(self.data@, pos as int, len as int));
        }
        Ok(v)
    }
}

} // verus!
