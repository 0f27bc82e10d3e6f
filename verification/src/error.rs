use vstd::prelude::*;

verus! {

/// Status code the engine reports when a job has run to completion.
pub const RS_DONE: i32 = 0;

/// Status code the engine reports when it needs more input before it can make
/// further progress. Inside a pull call it is never surfaced: the pump
/// absorbs it by refilling, or promotes it to an unexpected-end-of-input
/// error once the source is exhausted.
pub const RS_BLOCKED: i32 = 1;

/// Status code for a failure of an underlying source or sink.
pub const RS_IO_ERROR: i32 = 100;

/// Status code for a failure to allocate required working memory.
pub const RS_MEM_ERROR: i32 = 102;

/// Status code for input that ended where the stream format needed more.
pub const RS_INPUT_ENDED: i32 = 103;

/// Status code for a stream header that matches no recognized format.
pub const RS_BAD_MAGIC: i32 = 104;

/// Status code for a requested feature this engine build does not support.
pub const RS_UNIMPLEMENTED: i32 = 105;

/// Status code for corrupt stream content.
pub const RS_CORRUPT: i32 = 106;

/// Status code for an engine-reported invariant violation.
pub const RS_INTERNAL_ERROR: i32 = 107;

/// Status code for a bad parameter.
pub const RS_PARAM_ERROR: i32 = 108;

/// The descriptive kind of a typed IO-style error.
#[derive(Clone, Copy, Debug, PartialEq, Eq, Structural)]
pub enum IoErrorKind {
    /// The engine was blocked waiting for more data.
    WouldBlock,
    /// An IO failure with no more specific classification.
    Other,
    /// The input stream ended in the middle of a record or opcode.
    UnexpectedEof,
    /// Corrupt content in a signature or delta stream.
    InvalidData,
    /// A parameter outside the range the engine accepts.
    InvalidInput,
}

/// Enumeration of all possible errors in this crate.
#[derive(Clone, Copy, Debug, PartialEq, Eq, Structural)]
pub enum Error {
    /// An IO-style error with a descriptive kind.
    Io(IoErrorKind),
    /// Out of memory.
    Mem,
    /// Bad magic number at start of stream.
    BadMagic,
    /// The feature is not available yet.
    Unimplemented,
    /// Probably a library bug.
    Internal,
    /// All the other error numbers, preserved for forward compatibility.
    Unknown(i32),
}

/// The error that stands for each raw engine status code.
pub open spec fn error_of_code(code: i32) -> Error {
    if code == RS_BLOCKED {
        Error::Io(IoErrorKind::WouldBlock)
    } else if code == RS_IO_ERROR {
        Error::Io(IoErrorKind::Other)
    } else if code == RS_MEM_ERROR {
        Error::Mem
    } else if code == RS_INPUT_ENDED {
        Error::Io(IoErrorKind::UnexpectedEof)
    } else if code == RS_BAD_MAGIC {
        Error::BadMagic
    } else if code == RS_UNIMPLEMENTED {
        Error::Unimplemented
    } else if code == RS_CORRUPT {
        Error::Io(IoErrorKind::InvalidData)
    } else if code == RS_INTERNAL_ERROR {
        Error::Internal
    } else if code == RS_PARAM_ERROR {
        Error::Io(IoErrorKind::InvalidInput)
    } else {
        Error::Unknown(code)
    }
}

impl From<i32> for Error {
    /// Maps a raw engine status code to the error taxonomy.
    fn from(code: i32) -> (r: Error) {
        if code == RS_BLOCKED {
            Error::Io(IoErrorKind::WouldBlock)
        } else if code == RS_IO_ERROR {
            Error::Io(IoErrorKind::Other)
        } else if code == RS_MEM_ERROR {
            Error::Mem
        } else if code == RS_INPUT_ENDED {
            Error::Io(IoErrorKind::UnexpectedEof)
        } else if code == RS_BAD_MAGIC {
            Error::BadMagic
        } else if code == RS_UNIMPLEMENTED {
            Error::Unimplemented
        } else if code == RS_CORRUPT {
            Error::Io(IoErrorKind::InvalidData)
        } else if code == RS_INTERNAL_ERROR {
            Error::Internal
        } else if code == RS_PARAM_ERROR {
            Error::Io(IoErrorKind::InvalidInput)
        } else {
            Error::Unknown(code)
        }
    }
}

impl vstd::std_specs::convert::FromSpecImpl<i32> for Error {
    open spec fn obeys_from_spec() -> bool {
        true
    }

    open spec fn from_spec(code: i32) -> Error {
        error_of_code(code)
    }
}

/// Builds the typed IO-style error of the given kind.
pub fn io_err(kind: IoErrorKind) -> (r: Error)
    ensures
        r == Error::Io(kind),
{
    Error::Io(kind)
}

/// The words that describe each error.
pub open spec fn description_of(e: Error) -> Seq<char> {
    match e {
        Error::Io(IoErrorKind::WouldBlock) => "blocked waiting for more data"@,
        Error::Io(IoErrorKind::Other) => "unknown IO error from librsync"@,
        Error::Io(IoErrorKind::UnexpectedEof) => "unexpected end of input file"@,
        Error::Io(IoErrorKind::InvalidData) => "unbelievable value in stream"@,
        Error::Io(IoErrorKind::InvalidInput) => "bad parameter"@,
        Error::Mem => "out of memory"@,
        Error::BadMagic => "bad magic number given"@,
        Error::Unimplemented => "unimplemented feature"@,
        Error::Internal => "internal error"@,
        Error::Unknown(_) => "unknown error from librsync"@,
    }
}

impl Error {
    /// A short description of the error.
    pub fn description(&self) -> (r: &'static str)
        ensures
            r@ == description_of(*self),
    {
        match *self {
            Error::Io(IoErrorKind::WouldBlock) => "blocked waiting for more data",
            Error::Io(IoErrorKind::Other) => "unknown IO error from librsync",
            Error::Io(IoErrorKind::UnexpectedEof) => "unexpected end of input file",
            Error::Io(IoErrorKind::InvalidData) => "unbelievable value in stream",
            Error::Io(IoErrorKind::InvalidInput) => "bad parameter",
            Error::Mem => "out of memory",
            Error::BadMagic => "bad magic number given",
            Error::Unimplemented => "unimplemented feature",
            Error::Internal => "internal error",
            Error::Unknown(_) => "unknown error from librsync",
        }
    }
}

} // verus!
