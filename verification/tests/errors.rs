use librsync::{Error, IoErrorKind, SignatureType, io_err};

#[test]
fn status_codes_map_to_the_taxonomy() {
    assert_eq!(Error::from(1), Error::Io(IoErrorKind::WouldBlock));
    assert_eq!(Error::from(100), Error::Io(IoErrorKind::Other));
    assert_eq!(Error::from(102), Error::Mem);
    assert_eq!(Error::from(103), Error::Io(IoErrorKind::UnexpectedEof));
    assert_eq!(Error::from(104), Error::BadMagic);
    assert_eq!(Error::from(105), Error::Unimplemented);
    assert_eq!(Error::from(106), Error::Io(IoErrorKind::InvalidData));
    assert_eq!(Error::from(107), Error::Internal);
    assert_eq!(Error::from(108), Error::Io(IoErrorKind::InvalidInput));
}

#[test]
fn unknown_codes_are_preserved() {
    assert_eq!(Error::from(2), Error::Unknown(2));
    assert_eq!(Error::from(77), Error::Unknown(77));
    assert_eq!(Error::from(101), Error::Unknown(101));
    assert_eq!(Error::from(-5), Error::Unknown(-5));
}

#[test]
fn io_err_wraps_the_kind() {
    assert_eq!(io_err(IoErrorKind::InvalidData), Error::Io(IoErrorKind::InvalidData));
    assert_eq!(io_err(IoErrorKind::UnexpectedEof), Error::Io(IoErrorKind::UnexpectedEof));
}

#[test]
fn descriptions_name_each_error() {
    assert_eq!(Error::Mem.description(), "out of memory");
    assert_eq!(Error::BadMagic.description(), "bad magic number given");
    assert_eq!(Error::Unimplemented.description(), "unimplemented feature");
    assert_eq!(Error::Internal.description(), "internal error");
    assert_eq!(Error::Unknown(42).description(), "unknown error from librsync");
    assert_eq!(
        Error::Io(IoErrorKind::WouldBlock).description(),
        "blocked waiting for more data"
    );
    assert_eq!(
        Error::Io(IoErrorKind::UnexpectedEof).description(),
        "unexpected end of input file"
    );
    assert_eq!(
        Error::Io(IoErrorKind::InvalidData).description(),
        "unbelievable value in stream"
    );
    assert_eq!(Error::Io(IoErrorKind::InvalidInput).description(), "bad parameter");
    assert_eq!(
        Error::Io(IoErrorKind::Other).description(),
        "unknown IO error from librsync"
    );
}

#[test]
fn signature_magic_numbers() {
    assert_eq!(SignatureType::MD4.as_raw(), 0x7273_0136);
    assert_eq!(SignatureType::Blake2.as_raw(), 0x7273_0137);
    assert_eq!(librsync::RS_MD4_SIG_MAGIC, 0x7273_0136);
    assert_eq!(librsync::RS_BLAKE2_SIG_MAGIC, 0x7273_0137);
    assert_eq!(librsync::RS_DEFAULT_BLOCK_LEN, 2048);
}
