//! The two compression codecs of chunk records.
//!
//! The byte in front of a stored record names its codec: 1 for gzip, 2 for
//! zlib. Records are written with zlib.

use crate::error::{Error, SchemaFault};
use std::io::{Read, Write};
use vstd::prelude::*;
use vstd::slice::slice_subrange;

verus! {

/// The codec id of gzip.
pub const GZIP_ID: u8 = 1;

/// The codec id of zlib.
pub const ZLIB_ID: u8 = 2;

/// A compression codec of chunk records.
#[derive(Clone, Copy, Debug, PartialEq, Eq, Structural, Hash)]
pub enum Codec {
    Gzip,
    Zlib,
}

#[verifier::external_type_specification]
#[verifier::external_body]
pub struct ExIoError(std::io::Error);

/// What a zlib stream inflates to, or `None` where the bytes are no such
/// stream.
pub uninterp spec fn zlib_inflated(data: Seq<u8>) -> Option<Seq<u8>>;

/// What a gzip member inflates to, or `None` where the bytes are no such
/// member.
pub uninterp spec fn gzip_inflated(data: Seq<u8>) -> Option<Seq<u8>>;

/// The zlib stream that the default compression level makes of `data`, or
/// `None` where the encoder fails on it.
pub uninterp spec fn zlib_deflated(data: Seq<u8>) -> Option<Seq<u8>>;

/// `flate2::read::ZlibDecoder`, read to its end: the inflated bytes of the
/// stream in `data`, or the decoder's error.
#[verifier::external_body]
fn zlib_inflate(data: &[u8]) -> (r: Result<Vec<u8>, std::io::Error>)
    ensures
        match r {
            Ok(bytes) => zlib_inflated(data@) == Some(bytes@),
            Err(_) => zlib_inflated(data@) is None,
        },
{
    let mut out = Vec::new();
    flate2::read::ZlibDecoder::new(data).read_to_end(&mut out).map(|_| out)
}

/// `flate2::read::GzDecoder`, read to its end: the inflated bytes of the
/// gzip member in `data`, or the decoder's error.
#[verifier::external_body]
fn gzip_inflate(data: &[u8]) -> (r: Result<Vec<u8>, std::io::Error>)
    ensures
        match r {
            Ok(bytes) => gzip_inflated(data@) == Some(bytes@),
            Err(_) => gzip_inflated(data@) is None,
        },
{
    let mut out = Vec::new();
    flate2::read::GzDecoder::new(data).read_to_end(&mut out).map(|_| out)
}

/// `flate2::write::ZlibEncoder` at the default level, writing to a vector,
/// fed `data` and finished: the zlib stream, or the encoder's error. Which
/// of the two it is depends on `data` alone.
#[verifier::external_body]
fn zlib_deflate(data: &[u8]) -> (r: Result<Vec<u8>, std::io::Error>)
    ensures
        match r {
            Ok(bytes) => zlib_deflated(data@) == Some(bytes@),
            Err(_) => zlib_deflated(data@) is None,
        },
{
    let mut encoder = flate2::write::ZlibEncoder::new(Vec::new(), flate2::Compression::default());
    encoder.write_all(data).and_then(|_| encoder.finish())
}

impl Codec {
    /// The codec that a codec id names.
    pub open spec fn spec_from_id(id: u8) -> Result<Codec, Error> {
        if id == GZIP_ID {
            Ok(Codec::Gzip)
        } else if id == ZLIB_ID {
            Ok(Codec::Zlib)
        } else {
            Err(Error::InvalidCompression(id))
        }
    }

    /// Selects the codec by its id: 1 is gzip, 2 is zlib, and any other id
    /// is refused.
    pub fn from_id(id: u8) -> (r: Result<Codec, Error>)
        ensures
            r == Self::spec_from_id(id),
    {
        if id == GZIP_ID {
            Ok(Codec::Gzip)
        } else if id == ZLIB_ID {
            Ok(Codec::Zlib)
        } else {
            Err(Error::InvalidCompression(id))
        }
    }

    /// The id of this codec.
    pub fn id(self) -> (r: u8)
        ensures
            Self::spec_from_id(r) == Ok::<Codec, Error>(self),
            r == match self {
                Codec::Gzip => GZIP_ID,
                Codec::Zlib => ZLIB_ID,
            },
    {
        match self {
            Codec::Gzip => GZIP_ID,
            Codec::Zlib => ZLIB_ID,
        }
    }

    /// What `data` inflates to under this codec.
    pub open spec fn inflated(self, data: Seq<u8>) -> Option<Seq<u8>> {
        match self {
            Codec::Gzip => gzip_inflated(data),
            Codec::Zlib => zlib_inflated(data),
        }
    }

    /// Inflates `data`, or reports a record that is not of the codec.
    pub fn inflate(self, data: &[u8]) -> (r: Result<Vec<u8>, Error>)
        ensures
            match self.inflated(data@) {
                Some(bytes) => r is Ok && r->Ok_0@ == bytes,
                None => r == Err::<Vec<u8>, Error>(
                    Error::MalformedSchema(SchemaFault::Compression),
                ),
            },
    {
        let inflated = match self {
            Codec::Gzip => gzip_inflate(data),
            Codec::Zlib => zlib_inflate(data),
        };
        match inflated {
            Ok(bytes) => Ok(bytes),
            Err(_) => Err(Error::MalformedSchema(SchemaFault::Compression)),
        }
    }
}

/// What reading a stored record returns: the inflated record.
pub open spec fn payload_outcome(buf: Seq<u8>) -> Result<Seq<u8>, Error> {
    if buf.len() == 0 {
        Err(Error::ChunkTooLarge(0))
    } else {
        match Codec::spec_from_id(buf[0]) {
            Err(e) => Err(e),
            Ok(codec) => match codec.inflated(buf.subrange(1, buf.len() as int)) {
                Some(bytes) => Ok(bytes),
                None => Err(Error::MalformedSchema(SchemaFault::Compression)),
            },
        }
    }
}

/// Reads a stored record: the first byte selects the codec, the rest is
/// inflated with it.
pub fn decode_payload(buf: &[u8]) -> (r: Result<Vec<u8>, Error>)
    ensures
        match payload_outcome(buf@) {
            Ok(bytes) => r is Ok && r->Ok_0@ == bytes,
            Err(e) => r == Err::<Vec<u8>, Error>(e),
        },
{
    if buf.len() == 0 {
        return Err(Error::ChunkTooLarge(0));
    }
    // The compression type is indicated by a byte.
    // 1 corresponds to gzip compression, while 2
    // corresponds to zlib.
    let compression_type = buf[0];
    let codec = match Codec::from_id(compression_type) {
        Ok(codec) => codec,
        Err(e) => {
            return Err(e);
        },
    };
    let rest = slice_subrange(buf, 1, buf.len());
    codec.inflate(rest)
}

/// Frames a record for storage: the id of zlib, then the zlib stream of
/// the record. Reports `Io` where the encoder fails on the record.
pub fn encode_payload(record: &[u8]) -> (r: Result<Vec<u8>, Error>)
    ensures
        match zlib_deflated(record@) {
            Some(stream) => r is Ok && r->Ok_0@ == seq![ZLIB_ID] + stream,
            None => r == Err::<Vec<u8>, Error>(Error::Io),
        },
{
    let mut buf: Vec<u8> = Vec::with_capacity(4096);
    // Compression type: zlib
    buf.push(ZLIB_ID);
    match zlib_deflate(record) {
        Ok(mut stream) => {
            buf.append(&mut stream);
            Ok(buf)
        },
        Err(_) => Err(Error::Io),
    }
}

/// Framing and reading fit together: a record framed as `encode_payload`
/// frames it, the id of zlib and then `stream`, is read as what `stream`
/// inflates to. So a written record is read back unchanged exactly where
/// inflating the stream that the encoder made of it gives the record.
pub proof fn law_framed_record_is_inflated(stream: Seq<u8>)
    ensures
        payload_outcome(seq![ZLIB_ID] + stream) == match zlib_inflated(stream) {
            Some(bytes) => Ok::<Seq<u8>, Error>(bytes),
            None => Err::<Seq<u8>, Error>(Error::MalformedSchema(SchemaFault::Compression)),
        },
{
    let framed = seq![ZLIB_ID] + stream;
    assert(framed[0] == ZLIB_ID);
    assert(framed.subrange(1, framed.len() as int) =~= stream);
}

} // verus!
