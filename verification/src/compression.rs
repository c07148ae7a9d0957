//! Magic-byte classification: the pure mapping from a five-byte prefix to
//! the compression format it announces, and the exact five-byte read that
//! feeds it.

use vstd::prelude::*;

use crate::error::Error;
use crate::stream::{stream_bytes, InputStream};

verus! {

/// The compression format of a stream: gzip, bzip2, lzma (xz container), or
/// plain uncompressed data.
#[derive(Debug, PartialEq, Eq, Clone, Copy, Structural)]
pub enum Format {
    Gzip,
    Bzip,
    Lzma,
    No,
}

/// The gzip signature: the first two bytes are `0x1f 0x8b`.
pub open spec fn is_gzip_magic(b: Seq<u8>) -> bool {
    b.len() >= 2 && b[0] == 0x1f && b[1] == 0x8b
}

/// The bzip2 signature: the first two bytes are `0x42 0x5a`.
pub open spec fn is_bzip_magic(b: Seq<u8>) -> bool {
    b.len() >= 2 && b[0] == 0x42 && b[1] == 0x5a
}

/// The xz container signature: the first five bytes are
/// `0xfd 0x37 0x7a 0x58 0x5a`; all five are required.
pub open spec fn is_lzma_magic(b: Seq<u8>) -> bool {
    b.len() >= 5 && b[0] == 0xfd && b[1] == 0x37 && b[2] == 0x7a && b[3] == 0x58 && b[4] == 0x5a
}

/// What a five-byte (or longer) prefix classifies as: the first matching
/// signature wins, and anything unmatched is plain data.
pub open spec fn spec_classify(b: Seq<u8>) -> Format {
    if b.len() < 5 {
        Format::No
    } else if is_gzip_magic(b) {
        Format::Gzip
    } else if is_bzip_magic(b) {
        Format::Bzip
    } else if is_lzma_magic(b) {
        Format::Lzma
    } else {
        Format::No
    }
}

/// A prefix of at least five bytes that starts with none of the three magic
/// signatures always classifies as plain data: classification cannot fail,
/// and it never guesses a format.
pub proof fn lemma_classify_unmatched(b: Seq<u8>)
    requires
        b.len() >= 5,
        !is_gzip_magic(b),
        !is_bzip_magic(b),
        !is_lzma_magic(b),
    ensures
        spec_classify(b) == Format::No,
{
}

/// Classification only reads the first five bytes: a prefix of at least five
/// bytes classifies exactly as the whole sequence does.
pub proof fn lemma_classify_prefix(b: Seq<u8>)
    requires
        b.len() >= 5,
    ensures
        spec_classify(b.take(5)) == spec_classify(b),
{
    assert(b.take(5).len() == 5);
    assert(b.take(5)[0] == b[0]);
    assert(b.take(5)[1] == b[1]);
    assert(b.take(5)[2] == b[2]);
    assert(b.take(5)[3] == b[3]);
    assert(b.take(5)[4] == b[4]);
}

/// Maps a five-byte magic prefix to the format it announces. Pure and total:
/// unmatched bytes yield `Format::No`, never a failure.
pub fn bytes2type(bytes: [u8; 5]) -> (f: Format)
    ensures
        f == spec_classify(bytes@),
{
    if bytes[0] == 0x1f && bytes[1] == 0x8b {
        Format::Gzip
    } else if bytes[0] == 0x42 && bytes[1] == 0x5a {
        Format::Bzip
    } else if bytes[0] == 0xfd && bytes[1] == 0x37 && bytes[2] == 0x7a && bytes[3] == 0x58
        && bytes[4] == 0x5a {
        Format::Lzma
    } else {
        Format::No
    }
}

/// Reads exactly the five magic bytes from the front of a stream. On success
/// hands back the bytes and the stream, which then goes on after them, with
/// no partial result otherwise. A stream that ends before the fifth byte is
/// rejected as too short; any other failure of the read keeps its cause.
pub fn get_first_five(in_stream: InputStream) -> (r: Result<([u8; 5], InputStream), Error>)
    ensures
        r matches Ok((b, rest)) ==> stream_bytes(in_stream).len() >= 5
            && b@ == stream_bytes(in_stream).take(5)
            && stream_bytes(rest) == stream_bytes(in_stream).skip(5),
        stream_bytes(in_stream).len() < 5 ==> r is Err,
        r matches Err(e) ==> e is FileTooShort || e is Io,
        r matches Err(e) ==> (e is FileTooShort ==> stream_bytes(in_stream).len() < 5),
{
    let mut s = in_stream;
    match crate::stream::read_exact_five(&mut s) {
        Ok(b) => Ok((b, s)),
        Err(e) => Err(e),
    }
}

} // verus!
