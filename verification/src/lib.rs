//! Transparent support for compressed byte streams.
//!
//! The library sniffs a compression format from the leading magic bytes of a
//! stream without altering what a consumer of the stream will see, and wraps
//! raw streams in the matching codec adapter for reading or writing. The
//! concrete codecs are supplied by outside libraries and are reached only
//! through narrow trusted calls; everything around them — classification,
//! prefix replay, rewinding, dispatch and the error rules — is verified.

use vstd::prelude::*;

pub mod codec;
pub mod compression;
pub mod error;
pub mod level;
pub mod stream;

pub use crate::error::Error;

use crate::codec::{
    bzip_codec_laws, bzip_decoded, gzip_codec_laws, gzip_decoded, lzma_codec_laws, lzma_decoded,
    writer_accepted, writer_base, writer_format, writer_level, Codecs, Writer,
};
use crate::compression::{spec_classify, Format};
use crate::level::Level;
use crate::stream::{
    seek_bytes, seek_pos, sink_bytes, stream_bytes, InputStream, OutputStream, SeekStream,
};

verus! {

/// Finds the compression format of a stream from its magic bytes.
///
/// Hands back a reconstructed stream that yields the original bytes in full
/// — detection is transparent to the consumer — together with the detected
/// format. Unrecognised content is tagged `Format::No`, never an error. A
/// stream that ends before the fifth byte fails as too short, and only such
/// a stream can; any other failure of the underlying read keeps its cause.
pub fn sniff(in_stream: InputStream) -> (r: Result<(InputStream, Format), Error>)
    ensures
        r matches Ok((out, f)) ==> stream_bytes(in_stream).len() >= 5
            && stream_bytes(out) == stream_bytes(in_stream)
            && f == spec_classify(stream_bytes(in_stream)),
        stream_bytes(in_stream).len() < 5 ==> r is Err,
        r matches Err(e) ==> e is FileTooShort || e is Io,
        r matches Err(e) ==> (e is FileTooShort ==> stream_bytes(in_stream).len() < 5),
{
    let ghost orig = stream_bytes(in_stream);
    let (first_bytes, rest) = match compression::get_first_five(in_stream) {
        Ok(p) => p,
        Err(e) => {
            return Err(e);
        },
    };
    let f = compression::bytes2type(first_bytes);
    let mut replay: Vec<u8> = Vec::new();
    replay.push(first_bytes[0]);
    replay.push(first_bytes[1]);
    replay.push(first_bytes[2]);
    replay.push(first_bytes[3]);
    replay.push(first_bytes[4]);
    proof {
        assert(replay@ =~= first_bytes@);
    }
    let cursor = InputStream::from_vec(replay);
    let out = stream::concat_streams(cursor, rest);
    proof {
        assert(stream_bytes(out) =~= orig);
        compression::lemma_classify_prefix(orig);
    }
    Ok((out, f))
}

/// Finds the compression format of a repositionable stream from its magic
/// bytes, rewinding instead of re-buffering.
///
/// The stream itself is handed back with its contents and read position
/// exactly as the caller left them, together with the detected format.
/// A stream that ends before five more bytes is rejected as too short, and
/// only such a stream can be; any other read failure, and a failure to
/// record or restore the position, keeps its cause as an `Error::Io`.
pub fn sniff_seek<S: std::io::Read + std::io::Seek>(in_stream: SeekStream<S>) -> (r: Result<
    (SeekStream<S>, Format),
    Error,
>)
    ensures
        r matches Ok((out, f)) ==> seek_bytes(out) == seek_bytes(in_stream)
            && seek_pos(out) == seek_pos(in_stream)
            && seek_pos(in_stream) + 5 <= seek_bytes(in_stream).len()
            && f == spec_classify(
            seek_bytes(in_stream).subrange(
                seek_pos(in_stream) as int,
                seek_pos(in_stream) as int + 5,
            ),
        ),
        seek_bytes(in_stream).len() < seek_pos(in_stream) + 5 ==> r is Err,
        r matches Err(e) ==> e is FileTooShort || e is Io,
        r matches Err(e) ==> (e is FileTooShort ==> seek_bytes(in_stream).len() < seek_pos(
            in_stream,
        ) + 5),
{
    let mut s = in_stream;
    let start = match stream::tell_raw(&mut s) {
        Ok(p) => p,
        Err(e) => {
            return Err(Error::Io(e));
        },
    };
    let first_bytes = match stream::read_exact_five_seek(&mut s) {
        Ok(b) => b,
        Err(e) => {
            return Err(e);
        },
    };
    match stream::seek_to_raw(&mut s, start) {
        Ok(u) => u,
        Err(e) => {
            return Err(Error::Io(e));
        },
    };
    let f = compression::bytes2type(first_bytes);
    Ok((s, f))
}

/// Builds a readable stream that decodes transparently, using exactly the
/// codecs present in `codecs`: sniffs the format, dispatches to the matching
/// decoder, and hands plain data onward unchanged after the sniff. A
/// detected format whose codec is absent is refused with
/// `Error::FeatureDisabled`, never passed through untouched. A stream that
/// ends before the fifth byte fails as too short, and only such a stream
/// can; any other read failure keeps its cause.
pub fn open_reader(codecs: &Codecs, in_stream: InputStream) -> (r: Result<
    (InputStream, Format),
    Error,
>)
    ensures
        r matches Ok((out, f)) ==> stream_bytes(in_stream).len() >= 5
            && f == spec_classify(stream_bytes(in_stream))
            && codecs.spec_enabled(f)
            && (f is No ==> stream_bytes(out) == stream_bytes(in_stream))
            && (f is Gzip ==> stream_bytes(out) == gzip_decoded(stream_bytes(in_stream)))
            && (f is Bzip ==> stream_bytes(out) == bzip_decoded(stream_bytes(in_stream)))
            && (f is Lzma ==> stream_bytes(out) == lzma_decoded(stream_bytes(in_stream))),
        r matches Ok((out, f)) ==> (f is Gzip ==> gzip_codec_laws()) && (f is Bzip
            ==> bzip_codec_laws()) && (f is Lzma ==> lzma_codec_laws()),
        stream_bytes(in_stream).len() < 5 ==> r is Err,
        r matches Err(Error::FeatureDisabled) ==> stream_bytes(in_stream).len() >= 5
            && !codecs.spec_enabled(spec_classify(stream_bytes(in_stream))),
        r matches Err(e) ==> (e is FileTooShort ==> stream_bytes(in_stream).len() < 5),
{
    let (s, f) = match sniff(in_stream) {
        Ok(p) => p,
        Err(e) => {
            return Err(e);
        },
    };
    if !codecs.enabled(f) {
        return Err(Error::FeatureDisabled);
    }
    match f {
        Format::Gzip => Ok((codec::new_gz_decoder(s), Format::Gzip)),
        Format::Bzip => Ok((codec::new_bz2_decoder(s), Format::Bzip)),
        Format::Lzma => Ok((codec::new_lzma_decoder(s), Format::Lzma)),
        Format::No => Ok((s, Format::No)),
    }
}

/// Builds a readable stream that decodes transparently, with every supported
/// codec present, and reports the detected format of the original stream. A
/// stream that ends before the fifth byte fails as too short, and only such
/// a stream can; any other read failure keeps its cause.
pub fn get_reader(in_stream: InputStream) -> (r: Result<(InputStream, Format), Error>)
    ensures
        r matches Ok((out, f)) ==> stream_bytes(in_stream).len() >= 5
            && f == spec_classify(stream_bytes(in_stream))
            && (f is No ==> stream_bytes(out) == stream_bytes(in_stream))
            && (f is Gzip ==> stream_bytes(out) == gzip_decoded(stream_bytes(in_stream)))
            && (f is Bzip ==> stream_bytes(out) == bzip_decoded(stream_bytes(in_stream)))
            && (f is Lzma ==> stream_bytes(out) == lzma_decoded(stream_bytes(in_stream))),
        r matches Ok((out, f)) ==> (f is Gzip ==> gzip_codec_laws()) && (f is Bzip
            ==> bzip_codec_laws()) && (f is Lzma ==> lzma_codec_laws()),
        stream_bytes(in_stream).len() < 5 ==> r is Err,
        r matches Err(e) ==> e is FileTooShort || e is Io,
        r matches Err(e) ==> (e is FileTooShort ==> stream_bytes(in_stream).len() < 5),
{
    let codecs = Codecs::all();
    open_reader(&codecs, in_stream)
}

/// Builds a writer that encodes what is written to it in `format` at
/// `level` into the supplied sink, using exactly the codecs present in
/// `codecs`. Plain data goes to the sink unchanged; a format whose codec is
/// absent is refused with `Error::FeatureDisabled`, never written
/// uncompressed, and that is the only failure.
pub fn open_writer(codecs: &Codecs, out_stream: OutputStream, format: Format, level: Level) -> (r:
    Result<Writer, Error>)
    ensures
        r is Ok <==> codecs.spec_enabled(format),
        r matches Ok(w) ==> writer_format(w) == format
            && writer_accepted(w) == (if format is No {
            sink_bytes(out_stream)
        } else {
            Seq::<u8>::empty()
        })
            && writer_base(w) == (if format is No {
            Seq::<u8>::empty()
        } else {
            sink_bytes(out_stream)
        })
            && (!(format is No) ==> writer_level(w) == level.spec_value()),
        !codecs.spec_enabled(format) ==> r matches Err(Error::FeatureDisabled),
{
    match format {
        Format::Gzip => {
            if codecs.gzip {
                Ok(Writer::Gzip(codec::gz_new(out_stream, level.value())))
            } else {
                Err(Error::FeatureDisabled)
            }
        },
        Format::Bzip => {
            if codecs.bzip {
                Ok(Writer::Bzip(codec::bz_new(out_stream, level.value())))
            } else {
                Err(Error::FeatureDisabled)
            }
        },
        Format::Lzma => {
            if codecs.lzma {
                Ok(Writer::Lzma(codec::xz_new(out_stream, level.value())))
            } else {
                Err(Error::FeatureDisabled)
            }
        },
        Format::No => Ok(Writer::Plain(out_stream)),
    }
}

/// Builds a writer that encodes what is written to it in `format` at
/// `level` into the supplied sink, with every supported codec present; it
/// never fails.
pub fn get_writer(out_stream: OutputStream, format: Format, level: Level) -> (r: Result<
    Writer,
    Error,
>)
    ensures
        r is Ok,
        r matches Ok(w) ==> writer_format(w) == format
            && writer_accepted(w) == (if format is No {
            sink_bytes(out_stream)
        } else {
            Seq::<u8>::empty()
        })
            && writer_base(w) == (if format is No {
            Seq::<u8>::empty()
        } else {
            sink_bytes(out_stream)
        })
            && (!(format is No) ==> writer_level(w) == level.spec_value()),
{
    let codecs = Codecs::all();
    open_writer(&codecs, out_stream, format, level)
}

} // verus!



