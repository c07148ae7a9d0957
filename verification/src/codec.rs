//! The codec adapter registry and the trusted constructors that delegate
//! encoding and decoding to the outside codec libraries.

use vstd::prelude::*;

use crate::compression::Format;
use crate::error::Error;
use crate::stream::{sink_bytes, stream_bytes, InputStream, OutputStream};

verus! {

/// The codec adapter registry: which formats the build can actually encode
/// and decode. Plain data needs no codec and is always available.
///
/// An absent backend is represented here, so that asking for it yields
/// `Error::FeatureDisabled` instead of silently passing data through.
#[derive(Debug, Clone, Copy, PartialEq, Eq, Structural)]
pub struct Codecs {
    pub gzip: bool,
    pub bzip: bool,
    pub lzma: bool,
}

impl Codecs {
    /// Whether the registry holds a codec for `format`.
    pub open spec fn spec_enabled(self, format: Format) -> bool {
        match format {
            Format::Gzip => self.gzip,
            Format::Bzip => self.bzip,
            Format::Lzma => self.lzma,
            Format::No => true,
        }
    }

    /// The registry with every supported codec present.
    pub fn all() -> (c: Codecs)
        ensures
            c == (Codecs { gzip: true, bzip: true, lzma: true }),
    {
        Codecs { gzip: true, bzip: true, lzma: true }
    }

    /// Whether the registry holds a codec for `format`.
    pub fn enabled(&self, format: Format) -> (b: bool)
        ensures
            b == self.spec_enabled(format),
    {
        match format {
            Format::Gzip => self.gzip,
            Format::Bzip => self.bzip,
            Format::Lzma => self.lzma,
            Format::No => true,
        }
    }
}

/// What `flate2::read::MultiGzDecoder` decodes `input` to: every
/// independently finished gzip member in turn, as one continuous stream. A
/// function of the input bytes alone.
pub uninterp spec fn gzip_decoded(input: Seq<u8>) -> Seq<u8>;

/// What `bzip2::read::BzDecoder` decodes `input` to. A function of the input
/// bytes alone.
pub uninterp spec fn bzip_decoded(input: Seq<u8>) -> Seq<u8>;

/// What `xz2::read::XzDecoder` decodes `input` to. A function of the input
/// bytes alone.
pub uninterp spec fn lzma_decoded(input: Seq<u8>) -> Seq<u8>;

/// Relies on `flate2::read::MultiGzDecoder::new`: reading the result yields
/// the decoded form of the raw stream's bytes, each independently finished
/// gzip member in turn, as one continuous stream. Decoding inverts what the
/// gzip encoder produced: one member decodes to the data it encoded, and two
/// concatenated members decode to the concatenation of their data.
#[verifier::external_body]
pub(crate) fn new_gz_decoder(raw: InputStream) -> (r: InputStream)
    ensures
        stream_bytes(r) == gzip_decoded(stream_bytes(raw)),
        stream_bytes(r) == gzip_decoded(stream_bytes(raw)) ==> gzip_codec_laws(),
{
    InputStream { inner: Box::new(flate2::read::MultiGzDecoder::new(raw.inner)) }
}

/// Relies on `bzip2::read::BzDecoder::new`: reading the result yields the
/// decoded form of the raw stream's bytes, and decoding inverts what the
/// bzip2 encoder produced.
#[verifier::external_body]
pub(crate) fn new_bz2_decoder(raw: InputStream) -> (r: InputStream)
    ensures
        stream_bytes(r) == bzip_decoded(stream_bytes(raw)),
        stream_bytes(r) == bzip_decoded(stream_bytes(raw)) ==> bzip_codec_laws(),
{
    InputStream { inner: Box::new(bzip2::read::BzDecoder::new(raw.inner)) }
}

/// Relies on `xz2::read::XzDecoder::new`: reading the result yields the
/// decoded form of the raw stream's bytes, and decoding inverts what the xz
/// encoder produced.
#[verifier::external_body]
pub(crate) fn new_lzma_decoder(raw: InputStream) -> (r: InputStream)
    ensures
        stream_bytes(r) == lzma_decoded(stream_bytes(raw)),
        stream_bytes(r) == lzma_decoded(stream_bytes(raw)) ==> lzma_codec_laws(),
{
    InputStream { inner: Box::new(xz2::read::XzDecoder::new(raw.inner)) }
}

/// What `flate2::write::GzEncoder` encodes `data` to at compression level
/// `level`: one finished gzip member. A function of the data and the level
/// alone.
pub uninterp spec fn gzip_encoded(data: Seq<u8>, level: u32) -> Seq<u8>;

/// What `bzip2::write::BzEncoder` encodes `data` to at compression level
/// `level`: one finished bzip2 stream. A function of the data and the level
/// alone.
pub uninterp spec fn bzip_encoded(data: Seq<u8>, level: u32) -> Seq<u8>;

/// What `xz2::write::XzEncoder` encodes `data` to at preset `level`: one
/// finished xz stream. A function of the data and the level alone.
pub uninterp spec fn lzma_encoded(data: Seq<u8>, level: u32) -> Seq<u8>;

/// What writing `data` through a writer of format `f` at level `level`
/// delivers to the underlying sink once the writer is finished; plain data
/// passes through unchanged.
pub open spec fn spec_encoded(f: Format, data: Seq<u8>, level: u32) -> Seq<u8> {
    match f {
        Format::Gzip => gzip_encoded(data, level),
        Format::Bzip => bzip_encoded(data, level),
        Format::Lzma => lzma_encoded(data, level),
        Format::No => data,
    }
}

/// The documented laws of the gzip codec, as used by the contracts: every
/// encoded member carries the format's wire signature (it begins with the
/// two gzip magic bytes and is at least five bytes long), decoding inverts
/// encoding, and two concatenated members decode to the concatenation of
/// their data.
pub open spec fn gzip_codec_laws() -> bool {
    (forall|d: Seq<u8>, l: u32|
        (#[trigger] gzip_encoded(d, l)).len() >= 5 && gzip_encoded(d, l)[0] == 0x1f
            && gzip_encoded(d, l)[1] == 0x8b) && (forall|d: Seq<u8>, l: u32|
        gzip_decoded(#[trigger] gzip_encoded(d, l)) == d) && (forall|
        d1: Seq<u8>,
        l1: u32,
        d2: Seq<u8>,
        l2: u32,
    |
        #![trigger gzip_encoded(d1, l1), gzip_encoded(d2, l2)]
        gzip_decoded(gzip_encoded(d1, l1) + gzip_encoded(d2, l2)) == d1 + d2)
}

/// The documented laws of the bzip2 codec, as used by the contracts: every
/// encoded stream carries the format's wire signature (it begins with the
/// two bzip2 magic bytes and is at least five bytes long), and decoding
/// inverts encoding.
pub open spec fn bzip_codec_laws() -> bool {
    (forall|d: Seq<u8>, l: u32|
        (#[trigger] bzip_encoded(d, l)).len() >= 5 && bzip_encoded(d, l)[0] == 0x42
            && bzip_encoded(d, l)[1] == 0x5a) && (forall|d: Seq<u8>, l: u32|
        bzip_decoded(#[trigger] bzip_encoded(d, l)) == d)
}

/// The documented laws of the xz codec, as used by the contracts: every
/// encoded stream carries the format's wire signature (it begins with the
/// five xz magic bytes), and decoding inverts encoding.
pub open spec fn lzma_codec_laws() -> bool {
    (forall|d: Seq<u8>, l: u32|
        (#[trigger] lzma_encoded(d, l)).len() >= 5 && lzma_encoded(d, l)[0] == 0xfd
            && lzma_encoded(d, l)[1] == 0x37 && lzma_encoded(d, l)[2] == 0x7a && lzma_encoded(
            d,
            l,
        )[3] == 0x58 && lzma_encoded(d, l)[4] == 0x5a) && (forall|d: Seq<u8>, l: u32|
        lzma_decoded(#[trigger] lzma_encoded(d, l)) == d)
}

/// The gzip encoder state, held opaquely.
#[verifier::external_body]
pub struct GzCore {
    inner: flate2::write::GzEncoder<Box<dyn std::io::Write + Send + 'static>>,
}

/// The bzip2 encoder state, held opaquely.
#[verifier::external_body]
pub struct BzCore {
    inner: bzip2::write::BzEncoder<Box<dyn std::io::Write + Send + 'static>>,
}

/// The xz encoder state, held opaquely.
#[verifier::external_body]
pub struct XzCore {
    inner: xz2::write::XzEncoder<Box<dyn std::io::Write + Send + 'static>>,
}

/// A gzip encoder over a sink, with its model: the level it was made with,
/// what the sink had accepted when it was wrapped, and the bytes accepted
/// for compression since.
pub struct GzWriter {
    core: GzCore,
    level: Ghost<u32>,
    base: Ghost<Seq<u8>>,
    accepted: Ghost<Seq<u8>>,
}

/// The compression level `w` was made with.
pub closed spec fn gz_level(w: GzWriter) -> u32 {
    w.level@
}

/// What the wrapped sink had accepted when `w` was made.
pub closed spec fn gz_base(w: GzWriter) -> Seq<u8> {
    w.base@
}

/// The bytes `w` has accepted for compression so far, in order.
pub closed spec fn gz_accepted(w: GzWriter) -> Seq<u8> {
    w.accepted@
}

/// A bzip2 encoder over a sink, with the same model as the gzip one.
pub struct BzWriter {
    core: BzCore,
    level: Ghost<u32>,
    base: Ghost<Seq<u8>>,
    accepted: Ghost<Seq<u8>>,
}

/// The compression level `w` was made with.
pub closed spec fn bz_level(w: BzWriter) -> u32 {
    w.level@
}

/// What the wrapped sink had accepted when `w` was made.
pub closed spec fn bz_base(w: BzWriter) -> Seq<u8> {
    w.base@
}

/// The bytes `w` has accepted for compression so far, in order.
pub closed spec fn bz_accepted(w: BzWriter) -> Seq<u8> {
    w.accepted@
}

/// An xz encoder over a sink, with the same model as the gzip one.
pub struct XzWriter {
    core: XzCore,
    level: Ghost<u32>,
    base: Ghost<Seq<u8>>,
    accepted: Ghost<Seq<u8>>,
}

/// The preset `w` was made with.
pub closed spec fn xz_level(w: XzWriter) -> u32 {
    w.level@
}

/// What the wrapped sink had accepted when `w` was made.
pub closed spec fn xz_base(w: XzWriter) -> Seq<u8> {
    w.base@
}

/// The bytes `w` has accepted for compression so far, in order.
pub closed spec fn xz_accepted(w: XzWriter) -> Seq<u8> {
    w.accepted@
}

/// Relies on `flate2::write::GzEncoder::new`: the fresh encoder compresses
/// into `sink` at the given level and has accepted nothing yet.
#[verifier::external_body]
pub(crate) fn gz_new(sink: OutputStream, level: u32) -> (w: GzWriter)
    requires
        1 <= level <= 9,
    ensures
        gz_level(w) == level,
        gz_base(w) == sink_bytes(sink),
        gz_accepted(w) == Seq::<u8>::empty(),
{
    let ghost b = sink_bytes(sink);
    let core = GzCore {
        inner: flate2::write::GzEncoder::new(sink.inner, flate2::Compression::new(level)),
    };
    GzWriter { core, level: Ghost(level), base: Ghost(b), accepted: Ghost(Seq::empty()) }
}

/// Relies on `std::io::Write::write_all` on the gzip encoder: on success the
/// whole buffer was accepted for compression, appended to what came before;
/// on an error, writes already made stand, so some prefix of the buffer may
/// have been accepted.
#[verifier::external_body]
pub(crate) fn gz_write(w: &mut GzWriter, data: &Vec<u8>) -> (r: Result<(), std::io::Error>)
    ensures
        gz_level(*final(w)) == gz_level(*old(w)),
        gz_base(*final(w)) == gz_base(*old(w)),
        r is Ok ==> gz_accepted(*final(w)) == gz_accepted(*old(w)) + data@,
        r is Err ==> exists|n: int|
            0 <= n <= data@.len() && gz_accepted(*final(w)) == gz_accepted(*old(w)) + data@.take(
                n,
            ),
{
    std::io::Write::write_all(&mut w.core.inner, &data[..])
}

/// Relies on `flate2::write::GzEncoder::finish`: on success every accepted
/// byte is compressed and written out, and the sink comes back holding what
/// it had plus one finished gzip member encoding the accepted bytes at the
/// level the encoder was made with; the gzip codec laws hold of its output.
#[verifier::external_body]
pub(crate) fn gz_finish(w: GzWriter) -> (r: Result<OutputStream, std::io::Error>)
    ensures
        r matches Ok(out) ==> sink_bytes(out) == gz_base(w) + gzip_encoded(
            gz_accepted(w),
            gz_level(w),
) && gzip_codec_laws(),
{
    match w.core.inner.finish() {
        Ok(inner) => Ok(OutputStream { inner }),
        Err(e) => Err(e),
    }
}

/// Relies on `bzip2::write::BzEncoder::new`: the fresh encoder compresses
/// into `sink` at the given level and has accepted nothing yet.
#[verifier::external_body]
pub(crate) fn bz_new(sink: OutputStream, level: u32) -> (w: BzWriter)
    requires
        1 <= level <= 9,
    ensures
        bz_level(w) == level,
        bz_base(w) == sink_bytes(sink),
        bz_accepted(w) == Seq::<u8>::empty(),
{
    let ghost b = sink_bytes(sink);
    let core = BzCore {
        inner: bzip2::write::BzEncoder::new(sink.inner, bzip2::Compression::new(level)),
    };
    BzWriter { core, level: Ghost(level), base: Ghost(b), accepted: Ghost(Seq::empty()) }
}

/// Relies on `std::io::Write::write_all` on the bzip2 encoder: on success
/// the whole buffer was accepted for compression, appended to what came
/// before; on an error some prefix of it may have been accepted.
#[verifier::external_body]
pub(crate) fn bz_write(w: &mut BzWriter, data: &Vec<u8>) -> (r: Result<(), std::io::Error>)
    ensures
        bz_level(*final(w)) == bz_level(*old(w)),
        bz_base(*final(w)) == bz_base(*old(w)),
        r is Ok ==> bz_accepted(*final(w)) == bz_accepted(*old(w)) + data@,
        r is Err ==> exists|n: int|
            0 <= n <= data@.len() && bz_accepted(*final(w)) == bz_accepted(*old(w)) + data@.take(
                n,
            ),
{
    std::io::Write::write_all(&mut w.core.inner, &data[..])
}

/// Relies on `bzip2::write::BzEncoder::finish`: on success every accepted
/// byte is compressed and written out, and the sink comes back holding what
/// it had plus one finished bzip2 stream encoding the accepted bytes at the
/// level the encoder was made with; the bzip2 codec laws hold of its
/// output.
#[verifier::external_body]
pub(crate) fn bz_finish(w: BzWriter) -> (r: Result<OutputStream, std::io::Error>)
    ensures
        r matches Ok(out) ==> sink_bytes(out) == bz_base(w) + bzip_encoded(
            bz_accepted(w),
            bz_level(w),
) && bzip_codec_laws(),
{
    match w.core.inner.finish() {
        Ok(inner) => Ok(OutputStream { inner }),
        Err(e) => Err(e),
    }
}

/// Relies on `xz2::write::XzEncoder::new`: the fresh encoder compresses into
/// `sink` at the given preset and has accepted nothing yet.
#[verifier::external_body]
pub(crate) fn xz_new(sink: OutputStream, level: u32) -> (w: XzWriter)
    requires
        1 <= level <= 9,
    ensures
        xz_level(w) == level,
        xz_base(w) == sink_bytes(sink),
        xz_accepted(w) == Seq::<u8>::empty(),
{
    let ghost b = sink_bytes(sink);
    let core = XzCore { inner: xz2::write::XzEncoder::new(sink.inner, level) };
    XzWriter { core, level: Ghost(level), base: Ghost(b), accepted: Ghost(Seq::empty()) }
}

/// Relies on `std::io::Write::write_all` on the xz encoder: on success the
/// whole buffer was accepted for compression, appended to what came before;
/// on an error some prefix of it may have been accepted.
#[verifier::external_body]
pub(crate) fn xz_write(w: &mut XzWriter, data: &Vec<u8>) -> (r: Result<(), std::io::Error>)
    ensures
        xz_level(*final(w)) == xz_level(*old(w)),
        xz_base(*final(w)) == xz_base(*old(w)),
        r is Ok ==> xz_accepted(*final(w)) == xz_accepted(*old(w)) + data@,
        r is Err ==> exists|n: int|
            0 <= n <= data@.len() && xz_accepted(*final(w)) == xz_accepted(*old(w)) + data@.take(
                n,
            ),
{
    std::io::Write::write_all(&mut w.core.inner, &data[..])
}

/// Relies on `xz2::write::XzEncoder::finish`: on success every accepted byte
/// is compressed and written out, and the sink comes back holding what it
/// had plus one finished xz stream encoding the accepted bytes at the preset
/// the encoder was made with; the xz codec laws hold of its output.
#[verifier::external_body]
pub(crate) fn xz_finish(w: XzWriter) -> (r: Result<OutputStream, std::io::Error>)
    ensures
        r matches Ok(out) ==> sink_bytes(out) == xz_base(w) + lzma_encoded(
            xz_accepted(w),
            xz_level(w),
) && lzma_codec_laws(),
{
    match w.core.inner.finish() {
        Ok(inner) => Ok(OutputStream { inner }),
        Err(e) => Err(e),
    }
}

/// A writable stream that encodes what is written to it: one of the codec
/// adapters over a sink, or the raw sink itself for plain data.
pub enum Writer {
    Plain(OutputStream),
    Gzip(GzWriter),
    Bzip(BzWriter),
    Lzma(XzWriter),
}

/// The format a writer encodes in.
pub open spec fn writer_format(w: Writer) -> Format {
    match w {
        Writer::Plain(_) => Format::No,
        Writer::Gzip(_) => Format::Gzip,
        Writer::Bzip(_) => Format::Bzip,
        Writer::Lzma(_) => Format::Lzma,
    }
}

/// The numeric level a writer encodes at; plain data has none.
pub open spec fn writer_level(w: Writer) -> u32 {
    match w {
        Writer::Plain(_) => 0,
        Writer::Gzip(g) => gz_level(g),
        Writer::Bzip(b) => bz_level(b),
        Writer::Lzma(x) => xz_level(x),
    }
}

/// What the underlying sink had accepted when the writer was made. A plain
/// writer is the sink itself, whose own history carries that, so its base is
/// empty.
pub open spec fn writer_base(w: Writer) -> Seq<u8> {
    match w {
        Writer::Plain(_) => Seq::empty(),
        Writer::Gzip(g) => gz_base(g),
        Writer::Bzip(b) => bz_base(b),
        Writer::Lzma(x) => xz_base(x),
    }
}

/// The bytes the writer has accepted, in order; for a plain writer,
/// everything its sink has accepted.
pub open spec fn writer_accepted(w: Writer) -> Seq<u8> {
    match w {
        Writer::Plain(o) => sink_bytes(o),
        Writer::Gzip(g) => gz_accepted(g),
        Writer::Bzip(b) => bz_accepted(b),
        Writer::Lzma(x) => xz_accepted(x),
    }
}

impl Writer {
    /// Writes the whole buffer into the writer: on success every byte of
    /// `data` was accepted, appended to what came before; on an error some
    /// prefix of it may have been accepted. The format, level and base never
    /// change.
    pub fn write_all(&mut self, data: &Vec<u8>) -> (r: Result<(), Error>)
        ensures
            writer_format(*final(self)) == writer_format(*old(self)),
            writer_level(*final(self)) == writer_level(*old(self)),
            writer_base(*final(self)) == writer_base(*old(self)),
            r is Ok ==> writer_accepted(*final(self)) == writer_accepted(*old(self)) + data@,
            r matches Err(e) ==> e is Io && (exists|n: int|
                0 <= n <= data@.len() && writer_accepted(*final(self)) == writer_accepted(
                    *old(self),
                ) + data@.take(n)),
    {
        match self {
            Writer::Plain(o) => o.write_all(data),
            Writer::Gzip(g) => {
                match gz_write(g, data) {
                    Ok(u) => Ok(u),
                    Err(e) => Err(Error::Io(e)),
                }
            },
            Writer::Bzip(b) => {
                match bz_write(b, data) {
                    Ok(u) => Ok(u),
                    Err(e) => Err(Error::Io(e)),
                }
            },
            Writer::Lzma(x) => {
                match xz_write(x, data) {
                    Ok(u) => Ok(u),
                    Err(e) => Err(Error::Io(e)),
                }
            },
        }
    }

    /// Finishes the writer: every accepted byte is encoded and delivered,
    /// and the underlying sink comes back holding what it had when the
    /// writer was made, followed by the encoded form of everything the
    /// writer accepted.
    pub fn finish(self) -> (r: Result<OutputStream, Error>)
        ensures
            r matches Ok(out) ==> sink_bytes(out) == writer_base(self) + spec_encoded(
                writer_format(self),
                writer_accepted(self),
                writer_level(self),
            ),
            r matches Ok(out) ==> (writer_format(self) is Gzip ==> gzip_codec_laws()) && (
            writer_format(self) is Bzip ==> bzip_codec_laws()) && (writer_format(self) is Lzma
                ==> lzma_codec_laws()),
            r matches Err(e) ==> e is Io,
    {
        match self {
            Writer::Plain(o) => {
                proof {
                    assert(Seq::<u8>::empty() + sink_bytes(o) =~= sink_bytes(o));
                }
                Ok(o)
            },
            Writer::Gzip(g) => {
                match gz_finish(g) {
                    Ok(o) => Ok(o),
                    Err(e) => Err(Error::Io(e)),
                }
            },
            Writer::Bzip(b) => {
                match bz_finish(b) {
                    Ok(o) => Ok(o),
                    Err(e) => Err(Error::Io(e)),
                }
            },
            Writer::Lzma(x) => {
                match xz_finish(x) {
                    Ok(o) => Ok(o),
                    Err(e) => Err(Error::Io(e)),
                }
            },
        }
    }
}

} // verus!
