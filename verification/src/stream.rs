//! Owned byte streams and their mathematical models: a one-directional
//! reader, a sink, and a repositionable reader, each with trusted operations
//! that tie the real reads, writes and seeks to the model the contracts
//! speak of.

use vstd::prelude::*;

use crate::error::Error;

verus! {

/// An owned, one-directional byte stream. Any readable source is held behind
/// this one type; the reasoning never looks inside it.
#[verifier::external_body]
pub struct InputStream {
    pub(crate) inner: Box<dyn std::io::Read + Send + 'static>,
}

/// The bytes that reading `s` to its end would yield, in order.
pub uninterp spec fn stream_bytes(s: InputStream) -> Seq<u8>;

/// An owned byte sink. Any writable target is held behind this one type.
#[verifier::external_body]
pub struct OutputStream {
    pub(crate) inner: Box<dyn std::io::Write + Send + 'static>,
}

/// The bytes that `s` has accepted so far, in order.
pub uninterp spec fn sink_bytes(s: OutputStream) -> Seq<u8>;

/// An owned, repositionable byte stream over any source `S` that can read
/// and seek. The two ghost fields model its full contents and its current
/// read position; the trusted operations below relate every real read and
/// seek to that model.
pub struct SeekStream<S> {
    inner: S,
    contents: Ghost<Seq<u8>>,
    position: Ghost<nat>,
}

/// The full contents of `s`, from its first byte to its last, independent of
/// the current read position.
pub closed spec fn seek_bytes<S>(s: SeekStream<S>) -> Seq<u8> {
    s.contents@
}

/// The current read position of `s`, as an offset into `seek_bytes(s)`.
pub closed spec fn seek_pos<S>(s: SeekStream<S>) -> nat {
    s.position@
}

/// Declares `std::io::Cursor` so that an in-memory repositionable stream can
/// be named in signatures; nothing is assumed about its contents.
#[verifier::external_type_specification]
#[verifier::external_body]
#[verifier::reject_recursive_types(T)]
pub struct ExCursor<T>(std::io::Cursor<T>);

impl InputStream {
    /// Wraps any readable source. Nothing is known of the bytes it will
    /// yield until they are read.
    #[verifier::external_body]
    pub fn new<R: std::io::Read + Send + 'static>(inner: R) -> InputStream {
        InputStream { inner: Box::new(inner) }
    }

    /// Relies on `std::io::Cursor`: reading the result yields exactly the
    /// bytes of `data`, in order.
    #[verifier::external_body]
    pub fn from_vec(data: Vec<u8>) -> (s: InputStream)
        ensures
            stream_bytes(s) == data@,
    {
        InputStream { inner: Box::new(std::io::Cursor::new(data)) }
    }

    /// Reads at most `max` of the next bytes, in order. An empty result with
    /// `max > 0` means the stream is exhausted.
    pub fn read_some(&mut self, max: usize) -> (r: Result<Vec<u8>, Error>)
        ensures
            r matches Ok(v) ==> v@.len() <= max
                && v@.len() <= stream_bytes(*old(self)).len()
                && v@ == stream_bytes(*old(self)).take(v@.len() as int)
                && stream_bytes(*final(self)) == stream_bytes(*old(self)).skip(v@.len() as int),
            (r matches Ok(v) && v@.len() == 0 && max > 0) ==> stream_bytes(*old(self)).len()
                == 0,
            r matches Err(e) ==> e is Io && stream_bytes(*final(self)) == stream_bytes(*old(self)),
    {
        match read_chunk_raw(self, max) {
            Ok(v) => Ok(v),
            Err(e) => Err(Error::Io(e)),
        }
    }

    /// Reads the stream to its end and hands back everything it yielded.
    pub fn read_all(self) -> (r: Result<Vec<u8>, Error>)
        ensures
            r matches Ok(v) ==> v@ == stream_bytes(self),
            r matches Err(e) ==> e is Io,
    {
        let mut s = self;
        let ghost total = stream_bytes(s);
        let mut acc: Vec<u8> = Vec::new();
        loop
            invariant_except_break
                acc@ + stream_bytes(s) == total,
            ensures
                acc@ == total,
            decreases stream_bytes(s).len(),
        {
            let ghost prev = stream_bytes(s);
            let mut chunk = match s.read_some(8192) {
                Ok(c) => c,
                Err(e) => {
                    return Err(e);
                },
            };
            if chunk.len() == 0 {
                proof {
                    assert(acc@ =~= total);
                }
                break;
            }
            proof {
                assert(chunk@.len() <= prev.len());
                assert(chunk@ + stream_bytes(s) =~= prev);
                assert((acc@ + chunk@) + stream_bytes(s) =~= acc@ + (chunk@ + stream_bytes(s)));
            }
            acc.append(&mut chunk);
        }
        Ok(acc)
    }
}

/// Relies on `std::io::Read::read_exact`: on success exactly the first five
/// remaining bytes of the stream were read, in order, and the stream goes on
/// after them. It always fails when fewer than five bytes remain; a clean
/// end of the stream before the fifth byte is marked
/// `ErrorKind::UnexpectedEof` and reported as `Error::FileTooShort`, and any
/// other failure keeps its cause as `Error::Io`.
#[verifier::external_body]
pub(crate) fn read_exact_five(s: &mut InputStream) -> (r: Result<[u8; 5], Error>)
    ensures
        r matches Ok(b) ==> stream_bytes(*old(s)).len() >= 5
            && b@ == stream_bytes(*old(s)).take(5)
            && stream_bytes(*final(s)) == stream_bytes(*old(s)).skip(5),
        stream_bytes(*old(s)).len() < 5 ==> r is Err,
        r matches Err(e) ==> e is FileTooShort || e is Io,
        r matches Err(e) ==> (e is FileTooShort ==> stream_bytes(*old(s)).len() < 5),
{
    let mut buf = [0u8; 5];
    match s.inner.read_exact(&mut buf) {
        Ok(()) => Ok(buf),
        Err(e) => {
            if e.kind() == std::io::ErrorKind::UnexpectedEof {
                Err(Error::FileTooShort)
            } else {
                Err(Error::Io(e))
            }
        },
    }
}

/// Relies on `std::io::Read::read`: a successful read hands back the next
/// bytes of the stream in order, no more than `max`; a read of zero bytes
/// with `max > 0` marks the end of the stream, and on an error nothing was
/// read.
#[verifier::external_body]
pub(crate) fn read_chunk_raw(s: &mut InputStream, max: usize) -> (r: Result<
    Vec<u8>,
    std::io::Error,
>)
    ensures
        r matches Ok(v) ==> v@.len() <= max
            && v@.len() <= stream_bytes(*old(s)).len()
            && v@ == stream_bytes(*old(s)).take(v@.len() as int)
            && stream_bytes(*final(s)) == stream_bytes(*old(s)).skip(v@.len() as int),
        (r matches Ok(v) && v@.len() == 0 && max > 0) ==> stream_bytes(*old(s)).len() == 0,
        r is Err ==> stream_bytes(*final(s)) == stream_bytes(*old(s)),
{
    let mut buf = vec![0u8; max];
    match s.inner.read(&mut buf) {
        Ok(n) => {
            buf.truncate(n);
            Ok(buf)
        },
        Err(e) => Err(e),
    }
}

/// Relies on `std::io::Read::chain`: the result yields every byte of `first`,
/// then every byte of `second`, and a single read may span the boundary.
#[verifier::external_body]
pub(crate) fn concat_streams(first: InputStream, second: InputStream) -> (r: InputStream)
    ensures
        stream_bytes(r) == stream_bytes(first) + stream_bytes(second),
{
    InputStream { inner: Box::new(std::io::Read::chain(first.inner, second.inner)) }
}

impl OutputStream {
    /// Wraps any writable sink; the fresh handle has accepted nothing yet.
    #[verifier::external_body]
    pub fn new<W: std::io::Write + Send + 'static>(inner: W) -> (s: OutputStream)
        ensures
            sink_bytes(s) == Seq::<u8>::empty(),
    {
        OutputStream { inner: Box::new(inner) }
    }

    /// Writes the whole buffer: on success every byte of `data` was accepted,
    /// appended to what came before. On an error, writes already made stand:
    /// some prefix of `data` may have been appended.
    pub fn write_all(&mut self, data: &Vec<u8>) -> (r: Result<(), Error>)
        ensures
            r is Ok ==> sink_bytes(*final(self)) == sink_bytes(*old(self)) + data@,
            r matches Err(e) ==> e is Io && (exists|n: int|
                0 <= n <= data@.len() && sink_bytes(*final(self)) == sink_bytes(*old(self))
                    + data@.take(n)),
    {
        match write_all_raw(self, data) {
            Ok(u) => Ok(u),
            Err(e) => Err(Error::Io(e)),
        }
    }

    /// Pushes buffered bytes onward; what the sink has accepted is unchanged.
    pub fn flush(&mut self) -> (r: Result<(), Error>)
        ensures
            sink_bytes(*final(self)) == sink_bytes(*old(self)),
            r matches Err(e) ==> e is Io,
    {
        match flush_raw(self) {
            Ok(u) => Ok(u),
            Err(e) => Err(Error::Io(e)),
        }
    }
}

/// Relies on `std::io::Write::write_all`: on success the whole buffer was
/// accepted, appended to what came before; on an error, writes already made
/// stand, so some prefix of the buffer may have been appended.
#[verifier::external_body]
pub(crate) fn write_all_raw(s: &mut OutputStream, data: &Vec<u8>) -> (r: Result<
    (),
    std::io::Error,
>)
    ensures
        r is Ok ==> sink_bytes(*final(s)) == sink_bytes(*old(s)) + data@,
        r is Err ==> exists|n: int|
            0 <= n <= data@.len() && sink_bytes(*final(s)) == sink_bytes(*old(s)) + data@.take(n),
{
    match s.inner.write_all(&data[..]) {
        Ok(()) => Ok(()),
        Err(e) => Err(e),
    }
}

/// Relies on `std::io::Write::flush`: buffered bytes move onward, and what
/// the sink has accepted is unchanged either way.
#[verifier::external_body]
pub(crate) fn flush_raw(s: &mut OutputStream) -> (r: Result<(), std::io::Error>)
    ensures
        sink_bytes(*final(s)) == sink_bytes(*old(s)),
{
    s.inner.flush()
}

impl<S> SeekStream<S> {
    /// Wraps any readable, repositionable source. Nothing is known of its
    /// contents or position until they are observed.
    pub fn new(inner: S) -> SeekStream<S> {
        SeekStream { inner, contents: Ghost(arbitrary()), position: Ghost(arbitrary()) }
    }
}

/// Relies on `std::io::Cursor::new`: the contents are exactly the bytes of
/// `data` and the read position starts at zero.
#[verifier::external_body]
pub fn seek_from_vec(data: Vec<u8>) -> (s: SeekStream<std::io::Cursor<Vec<u8>>>)
    ensures
        seek_bytes(s) == data@,
        seek_pos(s) == 0,
{
    let ghost d = data@;
    let c = std::io::Cursor::new(data);
    SeekStream { inner: c, contents: Ghost(d), position: Ghost(0 as nat) }
}

impl<S: std::io::Read + std::io::Seek> SeekStream<S> {
    /// Reads at most `max` bytes from the current position, advancing it. An
    /// empty result with `max > 0` means the position is at or past the end.
    pub fn read_some(&mut self, max: usize) -> (r: Result<Vec<u8>, Error>)
        ensures
            seek_bytes(*final(self)) == seek_bytes(*old(self)),
            r matches Ok(v) ==> v@.len() <= max
                && seek_pos(*final(self)) == seek_pos(*old(self)) + v@.len()
                && (v@.len() > 0 ==> seek_pos(*old(self)) + v@.len() <= seek_bytes(
                    *old(self),
                ).len() && v@ == seek_bytes(*old(self)).subrange(
                    seek_pos(*old(self)) as int,
                    seek_pos(*old(self)) as int + v@.len() as int,
                )),
            (r matches Ok(v) && v@.len() == 0 && max > 0) ==> seek_pos(*old(self))
                >= seek_bytes(*old(self)).len(),
            r matches Err(e) ==> e is Io,
    {
        match seek_read_chunk_raw(self, max) {
            Ok(v) => Ok(v),
            Err(e) => Err(Error::Io(e)),
        }
    }

    /// Reads from the current position to the end and hands back everything
    /// from there, leaving the position at the end.
    pub fn read_all(self) -> (r: Result<Vec<u8>, Error>)
        ensures
            r matches Ok(v) ==> (seek_pos(self) <= seek_bytes(self).len() ==> v@ == seek_bytes(
                self,
            ).skip(seek_pos(self) as int)),
            r matches Err(e) ==> e is Io,
    {
        let mut s = self;
        let ghost total = seek_bytes(s);
        let ghost start = seek_pos(s);
        let mut acc: Vec<u8> = Vec::new();
        loop
            invariant_except_break
                seek_bytes(s) == total,
                start <= seek_pos(s),
                start <= total.len() ==> seek_pos(s) <= total.len() && acc@ == total.subrange(
                    start as int,
                    seek_pos(s) as int,
                ),
            ensures
                start <= total.len() ==> acc@ == total.skip(start as int),
            decreases total.len() - seek_pos(s),
        {
            let mut chunk = match s.read_some(8192) {
                Ok(c) => c,
                Err(e) => {
                    return Err(e);
                },
            };
            if chunk.len() == 0 {
                proof {
                    if start <= total.len() {
                        assert(seek_pos(s) == total.len());
                        assert(acc@ =~= total.skip(start as int));
                    }
                }
                break;
            }
            proof {
                if start <= total.len() {
                    assert(acc@ + chunk@ =~= total.subrange(
                        start as int,
                        seek_pos(s) as int,
                    ));
                }
            }
            acc.append(&mut chunk);
        }
        Ok(acc)
    }
}

/// Relies on `std::io::Seek::stream_position`: hands back the current offset
/// and moves nothing.
#[verifier::external_body]
pub(crate) fn tell_raw<S: std::io::Read + std::io::Seek>(s: &mut SeekStream<S>) -> (r: Result<u64, std::io::Error>)
    ensures
        seek_bytes(*final(s)) == seek_bytes(*old(s)),
        seek_pos(*final(s)) == seek_pos(*old(s)),
        r matches Ok(p) ==> p as nat == seek_pos(*old(s)),
{
    s.inner.stream_position()
}

/// Relies on `std::io::Read::read_exact`: on success the five bytes at the
/// current position were read, in order, and the position moved past them.
/// It always fails when fewer than five bytes remain before the end; a
/// clean end of the stream before the fifth byte is marked
/// `ErrorKind::UnexpectedEof` and reported as `Error::FileTooShort`, and any
/// other failure keeps its cause as `Error::Io`.
#[verifier::external_body]
pub(crate) fn read_exact_five_seek<S: std::io::Read + std::io::Seek>(s: &mut SeekStream<S>) -> (r: Result<[u8; 5], Error>)
    ensures
        seek_bytes(*final(s)) == seek_bytes(*old(s)),
        r matches Ok(b) ==> seek_pos(*old(s)) + 5 <= seek_bytes(*old(s)).len()
            && b@ == seek_bytes(*old(s)).subrange(
            seek_pos(*old(s)) as int,
            seek_pos(*old(s)) as int + 5,
        )
            && seek_pos(*final(s)) == seek_pos(*old(s)) + 5,
        seek_bytes(*old(s)).len() < seek_pos(*old(s)) + 5 ==> r is Err,
        r matches Err(e) ==> e is FileTooShort || e is Io,
        r matches Err(e) ==> (e is FileTooShort ==> seek_bytes(*old(s)).len() < seek_pos(
            *old(s),
        ) + 5),
{
    let mut buf = [0u8; 5];
    match s.inner.read_exact(&mut buf) {
        Ok(()) => Ok(buf),
        Err(e) => {
            if e.kind() == std::io::ErrorKind::UnexpectedEof {
                Err(Error::FileTooShort)
            } else {
                Err(Error::Io(e))
            }
        },
    }
}

/// Relies on `std::io::Read::read` on a repositionable source: bytes come
/// from the current position in order and the position advances by as many;
/// at or past the end nothing is read and the position stands.
#[verifier::external_body]
pub(crate) fn seek_read_chunk_raw<S: std::io::Read + std::io::Seek>(s: &mut SeekStream<S>, max: usize) -> (r: Result<
    Vec<u8>,
    std::io::Error,
>)
    ensures
        seek_bytes(*final(s)) == seek_bytes(*old(s)),
        r matches Ok(v) ==> v@.len() <= max
            && seek_pos(*final(s)) == seek_pos(*old(s)) + v@.len()
            && (v@.len() > 0 ==> seek_pos(*old(s)) + v@.len() <= seek_bytes(*old(s)).len()
                && v@ == seek_bytes(*old(s)).subrange(
                seek_pos(*old(s)) as int,
                seek_pos(*old(s)) as int + v@.len() as int,
            )),
        (r matches Ok(v) && v@.len() == 0 && max > 0) ==> seek_pos(*old(s)) >= seek_bytes(
            *old(s),
        ).len(),
{
    let mut buf = vec![0u8; max];
    match s.inner.read(&mut buf) {
        Ok(n) => {
            buf.truncate(n);
            Ok(buf)
        },
        Err(e) => Err(e),
    }
}

/// Relies on `std::io::Seek::seek` with `SeekFrom::Start`: on success the
/// position is exactly `offset`, and the contents are untouched either way.
#[verifier::external_body]
pub(crate) fn seek_to_raw<S: std::io::Read + std::io::Seek>(s: &mut SeekStream<S>, offset: u64) -> (r: Result<(), std::io::Error>)
    ensures
        seek_bytes(*final(s)) == seek_bytes(*old(s)),
        r is Ok ==> seek_pos(*final(s)) == offset as nat,
{
    match s.inner.seek(std::io::SeekFrom::Start(offset)) {
        Ok(_) => Ok(()),
        Err(e) => Err(e),
    }
}

} // verus!

