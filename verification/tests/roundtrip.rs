use std::sync::Arc;
use std::sync::Mutex;

use niffler::compression::Format;
use niffler::get_reader;
use niffler::get_writer;
use niffler::level::Level;
use niffler::stream::InputStream;
use niffler::stream::OutputStream;

const LOREM_IPSUM: &[u8] = b"Lorem ipsum dolor sit amet, consectetur adipiscing elit. Ut ultricies scelerisque diam, a scelerisque enim sagittis at.";

/// An in-memory sink that stays readable after the writer is dropped.
struct SharedBuf(Arc<Mutex<Vec<u8>>>);

impl std::io::Write for SharedBuf {
    fn write(&mut self, buf: &[u8]) -> std::io::Result<usize> {
        self.0.lock().unwrap().extend_from_slice(buf);
        Ok(buf.len())
    }

    fn flush(&mut self) -> std::io::Result<()> {
        Ok(())
    }
}

fn encode(data: &[u8], format: Format, level: Level) -> Vec<u8> {
    let buf = Arc::new(Mutex::new(Vec::new()));
    let sink = OutputStream::new(SharedBuf(buf.clone()));
    let mut writer = get_writer(sink, format, level).unwrap();
    writer
        .write_all(&data.to_vec())
        .expect("Error during write of data");
    writer.finish().expect("Error during write of data");
    let stored = buf.lock().unwrap().clone();
    stored
}

fn roundtrip(format: Format, level: Level) {
    let stored = encode(LOREM_IPSUM, format, level);
    let (reader, compression) =
        get_reader(InputStream::from_vec(stored)).expect("Error reading from tmpfile");
    assert_eq!(compression, format);
    let buffer = reader.read_all().expect("Error during reading");
    assert_eq!(LOREM_IPSUM, buffer.as_slice());
}

#[test]
fn lib_no_compression() {
    roundtrip(Format::No, Level::One);
}

#[test]
fn lib_gzip() {
    roundtrip(Format::Gzip, Level::Six);
}

#[test]
fn lib_bzip() {
    roundtrip(Format::Bzip, Level::Six);
}

#[test]
fn lib_lzma() {
    roundtrip(Format::Lzma, Level::Six);
}

#[test]
fn roundtrip_every_level_gzip() {
    let levels = vec![
        Level::One,
        Level::Two,
        Level::Three,
        Level::Four,
        Level::Five,
        Level::Six,
        Level::Seven,
        Level::Eight,
        Level::Nine,
    ];
    for level in levels {
        roundtrip(Format::Gzip, level);
    }
}

#[test]
fn encoded_gzip_starts_with_magic() {
    let stored = encode(LOREM_IPSUM, Format::Gzip, Level::Nine);
    assert!(stored.len() >= 2);
    assert_eq!(stored[0], 0x1f);
    assert_eq!(stored[1], 0x8b);
    assert_ne!(stored.as_slice(), LOREM_IPSUM);
}

#[test]
fn encoded_plain_is_unchanged() {
    let stored = encode(LOREM_IPSUM, Format::No, Level::One);
    assert_eq!(stored.as_slice(), LOREM_IPSUM);
}

#[test]
fn gzip_two_members_decode_as_one() {
    let mut payload = encode(b"hello ", Format::Gzip, Level::Six);
    let second = encode(b"world", Format::Gzip, Level::Nine);
    payload.extend_from_slice(&second);
    let (reader, compression) =
        get_reader(InputStream::from_vec(payload)).expect("Error reading from tmpfile");
    assert_eq!(compression, Format::Gzip);
    let buffer = reader.read_all().expect("Error during reading");
    assert_eq!(buffer.as_slice(), b"hello world");
}

#[test]
fn corrupt_gzip_reports_io() {
    let data = vec![0x1f, 0x8b, 0xff, 0xff, 0xff, 0x01, 0x02, 0x03];
    let (reader, compression) =
        get_reader(InputStream::from_vec(data)).expect("Error reading from tmpfile");
    assert_eq!(compression, Format::Gzip);
    let read = reader.read_all();
    assert!(matches!(read, Err(niffler::Error::Io(_))));
}

#[test]
fn flush_keeps_accepted_bytes() {
    let buf = Arc::new(Mutex::new(Vec::new()));
    {
        let mut sink = OutputStream::new(SharedBuf(buf.clone()));
        sink.write_all(&b"abc".to_vec())
            .expect("Error during write of data");
        sink.flush().expect("Error during write of data");
        sink.write_all(&b"def".to_vec())
            .expect("Error during write of data");
    }
    let stored = buf.lock().unwrap().clone();
    assert_eq!(stored.as_slice(), b"abcdef");
}

#[test]
fn finish_returns_the_sink() {
    let buf = Arc::new(Mutex::new(Vec::new()));
    let sink = OutputStream::new(SharedBuf(buf.clone()));
    let mut writer = get_writer(sink, Format::No, Level::One).unwrap();
    writer
        .write_all(&b"abc".to_vec())
        .expect("Error during write of data");
    let mut out = writer.finish().expect("Error during write of data");
    out.write_all(&b"def".to_vec())
        .expect("Error during write of data");
    let stored = buf.lock().unwrap().clone();
    assert_eq!(stored.as_slice(), b"abcdef");
}
