use niffler::compression::Format;
use niffler::sniff;
use niffler::sniff_seek;
use niffler::stream::seek_from_vec;
use niffler::stream::InputStream;

const SHORT_FILE: &[u8] = &[0o037, 0o213, 0o0, 0o0];
const GZIP_FILE: &[u8] = &[0o037, 0o213, 0o0, 0o0, 0o0];
const BZIP_FILE: &[u8] = &[0o102, 0o132, 0o0, 0o0, 0o0];
const LZMA_FILE: &[u8] = &[0o375, 0o067, 0o172, 0o130, 0o132];
const LOREM_IPSUM: &[u8] = b"Lorem ipsum dolor sit amet, consectetur adipiscing elit. Ut ultricies scelerisque diam, a scelerisque enim sagittis at.";

#[test]
fn gzip() {
    let (_, compression) =
        sniff(InputStream::from_vec(GZIP_FILE.to_vec())).expect("Error in read file");
    assert_eq!(compression, Format::Gzip);
}

#[test]
fn gzip_seek() {
    let (_, compression) =
        sniff_seek(seek_from_vec(GZIP_FILE.to_vec())).expect("Error in read file");
    assert_eq!(compression, Format::Gzip);
}

#[test]
fn bzip() {
    let (_, compression) =
        sniff(InputStream::from_vec(BZIP_FILE.to_vec())).expect("Error in read file");
    assert_eq!(compression, Format::Bzip);
}

#[test]
fn bzip_seek() {
    let (_, compression) =
        sniff_seek(seek_from_vec(BZIP_FILE.to_vec())).expect("Error in read file");
    assert_eq!(compression, Format::Bzip);
}

#[test]
fn lzma() {
    let (_, compression) =
        sniff(InputStream::from_vec(LZMA_FILE.to_vec())).expect("Error in read file");
    assert_eq!(compression, Format::Lzma);
}

#[test]
fn lzma_seek() {
    let (_, compression) =
        sniff_seek(seek_from_vec(LZMA_FILE.to_vec())).expect("Error in read file");
    assert_eq!(compression, Format::Lzma);
}

#[test]
fn too_short() {
    let result = sniff(InputStream::from_vec(SHORT_FILE.to_vec()));
    assert!(result.is_err());
}

#[test]
fn too_short_seek() {
    let result = sniff_seek(seek_from_vec(SHORT_FILE.to_vec()));
    assert!(result.is_err());
}

#[test]
fn no_compression() {
    let (_, compression) =
        sniff(InputStream::from_vec(LOREM_IPSUM.to_vec())).expect("Error in read file");
    assert_eq!(compression, Format::No);
}

#[test]
fn no_compression_seek() {
    let (_, compression) =
        sniff_seek(seek_from_vec(LOREM_IPSUM.to_vec())).expect("Error in read file");
    assert_eq!(compression, Format::No);
}

#[test]
fn too_short_is_file_too_short() {
    let result = sniff(InputStream::from_vec(SHORT_FILE.to_vec()));
    assert!(matches!(result, Err(niffler::Error::FileTooShort)));
    let result_seek = sniff_seek(seek_from_vec(SHORT_FILE.to_vec()));
    assert!(matches!(result_seek, Err(niffler::Error::FileTooShort)));
}

#[test]
fn empty_stream_is_too_short() {
    let result = sniff(InputStream::from_vec(Vec::new()));
    assert!(matches!(result, Err(niffler::Error::FileTooShort)));
}

#[test]
fn sniff_replays_all_bytes() {
    let data = LOREM_IPSUM.to_vec();
    let (reader, compression) = sniff(InputStream::from_vec(data.clone())).expect("Error in read file");
    assert_eq!(compression, Format::No);
    let replayed = reader.read_all().expect("Error during reading");
    assert_eq!(replayed, data);
}

#[test]
fn sniff_replays_compressed_prefix_too() {
    let mut data = GZIP_FILE.to_vec();
    data.extend_from_slice(&[0x10, 0x20, 0x30]);
    let (reader, compression) = sniff(InputStream::from_vec(data.clone())).expect("Error in read file");
    assert_eq!(compression, Format::Gzip);
    let replayed = reader.read_all().expect("Error during reading");
    assert_eq!(replayed, data);
}

#[test]
fn sniff_seek_preserves_position() {
    let data = LOREM_IPSUM.to_vec();
    let (stream, compression) = sniff_seek(seek_from_vec(data.clone())).expect("Error in read file");
    assert_eq!(compression, Format::No);
    let rest = stream.read_all().expect("Error during reading");
    assert_eq!(rest, data);
}

#[test]
fn exactly_five_bytes_sniffs() {
    let (reader, compression) =
        sniff(InputStream::from_vec(LZMA_FILE.to_vec())).expect("Error in read file");
    assert_eq!(compression, Format::Lzma);
    let replayed = reader.read_all().expect("Error during reading");
    assert_eq!(replayed, LZMA_FILE.to_vec());
}

#[test]
fn sniff_any_source() {
    let (_, compression) = sniff(InputStream::new(&GZIP_FILE[..])).expect("Error in read file");
    assert_eq!(compression, Format::Gzip);
}

#[test]
fn sniff_seek_any_source() {
    let cursor = std::io::Cursor::new(BZIP_FILE.to_vec());
    let (_, compression) =
        sniff_seek(niffler::stream::SeekStream::new(cursor)).expect("Error in read file");
    assert_eq!(compression, Format::Bzip);
}

/// A source whose reads always fail with a non-end-of-stream error.
struct FaultyReader;

impl std::io::Read for FaultyReader {
    fn read(&mut self, _buf: &mut [u8]) -> std::io::Result<usize> {
        Err(std::io::Error::new(
            std::io::ErrorKind::PermissionDenied,
            "read fault",
        ))
    }
}

#[test]
fn read_fault_reports_io() {
    let result = sniff(InputStream::new(FaultyReader));
    assert!(matches!(result, Err(niffler::Error::Io(_))));
    let cursor = std::io::Cursor::new(Vec::new());
    let seek_result = sniff_seek(niffler::stream::SeekStream::new(cursor));
    assert!(matches!(seek_result, Err(niffler::Error::FileTooShort)));
}
