use niffler::codec::Codecs;
use niffler::compression::Format;
use niffler::level::Level;
use niffler::open_reader;
use niffler::open_writer;
use niffler::stream::InputStream;
use niffler::stream::OutputStream;

const GZIP_FILE: &[u8] = &[0o037, 0o213, 0o0, 0o0, 0o0];
const BZIP_FILE: &[u8] = &[0o102, 0o132, 0o0, 0o0, 0o0];
const LZMA_FILE: &[u8] = &[0o375, 0o067, 0o172, 0o130, 0o132];
const LOREM_IPSUM: &[u8] = b"Lorem ipsum dolor sit amet, consectetur adipiscing elit. Ut ultricies scelerisque diam, a scelerisque enim sagittis at.";

#[test]
fn no_bzip2_feature() {
    let codecs = Codecs { gzip: true, bzip: false, lzma: true };
    assert!(
        open_writer(
            &codecs,
            OutputStream::new(Vec::new()),
            Format::Bzip,
            Level::Six
        )
        .is_err(),
        "bz2 disabled, this assertion should fail"
    );

    assert!(
        open_reader(&codecs, InputStream::from_vec(BZIP_FILE.to_vec())).is_err(),
        "bz2 disabled, this assertion should fail"
    );
}

#[test]
fn no_lzma_feature() {
    let codecs = Codecs { gzip: true, bzip: true, lzma: false };
    assert!(
        open_writer(
            &codecs,
            OutputStream::new(Vec::new()),
            Format::Lzma,
            Level::Six
        )
        .is_err(),
        "lzma disabled, this assertion should fail"
    );

    assert!(
        open_reader(&codecs, InputStream::from_vec(LZMA_FILE.to_vec())).is_err(),
        "lzma disabled, this assertion should fail"
    );
}

#[test]
fn disabled_codec_reports_feature_disabled() {
    let codecs = Codecs { gzip: false, bzip: true, lzma: true };
    let written = open_writer(
        &codecs,
        OutputStream::new(Vec::new()),
        Format::Gzip,
        Level::One,
    );
    assert!(matches!(written, Err(niffler::Error::FeatureDisabled)));

    let opened = open_reader(&codecs, InputStream::from_vec(GZIP_FILE.to_vec()));
    assert!(matches!(opened, Err(niffler::Error::FeatureDisabled)));
}

#[test]
fn plain_data_needs_no_codec() {
    let codecs = Codecs { gzip: false, bzip: false, lzma: false };
    let written = open_writer(
        &codecs,
        OutputStream::new(Vec::new()),
        Format::No,
        Level::One,
    );
    assert!(written.is_ok());

    let (reader, compression) = open_reader(&codecs, InputStream::from_vec(LOREM_IPSUM.to_vec()))
        .expect("Error in read file");
    assert_eq!(compression, Format::No);
    let replayed = reader.read_all().expect("Error during reading");
    assert_eq!(replayed.as_slice(), LOREM_IPSUM);
}

#[test]
fn disabled_sniff_still_detects() {
    let codecs = Codecs { gzip: true, bzip: false, lzma: true };
    let opened = open_reader(&codecs, InputStream::from_vec(BZIP_FILE.to_vec()));
    assert!(matches!(opened, Err(niffler::Error::FeatureDisabled)));
    let (_, compression) =
        niffler::sniff(InputStream::from_vec(BZIP_FILE.to_vec())).expect("Error in read file");
    assert_eq!(compression, Format::Bzip);
}
