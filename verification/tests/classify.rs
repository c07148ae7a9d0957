use niffler::compression::bytes2type;
use niffler::compression::Format;

#[test]
fn classify_gzip_magic() {
    assert_eq!(bytes2type([0x1f, 0x8b, 0x00, 0x00, 0x00]), Format::Gzip);
    assert_eq!(bytes2type([0x1f, 0x8b, 0xff, 0x12, 0x34]), Format::Gzip);
}

#[test]
fn classify_bzip_magic() {
    assert_eq!(bytes2type([0x42, 0x5a, 0x00, 0x00, 0x00]), Format::Bzip);
    assert_eq!(bytes2type([0x42, 0x5a, 0x68, 0x39, 0x31]), Format::Bzip);
}

#[test]
fn classify_lzma_magic_needs_all_five() {
    assert_eq!(bytes2type([0xfd, 0x37, 0x7a, 0x58, 0x5a]), Format::Lzma);
    assert_eq!(bytes2type([0xfd, 0x37, 0x7a, 0x58, 0x00]), Format::No);
    assert_eq!(bytes2type([0xfd, 0x37, 0x7a, 0x00, 0x5a]), Format::No);
}

#[test]
fn classify_unmatched_is_plain() {
    assert_eq!(bytes2type([b'L', b'o', b'r', b'e', b'm']), Format::No);
    assert_eq!(bytes2type([0x00, 0x00, 0x00, 0x00, 0x00]), Format::No);
    assert_eq!(bytes2type([0x8b, 0x1f, 0x00, 0x00, 0x00]), Format::No);
}
