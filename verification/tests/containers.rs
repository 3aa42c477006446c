use zstream::CodecError;
use zstream::Decoder;
use zstream::ErrorKind;
use zstream::GzipHeaderParser;
use zstream::HeaderStage;
use zstream::MemSource;
use zstream::Operation;

/// The zlib container our encoder writes: a two-byte header in front, a
/// four-byte checksum behind.  Stripping both leaves the bare deflate body.
fn raw_deflate_of_zeros() -> Vec<u8> {
    let mut encoder = zstream::Encoder::new(MemSource::new(vec![0u8; 256]));
    let mut z: Vec<u8> = Vec::new();
    let mut buf: Vec<u8> = vec![0u8; 4096];
    loop {
        let n = encoder.read(&mut buf).expect("read failed");
        if n > 0 {
            z.extend_from_slice(&buf[0..n]);
        }
        if n == 0 && encoder.total_in() == 256 {
            break;
        }
    }
    while !encoder.is_done() {
        let n = encoder.finish(&mut buf).expect("finish failed");
        if n > 0 {
            z.extend_from_slice(&buf[0..n]);
        }
    }
    z[2..z.len() - 4].to_vec()
}

fn decode_all(data: Vec<u8>, pull_size: usize, out_size: usize) -> Vec<u8> {
    let mut decoder = Decoder::new_with_size(MemSource::new(data), pull_size);
    let mut out: Vec<u8> = Vec::new();
    let mut buf: Vec<u8> = vec![0u8; out_size];
    while !decoder.is_done() {
        let n = decoder.read(&mut buf).expect("read failed");
        out.extend_from_slice(&buf[0..n]);
    }
    out
}

#[test]
fn test_gzip_plain_header() {
    let mut gz: Vec<u8> = vec![0x1f, 0x8b, 8, 0, 0, 0, 0, 0, 0, 0];
    gz.extend_from_slice(&raw_deflate_of_zeros());
    gz.extend_from_slice(&[0u8; 8]);
    assert_eq!(decode_all(gz, 128, 4096), vec![0u8; 256]);
}

#[test]
fn test_gzip_optional_fields() {
    // Flags announce an extra block, a file name, a comment and a header
    // checksum; all must be walked before the body.
    let mut gz: Vec<u8> = vec![0x1f, 0x8b, 8, 2 | 4 | 8 | 16, 1, 2, 3, 4, 5, 6];
    gz.extend_from_slice(&[3, 0]); // extra block: three bytes
    gz.extend_from_slice(&[9, 9, 9]);
    gz.extend_from_slice(b"name\0");
    gz.extend_from_slice(b"comment\0");
    gz.extend_from_slice(&[0xaa, 0xbb]); // header checksum, skipped
    gz.extend_from_slice(&raw_deflate_of_zeros());
    gz.extend_from_slice(&[0u8; 8]);
    assert_eq!(decode_all(gz, 128, 4096), vec![0u8; 256]);
}

#[test]
fn test_gzip_header_across_tiny_pulls() {
    // A one-byte pull buffer cuts the header at every boundary.
    let mut gz: Vec<u8> = vec![0x1f, 0x8b, 8, 8];
    gz.extend_from_slice(&[0, 0, 0, 0, 0, 0]);
    gz.extend_from_slice(b"tiny\0");
    gz.extend_from_slice(&raw_deflate_of_zeros());
    gz.extend_from_slice(&[0u8; 8]);
    assert_eq!(decode_all(gz, 1, 64), vec![0u8; 256]);
}

#[test]
fn test_gzip_bad_magic_is_data_corruption() {
    let mut decoder = Decoder::new(MemSource::new(vec![0x1f, 0x00, 1, 2, 3]));
    let mut buf: Vec<u8> = vec![0u8; 64];
    let r = decoder.read(&mut buf);
    assert!(matches!(
        r,
        Err(CodecError::Engine(Operation::Inflating, ErrorKind::DataCorruption))
    ));
    assert!(!decoder.is_done());
}

#[test]
fn test_zlib_still_detected() {
    // A zlib stream (not starting with the gzip magic) decodes as before.
    let mut encoder = zstream::Encoder::new(MemSource::new(vec![7u8; 64]));
    let mut z: Vec<u8> = Vec::new();
    let mut buf: Vec<u8> = vec![0u8; 4096];
    loop {
        let n = encoder.read(&mut buf).expect("read failed");
        if n > 0 {
            z.extend_from_slice(&buf[0..n]);
        }
        if n == 0 && encoder.total_in() == 64 {
            break;
        }
    }
    while !encoder.is_done() {
        let n = encoder.finish(&mut buf).expect("finish failed");
        if n > 0 {
            z.extend_from_slice(&buf[0..n]);
        }
    }
    assert_eq!(decode_all(z, 128, 4096), vec![7u8; 64]);
}

#[test]
fn test_header_parser_walks_the_stages() {
    let mut p = GzipHeaderParser::new();
    assert!(matches!(p.stage, HeaderStage::Magic0));
    for b in [0x1f, 0x8b, 8, 0, 0, 0, 0, 0, 0] {
        assert!(p.feed(b));
        assert!(!p.is_complete());
    }
    assert!(p.feed(0));
    assert!(p.is_complete());

    // An invalid method byte is refused and the parser stays put.
    let mut q = GzipHeaderParser::new();
    assert!(q.feed(0x1f));
    assert!(q.feed(0x8b));
    assert!(!q.feed(7));
    assert!(matches!(q.stage, HeaderStage::Method));
}
