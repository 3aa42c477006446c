use zstream::CodecError;
use zstream::Decoder;
use zstream::Encoder;
use zstream::MemSource;
use zstream::Source;

/// Drive an encoder until the whole of its source has been pulled and the
/// engine has flushed everything: read until the adapter reports no more
/// output and no more input, then finish until it reports done.
fn compress_all(data: &[u8], out_buf_size: usize) -> Vec<u8> {
    let total = data.len();
    let mut encoder = Encoder::new(MemSource::new(data.to_vec()));
    let mut out: Vec<u8> = Vec::new();
    let mut buf: Vec<u8> = vec![0u8; out_buf_size];
    loop {
        match encoder.read(&mut buf) {
            Ok(n) => {
                if n > 0 {
                    out.extend_from_slice(&buf[0..n]);
                }
                if n == 0 && encoder.total_in() == total {
                    break;
                }
            }
            Err(e) => panic!("{}", e.message()),
        }
    }
    while !encoder.is_done() {
        match encoder.finish(&mut buf) {
            Ok(n) => {
                if n > 0 {
                    out.extend_from_slice(&buf[0..n]);
                }
            }
            Err(e) => panic!("{}", e.message()),
        }
    }
    out
}

/// Drive a decoder until the engine reports the end of the stream.
fn decompress_all(data: &[u8], out_buf_size: usize) -> Vec<u8> {
    let mut decoder = Decoder::new(MemSource::new(data.to_vec()));
    let mut out: Vec<u8> = Vec::new();
    let mut buf: Vec<u8> = vec![0u8; out_buf_size];
    while !decoder.is_done() {
        match decoder.read(&mut buf) {
            Ok(n) => {
                if n > 0 {
                    out.extend_from_slice(&buf[0..n]);
                }
            }
            Err(e) => panic!("{}", e.message()),
        }
    }
    out
}

/// A deterministic pseudo-random buffer, long enough to span many pulls.
fn pseudo_random_bytes(len: usize) -> Vec<u8> {
    let mut state: u64 = 0x2545F4914F6CDD1D;
    let mut out = Vec::with_capacity(len);
    for _ in 0..len {
        state = state.wrapping_mul(6364136223846793005).wrapping_add(1442695040888963407);
        out.push((state >> 33) as u8);
    }
    out
}

#[test]
fn test_round_trip_empty() {
    let compressed = compress_all(&[], 1024);
    assert!(!compressed.is_empty());
    let restored = decompress_all(&compressed, 1024);
    assert_eq!(restored, Vec::<u8>::new());
}

#[test]
fn test_round_trip_small() {
    let input = vec![1u8, 2, 3, 4, 5];
    let compressed = compress_all(&input, 1024);
    let restored = decompress_all(&compressed, 1024);
    assert_eq!(restored, input);
}

#[test]
fn test_round_trip_zeros() {
    // The concrete scenario: 256 zero bytes at the lowest supported level
    // must come back exactly, and the compressed form must be strictly
    // smaller than the input.
    let input = vec![0u8; 256];
    let compressed = compress_all(&input, 4096);
    assert!(compressed.len() < 256);
    let restored = decompress_all(&compressed, 4096);
    assert_eq!(restored, input);
}

#[test]
fn test_round_trip_large_random() {
    // More than ten times the default pull-buffer capacity, so the payload
    // crosses many chunk boundaries in both directions.
    let input = pseudo_random_bytes(2048);
    let compressed = compress_all(&input, 512);
    let restored = decompress_all(&compressed, 512);
    assert_eq!(restored, input);
}

#[test]
fn test_round_trip_small_output_buffers() {
    // Tiny caller buffers force the adapters to carry unconsumed input
    // across calls without losing a byte.
    let input = pseudo_random_bytes(1500);
    let compressed = compress_all(&input, 7);
    let restored = decompress_all(&compressed, 7);
    assert_eq!(restored, input);
}

struct TestReader {
    test_data: Vec<u8>,
    cursor: usize,
}

impl Source for TestReader {
    fn inv(&self) -> bool {
        true
    }

    fn pull(&mut self, buf: &mut Vec<u8>) -> Result<usize, CodecError> {
        let n = std::cmp::min(buf.len(), self.test_data.len() - self.cursor);
        if n > 0 {
            buf[0..n].copy_from_slice(&self.test_data[self.cursor..self.cursor + n]);
            self.cursor += n;
            println!(
                "{} bytes from test data consumed, cursor is now at {}. Total {} bytes.",
                n,
                self.cursor,
                self.test_data.len()
            );
            Ok(n)
        } else {
            Ok(0)
        }
    }
}

#[test]
fn test_encode_decode() {
    let input: Vec<u8> = vec![0; 256];
    let mut output = Vec::<u8>::new();
    let mut encoder = Encoder::new(TestReader { test_data: input.clone(), cursor: 0 });
    let mut buffer: Vec<u8> = vec![0u8; 128 * 1024];

    loop {
        match encoder.read(&mut buffer) {
            Ok(bytes) => {
                if bytes > 0 {
                    output.extend(&buffer[0..bytes]);
                } else {
                    break;
                }

                if encoder.is_done() {
                    break;
                }
            }
            Err(e) => {
                assert!(false, "{}", e.message());
            }
        }
    }

    match encoder.finish(&mut buffer) {
        Ok(bytes) => {
            println!("Encoded {} bytes (finish).", bytes);
            if bytes > 0 {
                output.extend(&buffer[0..bytes]);
            }
        }
        Err(e) => {
            assert!(false, "{}", e.message());
        }
    }

    println!("Output buffer len: {}", output.len());

    let encoded = TestReader { test_data: output.clone(), cursor: 0 };
    let mut decoder = Decoder::new(encoded);
    output.clear();

    loop {
        match decoder.read(&mut buffer) {
            Ok(bytes) => {
                println!("Decoded {} bytes.", bytes);
                if bytes > 0 {
                    output.extend(&buffer[0..bytes]);
                }

                if decoder.is_done() {
                    break;
                }
            }
            Err(e) => {
                assert!(false, "{}", e.message());
            }
        }
    }

    assert_eq!(input.len(), output.len());
    assert_eq!(input, output);
}
