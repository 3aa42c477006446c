use zstream::classify;
use zstream::AllocationCounter;
use zstream::CodecError;
use zstream::Decoder;
use zstream::Encoder;
use zstream::EngineStatus;
use zstream::ErrorKind;
use zstream::MemSource;
use zstream::Operation;
use zstream::Source;

fn compress_zeros() -> Vec<u8> {
    let mut encoder = Encoder::new(MemSource::new(vec![0u8; 256]));
    let mut out: Vec<u8> = Vec::new();
    let mut buf: Vec<u8> = vec![0u8; 4096];
    loop {
        let n = encoder.read(&mut buf).expect("read failed");
        if n > 0 {
            out.extend_from_slice(&buf[0..n]);
        }
        if n == 0 && encoder.total_in() == 256 {
            break;
        }
    }
    while !encoder.is_done() {
        let n = encoder.finish(&mut buf).expect("finish failed");
        if n > 0 {
            out.extend_from_slice(&buf[0..n]);
        }
    }
    out
}

#[test]
fn test_empty_source_never_opens_session() {
    let mut decoder = Decoder::new(MemSource::new(Vec::new()));
    let mut buf: Vec<u8> = vec![0u8; 64];
    for _ in 0..3 {
        let n = decoder.read(&mut buf).expect("read failed");
        assert_eq!(n, 0);
        assert!(!decoder.is_done());
        assert_eq!(decoder.live_allocations(), 0);
    }
    assert_eq!(decoder.total_in(), 0);
    assert_eq!(decoder.total_out(), 0);
}

#[test]
fn test_corrupt_input_reports_data_corruption() {
    let mut decoder = Decoder::new(MemSource::new(vec![1u8, 2, 3, 4, 5]));
    let mut buf: Vec<u8> = vec![0u8; 64];
    let r = decoder.read(&mut buf);
    assert!(matches!(
        r,
        Err(CodecError::Engine(Operation::Inflating, ErrorKind::DataCorruption))
    ));
    assert!(!decoder.is_done());
}

#[test]
fn test_done_is_monotonic() {
    let compressed = compress_zeros();
    let mut decoder = Decoder::new(MemSource::new(compressed));
    let mut buf: Vec<u8> = vec![0u8; 4096];
    while !decoder.is_done() {
        decoder.read(&mut buf).expect("read failed");
    }
    let produced = decoder.total_out();
    assert_eq!(produced, 256);
    for _ in 0..4 {
        let n = decoder.read(&mut buf).expect("read after done failed");
        assert_eq!(n, 0);
        assert!(decoder.is_done());
        assert_eq!(decoder.total_out(), produced);
    }
}

#[test]
fn test_teardown_is_idempotent() {
    let mut encoder = Encoder::new(MemSource::new(vec![7u8; 32]));
    assert_eq!(encoder.live_allocations(), 1);
    encoder.cleanup();
    assert_eq!(encoder.live_allocations(), 0);
    encoder.cleanup();
    encoder.cleanup();
    assert_eq!(encoder.live_allocations(), 0);

    let mut decoder = Decoder::new(MemSource::new(compress_zeros()));
    let mut buf: Vec<u8> = vec![0u8; 64];
    decoder.read(&mut buf).expect("read failed");
    assert_eq!(decoder.live_allocations(), 1);
    decoder.finish().expect("finish failed");
    assert_eq!(decoder.live_allocations(), 0);
    decoder.finish().expect("second finish failed");
    decoder.cleanup();
    assert_eq!(decoder.live_allocations(), 0);
    assert!(decoder.is_done());
}

#[test]
fn test_allocation_counter_returns_to_baseline() {
    let mut encoder = Encoder::new(MemSource::new(vec![0u8; 256]));
    let mut out: Vec<u8> = Vec::new();
    let mut buf: Vec<u8> = vec![0u8; 4096];
    loop {
        let n = encoder.read(&mut buf).expect("read failed");
        if n > 0 {
            out.extend_from_slice(&buf[0..n]);
        }
        if n == 0 && encoder.total_in() == 256 {
            break;
        }
    }
    while !encoder.is_done() {
        let n = encoder.finish(&mut buf).expect("finish failed");
        if n > 0 {
            out.extend_from_slice(&buf[0..n]);
        }
    }
    assert_eq!(encoder.live_allocations(), 1);
    encoder.cleanup();
    assert_eq!(encoder.live_allocations(), 0);

    let mut decoder = Decoder::new(MemSource::new(out));
    while !decoder.is_done() {
        decoder.read(&mut buf).expect("read failed");
    }
    assert_eq!(decoder.live_allocations(), 1);
    decoder.cleanup();
    assert_eq!(decoder.live_allocations(), 0);
}

#[test]
fn test_allocation_counter_unit() {
    let mut counter = AllocationCounter::new();
    assert_eq!(counter.live(), 0);
    counter.on_allocate();
    counter.on_allocate();
    assert_eq!(counter.live(), 2);
    counter.on_release();
    assert_eq!(counter.live(), 1);
    counter.on_release();
    assert_eq!(counter.live(), 0);
}

#[test]
fn test_classifier_mappings() {
    assert_eq!(classify(EngineStatus::Working), None);
    assert_eq!(classify(EngineStatus::StreamEnd), None);
    assert_eq!(classify(EngineStatus::NeedDict), Some(ErrorKind::DictionaryRequired));
    assert_eq!(classify(EngineStatus::StreamErr), Some(ErrorKind::StreamStateError));
    assert_eq!(classify(EngineStatus::DataErr), Some(ErrorKind::DataCorruption));
    assert_eq!(classify(EngineStatus::MemErr), Some(ErrorKind::MemoryError));
    assert_eq!(classify(EngineStatus::BufErr), Some(ErrorKind::BufferExhausted));
    assert_eq!(classify(EngineStatus::OtherErr(-6)), Some(ErrorKind::Unknown(-6)));
}

#[test]
fn test_error_messages() {
    let e = CodecError::Engine(Operation::Inflating, ErrorKind::DataCorruption);
    assert_eq!(e.message(), "Failed inflating: Z_DATA_ERROR");
    let e = CodecError::Engine(Operation::Deflating, ErrorKind::BufferExhausted);
    assert_eq!(e.message(), "Failed deflating: Z_BUF_ERROR");
    let e = CodecError::Engine(Operation::Inflating, ErrorKind::MemoryError);
    assert_eq!(e.message(), "Failed inflating: Z_MEM_ERROR");
    let e = CodecError::Engine(Operation::Deflating, ErrorKind::StreamStateError);
    assert_eq!(e.message(), "Failed deflating: Z_STREAM_ERROR");
    let e = CodecError::Engine(Operation::Inflating, ErrorKind::DictionaryRequired);
    assert_eq!(e.message(), "Failed inflating: Z_NEED_DICT");
    let e = CodecError::Engine(Operation::Inflating, ErrorKind::Unknown(-10000));
    assert_eq!(e.message(), "Failed inflating: UNKNOWN");
    let e = CodecError::Source(String::from("the disk fell over"));
    assert_eq!(e.message(), "the disk fell over");
}

#[test]
fn test_empty_output_buffer() {
    // The engine accepts input even with no output room, holding the
    // decompressed bytes back; a later read with room drains them.
    let mut decoder = Decoder::new(MemSource::new(compress_zeros()));
    let mut empty: Vec<u8> = Vec::new();
    let r = decoder.read(&mut empty);
    assert_eq!(r, Ok(0));
    let mut roomy: Vec<u8> = vec![0u8; 4096];
    let mut restored: Vec<u8> = Vec::new();
    while !decoder.is_done() {
        let n = decoder.read(&mut roomy).expect("drain failed");
        restored.extend_from_slice(&roomy[0..n]);
    }
    assert_eq!(restored, vec![0u8; 256]);

    // The compressing engine refuses an empty output buffer outright.
    let mut encoder = Encoder::new(MemSource::new(vec![9u8; 16]));
    let r = encoder.read(&mut empty);
    assert!(matches!(
        r,
        Err(CodecError::Engine(Operation::Deflating, ErrorKind::BufferExhausted))
    ));
}

#[test]
fn test_read_after_cleanup_is_stream_state_error() {
    let mut encoder = Encoder::new(MemSource::new(vec![5u8; 16]));
    encoder.cleanup();
    let mut buf: Vec<u8> = vec![0u8; 64];
    let r = encoder.read(&mut buf);
    assert!(matches!(
        r,
        Err(CodecError::Engine(Operation::Deflating, ErrorKind::StreamStateError))
    ));
}

#[test]
fn test_mem_source_yields_in_chunks() {
    let mut source = MemSource::new(vec![10u8, 11, 12, 13, 14, 15, 16, 17, 18, 19]);
    let mut buf: Vec<u8> = vec![0u8; 4];
    assert_eq!(source.pull(&mut buf), Ok(4));
    assert_eq!(&buf[0..4], &[10, 11, 12, 13]);
    assert_eq!(source.pull(&mut buf), Ok(4));
    assert_eq!(&buf[0..4], &[14, 15, 16, 17]);
    assert_eq!(source.pull(&mut buf), Ok(2));
    assert_eq!(&buf[0..2], &[18, 19]);
    assert_eq!(source.pull(&mut buf), Ok(0));
}

#[test]
fn test_counters_track_diagnostics() {
    let mut encoder = Encoder::new(MemSource::new(vec![3u8; 300]));
    let mut buf: Vec<u8> = vec![0u8; 128];
    let mut last_in = 0;
    let mut last_out = 0;
    for _ in 0..8 {
        encoder.read(&mut buf).expect("read failed");
        assert_eq!(encoder.total_in(), encoder.bytes_in().len());
        assert_eq!(encoder.total_out(), encoder.bytes_out().len());
        assert!(encoder.total_in() >= last_in);
        assert!(encoder.total_out() >= last_out);
        last_in = encoder.total_in();
        last_out = encoder.total_out();
    }
}

#[test]
fn test_adapters_compose_as_sources() {
    // A decoder is a source in its own right: here an encoder pulls its
    // input straight out of a decoder, recompressing a stream on the fly.
    let compressed = compress_zeros();
    let decoder = Decoder::new(MemSource::new(compressed));
    let mut chain = Encoder::new(decoder);
    let mut recompressed: Vec<u8> = Vec::new();
    let mut buf: Vec<u8> = vec![0u8; 1024];
    loop {
        let n = chain.read(&mut buf).expect("read failed");
        if n > 0 {
            recompressed.extend_from_slice(&buf[0..n]);
        }
        if n == 0 && chain.total_in() == 256 {
            break;
        }
    }
    while !chain.is_done() {
        let n = chain.finish(&mut buf).expect("finish failed");
        if n > 0 {
            recompressed.extend_from_slice(&buf[0..n]);
        }
    }
    let mut decoder = Decoder::new(MemSource::new(recompressed));
    let mut restored: Vec<u8> = Vec::new();
    while !decoder.is_done() {
        let n = decoder.read(&mut buf).expect("read failed");
        if n > 0 {
            restored.extend_from_slice(&buf[0..n]);
        }
    }
    assert_eq!(restored, vec![0u8; 256]);
}
