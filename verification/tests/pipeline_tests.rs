use compressor::pipeline::compress_bytes;
use compressor::pipeline::decompress_bytes;
use compressor::pipeline::CodecError;

fn sample_bytes() -> Vec<u8> {
    let mut data = Vec::new();
    let mut i: usize = 0;
    while i < 50_000 {
        data.push((i % 251) as u8);
        i += 1;
    }
    data
}

fn round_trip(format: &str, data: &[u8], level: u32) {
    let compressed = compress_bytes(data, "entry", format, level).unwrap();
    let restored = decompress_bytes(&compressed, format).unwrap();
    assert_eq!(restored, data);
}

#[test]
fn round_trip_gzip() {
    round_trip("gzip", &sample_bytes(), 6);
    round_trip("gzip", b"hello world", 6);
}

#[test]
fn round_trip_zstd() {
    round_trip("zstd", &sample_bytes(), 3);
    round_trip("zstd", b"hello world", 3);
}

#[test]
fn round_trip_lz4() {
    round_trip("lz4", &sample_bytes(), 4);
    round_trip("lz4", b"hello world", 4);
}

#[test]
fn round_trip_zip() {
    round_trip("zip", &sample_bytes(), 6);
    round_trip("zip", b"hello world", 6);
}

#[test]
fn round_trip_empty_input() {
    round_trip("gzip", b"", 6);
    round_trip("zstd", b"", 3);
    round_trip("lz4", b"", 4);
    round_trip("zip", b"", 6);
}

#[test]
fn round_trip_default_level() {
    // The command line's default level, accepted by every backend.
    round_trip("gzip", b"default level", 10);
    round_trip("zstd", b"default level", 10);
    round_trip("lz4", b"default level", 10);
}

#[test]
fn unsupported_format_compress() {
    let r = compress_bytes(b"abc", "entry", "rar", 6);
    assert_eq!(r, Err(CodecError::UnsupportedFormat));
}

#[test]
fn unsupported_format_decompress() {
    let r = decompress_bytes(b"abc", "7z");
    assert_eq!(r, Err(CodecError::UnsupportedFormat));
}

#[test]
fn corrupt_stream_fails() {
    let garbage = b"this is not a compressed stream";
    assert_eq!(decompress_bytes(garbage, "gzip"), Err(CodecError::CodecFailure));
    assert_eq!(decompress_bytes(garbage, "zstd"), Err(CodecError::CodecFailure));
    assert_eq!(decompress_bytes(garbage, "lz4"), Err(CodecError::CodecFailure));
    assert_eq!(decompress_bytes(garbage, "zip"), Err(CodecError::CodecFailure));
}

#[test]
fn error_messages() {
    assert_eq!(CodecError::UnsupportedFormat.message(), "Unsupported format");
    assert_eq!(CodecError::CodecFailure.message(), "Codec failure");
}

#[test]
fn compressed_stream_differs_from_input() {
    let data = sample_bytes();
    for format in ["gzip", "zstd", "lz4", "zip"] {
        let compressed = compress_bytes(&data, "entry", format, 6).unwrap();
        assert_ne!(compressed, data);
    }
}
