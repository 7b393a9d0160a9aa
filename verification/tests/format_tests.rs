use compressor::format::get_compressed_extension;
use compressor::format::output_path_for;
use compressor::format::parse_format;
use compressor::format::str_eq;
use compressor::format::Format;

#[test]
fn extension_gzip() {
    assert_eq!(get_compressed_extension("gzip"), ".gz");
}

#[test]
fn extension_zstd() {
    assert_eq!(get_compressed_extension("zstd"), ".zst");
}

#[test]
fn extension_lz4() {
    assert_eq!(get_compressed_extension("lz4"), ".lz4");
}

#[test]
fn extension_zip() {
    assert_eq!(get_compressed_extension("zip"), ".zip");
}

#[test]
fn extension_unknown() {
    assert_eq!(get_compressed_extension("brotli"), ".unknown");
    assert_eq!(get_compressed_extension(""), ".unknown");
    assert_eq!(get_compressed_extension("GZIP"), ".unknown");
}

#[test]
fn parse_known_formats() {
    assert_eq!(parse_format("gzip"), Some(Format::Gzip));
    assert_eq!(parse_format("zstd"), Some(Format::Zstd));
    assert_eq!(parse_format("lz4"), Some(Format::Lz4));
    assert_eq!(parse_format("zip"), Some(Format::Zip));
}

#[test]
fn parse_unknown_format() {
    assert_eq!(parse_format("tar"), None);
    assert_eq!(parse_format(""), None);
    assert_eq!(parse_format("gzip "), None);
}

#[test]
fn output_path_appends_extension() {
    assert_eq!(output_path_for("archive", "gzip"), "archive.gz");
    assert_eq!(output_path_for("archive", "zstd"), "archive.zst");
    assert_eq!(output_path_for("archive", "lz4"), "archive.lz4");
    assert_eq!(output_path_for("archive", "zip"), "archive.zip");
    assert_eq!(output_path_for("archive", "rar"), "archive.unknown");
}

#[test]
fn str_eq_behaves_like_equality() {
    assert!(str_eq("", ""));
    assert!(str_eq("abc", "abc"));
    assert!(!str_eq("abc", "abd"));
    assert!(!str_eq("abc", "ab"));
    assert!(str_eq("\u{00e9}x", "\u{00e9}x"));
    assert!(!str_eq("\u{00e9}x", "ex"));
}
