//! The codec backends, behind trusted wrappers.
//!
//! Each supported format is a pair of operations over in-memory bytes:
//! encoding returns a compressed stream, decoding recovers the bytes a
//! stream holds. The work is done by outside libraries; each wrapper's
//! contract states what its call returns, over an uninterpreted name for
//! the decoded contents of a stream. A failure of the backend surfaces as
//! `None`; no wrapper promises success.

use vstd::prelude::*;
use vstd::string::StringSliceAdditionalSpecFns;

verus! {

/// What decoding a gzip stream yields: the bytes it holds, or nothing for
/// a stream gzip decoding rejects.
pub uninterp spec fn gzip_decoded(s: Seq<u8>) -> Option<Seq<u8>>;

/// What decoding a zstd stream yields.
pub uninterp spec fn zstd_decoded(s: Seq<u8>) -> Option<Seq<u8>>;

/// What decoding an lz4 stream yields.
pub uninterp spec fn lz4_decoded(s: Seq<u8>) -> Option<Seq<u8>>;

/// What reading the first entry of a zip archive yields: that entry's
/// contents, or nothing for bytes that are not an archive with at least
/// one entry.
pub uninterp spec fn zip_first_entry(s: Seq<u8>) -> Option<Seq<u8>>;

/// Relies on flate2's `GzEncoder`: the encode returns a gzip stream that
/// `GzDecoder` reads back to exactly the bytes written. Writing into a
/// `Vec` cannot fail — the encoder only surfaces errors of its inner
/// writer, and a `Vec` produces none — so the encode always succeeds.
/// The backend supports levels up to 10 and asserts that bound in debug
/// builds, so higher levels are kept out here.
#[verifier::external_body]
pub(crate) fn gzip_encode(data: &[u8], level: u32) -> (r: Option<Vec<u8>>)
    requires
        level <= 10,
    ensures
        r is Some,
        r matches Some(c) ==> gzip_decoded(c@) == Some(data@),
{
    let mut enc = flate2::write::GzEncoder::new(Vec::new(), flate2::Compression::new(level));
    match std::io::Write::write_all(&mut enc, data) {
        Ok(()) => enc.finish().ok(),
        Err(_) => None,
    }
}

/// Relies on flate2's `GzDecoder`: decoding is a function of the input
/// bytes alone; `gzip_decoded` names its result.
#[verifier::external_body]
pub(crate) fn gzip_decode(data: &[u8]) -> (r: Option<Vec<u8>>)
    ensures
        match r {
            Some(v) => gzip_decoded(data@) == Some(v@),
            None => gzip_decoded(data@) is None,
        },
{
    let mut dec = flate2::read::GzDecoder::new(data);
    let mut out = Vec::new();
    match std::io::Read::read_to_end(&mut dec, &mut out) {
        Ok(_) => Some(out),
        Err(_) => None,
    }
}

/// Relies on zstd's `encode_all`: the encode returns a zstd stream that
/// `decode_all` reads back to exactly the bytes written. The backend
/// clamps levels outside its range, and encoding into memory surfaces no
/// error, so the encode always succeeds.
#[verifier::external_body]
pub(crate) fn zstd_encode(data: &[u8], level: u32) -> (r: Option<Vec<u8>>)
    ensures
        r is Some,
        r matches Some(c) ==> zstd_decoded(c@) == Some(data@),
{
    zstd::stream::encode_all(data, level as i32).ok()
}

/// Relies on zstd's `decode_all`: decoding is a function of the input
/// bytes alone; `zstd_decoded` names its result.
#[verifier::external_body]
pub(crate) fn zstd_decode(data: &[u8]) -> (r: Option<Vec<u8>>)
    ensures
        match r {
            Some(v) => zstd_decoded(data@) == Some(v@),
            None => zstd_decoded(data@) is None,
        },
{
    match zstd::stream::decode_all(data) {
        Ok(v) => Some(v),
        Err(_) => None,
    }
}

/// Relies on lz4's `Encoder`: the encode returns an lz4 frame that
/// `Decoder` reads back to exactly the bytes written. The backend counts
/// levels above its maximum as the maximum, and encoding into memory
/// surfaces no error, so the encode always succeeds.
#[verifier::external_body]
pub(crate) fn lz4_encode(data: &[u8], level: u32) -> (r: Option<Vec<u8>>)
    ensures
        r is Some,
        r matches Some(c) ==> lz4_decoded(c@) == Some(data@),
{
    let mut enc = lz4::EncoderBuilder::new().level(level).build(Vec::new()).ok()?;
    std::io::Write::write_all(&mut enc, data).ok()?;
    let (out, result) = enc.finish();
    result.ok()?;
    Some(out)
}

/// Relies on lz4's `Decoder`: decoding is a function of the input bytes
/// alone; `lz4_decoded` names its result.
#[verifier::external_body]
pub(crate) fn lz4_decode(data: &[u8]) -> (r: Option<Vec<u8>>)
    ensures
        match r {
            Some(v) => lz4_decoded(data@) == Some(v@),
            None => lz4_decoded(data@) is None,
        },
{
    let mut dec = lz4::Decoder::new(data).ok()?;
    let mut out = Vec::new();
    std::io::Read::read_to_end(&mut dec, &mut out).ok()?;
    Some(out)
}

/// Relies on zip's `ZipWriter`: a successful encode returns an archive
/// whose first (and only) entry holds exactly the bytes written, under
/// the given entry name. Writing to an in-memory buffer, the writer
/// rejects only an entry name too long for the header's 16-bit name
/// field or sizes past the archive format's 32-bit limit (the deflated
/// form grows by far less than two-fold, so data up to 2^31 bytes stays
/// well inside it); within those bounds the encode succeeds.
#[verifier::external_body]
pub(crate) fn zip_encode(entry_name: &str, data: &[u8]) -> (r: Option<Vec<u8>>)
    ensures
        entry_name.spec_bytes().len() <= 0xFFFF && data@.len() <= 0x8000_0000 ==> r is Some,
        r matches Some(c) ==> zip_first_entry(c@) == Some(data@),
{
    let mut zip = zip::ZipWriter::new(std::io::Cursor::new(Vec::new()));
    let options = zip::write::SimpleFileOptions::default()
        .compression_method(zip::CompressionMethod::Deflated);
    zip.start_file(entry_name, options).ok()?;
    std::io::Write::write_all(&mut zip, data).ok()?;
    Some(zip.finish().ok()?.into_inner())
}

/// Relies on zip's `ZipArchive`: reading an archive's first entry is a
/// function of the input bytes alone; `zip_first_entry` names its result.
/// Entries past the first are ignored.
#[verifier::external_body]
pub(crate) fn zip_decode_first(data: &[u8]) -> (r: Option<Vec<u8>>)
    ensures
        match r {
            Some(v) => zip_first_entry(data@) == Some(v@),
            None => zip_first_entry(data@) is None,
        },
{
    let mut archive = zip::ZipArchive::new(std::io::Cursor::new(data)).ok()?;
    let mut entry = archive.by_index(0).ok()?;
    let mut out = Vec::new();
    std::io::Read::read_to_end(&mut entry, &mut out).ok()?;
    Some(out)
}

} // verus!
