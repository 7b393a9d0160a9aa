//! The compress / decompress pass: resolve the format, pump the input
//! through in fixed-size chunks while advancing a progress counter, and
//! hand the buffered bytes to the selected codec.

use vstd::prelude::*;
use vstd::string::StringSliceAdditionalSpecFns;
use crate::codec::gzip_decode;
use crate::codec::gzip_decoded;
use crate::codec::gzip_encode;
use crate::codec::lz4_decode;
use crate::codec::lz4_decoded;
use crate::codec::lz4_encode;
use crate::codec::zip_decode_first;
use crate::codec::zip_encode;
use crate::codec::zip_first_entry;
use crate::codec::zstd_decode;
use crate::codec::zstd_decoded;
use crate::codec::zstd_encode;
use crate::format::Format;
use crate::format::parse_format;
use crate::format::spec_parse_format;
use crate::progress::Progress;

verus! {

/// How many bytes one read of the source hands to the codec.
pub const CHUNK_SIZE: usize = 8192;

/// Why an operation failed: the selector named no known format, or the
/// codec backend rejected its input.
#[derive(Clone, Copy, PartialEq, Eq, Structural, Debug)]
pub enum CodecError {
    UnsupportedFormat,
    CodecFailure,
}

impl CodecError {
    /// A short description of the failure.
    pub fn message(&self) -> (r: &'static str)
        ensures
            r@ == (match *self {
                CodecError::UnsupportedFormat => "Unsupported format"@,
                CodecError::CodecFailure => "Codec failure"@,
            }),
    {
        match self {
            CodecError::UnsupportedFormat => "Unsupported format",
            CodecError::CodecFailure => "Codec failure",
        }
    }
}

/// What decoding a stream under a format yields: the bytes it holds, or
/// nothing for a stream the format's decoder rejects. For zip this is the
/// first entry's contents alone.
pub open spec fn spec_decoded(fmt: Format, s: Seq<u8>) -> Option<Seq<u8>> {
    match fmt {
        Format::Gzip => gzip_decoded(s),
        Format::Zstd => zstd_decoded(s),
        Format::Lz4 => lz4_decoded(s),
        Format::Zip => zip_first_entry(s),
    }
}

/// Copy `data` into a fresh buffer in fixed-size chunks, in order,
/// advancing the progress counter by each chunk's size as it goes.
pub fn feed_chunks(data: &[u8], progress: &mut Progress) -> (out: Vec<u8>)
    requires
        old(progress).wf(),
        old(progress).done == 0,
        old(progress).total as int == data@.len() as int,
    ensures
        out@ == data@,
        final(progress).wf(),
        final(progress).total == old(progress).total,
        final(progress).done == final(progress).total,
{
    let mut out: Vec<u8> = Vec::new();
    let mut i: usize = 0;
    while i < data.len()
        invariant
            i <= data@.len(),
            out@ == data@.subrange(0, i as int),
            progress.done as int == i as int,
            progress.total as int == data@.len() as int,
        decreases data@.len() - i,
    {
        let end = if data.len() - i < CHUNK_SIZE {
            data.len()
        } else {
            i + CHUNK_SIZE
        };
        let mut j = i;
        while j < end
            invariant
                i <= j <= end,
                end <= data@.len(),
                out@ == data@.subrange(0, j as int),
            decreases end - j,
        {
            out.push(data[j]);
            proof {
                assert(out@ =~= data@.subrange(0, j + 1));
            }
            j = j + 1;
        }
        progress.inc((end - i) as u64);
        i = end;
    }
    proof {
        assert(out@ =~= data@);
    }
    out
}

/// Compress `input` with the format the selector names, at the given
/// level. The zip format records the input under `entry_name`. Fails with
/// `UnsupportedFormat`, before touching any bytes, exactly when the
/// selector is outside the enumerated set; a successful result is a
/// stream the same format decodes back to `input`. The three stream
/// formats always succeed on a supported selector; zip succeeds whenever
/// the entry name and the input fit the archive format's header fields.
pub fn compress_bytes(input: &[u8], entry_name: &str, format: &str, level: u32) -> (r: Result<
    Vec<u8>,
    CodecError,
>)
    ensures
        (r matches Err(e) && e == CodecError::UnsupportedFormat) <==> spec_parse_format(format@) is None,
        r matches Ok(c) ==> (spec_parse_format(format@) matches Some(f) && spec_decoded(f, c@)
            == Some(input@)),
        (spec_parse_format(format@) matches Some(f) && f != Format::Zip) ==> r is Ok,
        spec_parse_format(format@) == Some(Format::Zip) && entry_name.spec_bytes().len() <= 0xFFFF
            && input@.len() <= 0x8000_0000 ==> r is Ok,
{
    let fmt = match parse_format(format) {
        Some(f) => f,
        None => {
            return Err(CodecError::UnsupportedFormat);
        },
    };
    let mut progress = Progress::new(input.len() as u64);
    let buffered = feed_chunks(input, &mut progress);
    let encoded = match fmt {
        // gzip's backend caps the level at 10 and clamps higher values in
        // release builds; the clamp is made explicit here.
        Format::Gzip => {
            let lvl = if level > 10 {
                10
            } else {
                level
            };
            gzip_encode(buffered.as_slice(), lvl)
        },
        Format::Zstd => zstd_encode(buffered.as_slice(), level),
        Format::Lz4 => lz4_encode(buffered.as_slice(), level),
        Format::Zip => zip_encode(entry_name, buffered.as_slice()),
    };
    match encoded {
        Some(c) => Ok(c),
        None => Err(CodecError::CodecFailure),
    }
}

/// Decompress `input` with the format the selector names. Fails with
/// `UnsupportedFormat`, before touching any bytes, exactly when the
/// selector is outside the enumerated set; otherwise succeeds exactly
/// when the format's decoder accepts `input`, and returns the bytes the
/// stream holds — for zip, the first entry's contents alone.
pub fn decompress_bytes(input: &[u8], format: &str) -> (r: Result<Vec<u8>, CodecError>)
    ensures
        (r matches Err(e) && e == CodecError::UnsupportedFormat) <==> spec_parse_format(format@) is None,
        spec_parse_format(format@) matches Some(f) ==> match r {
            Ok(v) => spec_decoded(f, input@) == Some(v@),
            Err(e) => e == CodecError::CodecFailure && spec_decoded(f, input@) is None,
        },
{
    let fmt = match parse_format(format) {
        Some(f) => f,
        None => {
            return Err(CodecError::UnsupportedFormat);
        },
    };
    let mut progress = Progress::new(input.len() as u64);
    let buffered = feed_chunks(input, &mut progress);
    let decoded = match fmt {
        Format::Gzip => gzip_decode(buffered.as_slice()),
        Format::Zstd => zstd_decode(buffered.as_slice()),
        Format::Lz4 => lz4_decode(buffered.as_slice()),
        Format::Zip => zip_decode_first(buffered.as_slice()),
    };
    match decoded {
        Some(v) => Ok(v),
        None => Err(CodecError::CodecFailure),
    }
}

/// Round trip: a stream the compressor produced for some original bytes
/// decodes, under the same format, back to exactly those bytes — so
/// decompressing a successful compression succeeds and restores the
/// input.
pub proof fn lemma_round_trip(fmt: Format, original: Seq<u8>, compressed: Seq<u8>)
    requires
        spec_decoded(fmt, compressed) == Some(original),
    ensures
        spec_decoded(fmt, compressed) is Some,
        spec_decoded(fmt, compressed)->0 == original,
{
}

} // verus!
