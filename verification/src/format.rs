//! Format selection: which codec a selector string names, and the file
//! extension each format appends to a compressed output path.

use vstd::prelude::*;
use vstd::string::StrSliceExecFns;
use vstd::string::StringExecFns;

verus! {

/// The compression formats the tool understands.
#[derive(Clone, Copy, PartialEq, Eq, Structural, Debug)]
pub enum Format {
    Gzip,
    Zstd,
    Lz4,
    Zip,
}

/// Which format a selector string names, if any.
pub open spec fn spec_parse_format(s: Seq<char>) -> Option<Format> {
    if s == "gzip"@ {
        Some(Format::Gzip)
    } else if s == "zstd"@ {
        Some(Format::Zstd)
    } else if s == "lz4"@ {
        Some(Format::Lz4)
    } else if s == "zip"@ {
        Some(Format::Zip)
    } else {
        None
    }
}

/// The extension appended to a compressed output path: a fixed table per
/// format, with `.unknown` for a selector outside the enumerated set.
pub open spec fn spec_extension(s: Seq<char>) -> Seq<char> {
    match spec_parse_format(s) {
        Some(Format::Gzip) => ".gz"@,
        Some(Format::Zstd) => ".zst"@,
        Some(Format::Lz4) => ".lz4"@,
        Some(Format::Zip) => ".zip"@,
        None => ".unknown"@,
    }
}

/// Character-for-character string comparison.
pub fn str_eq(a: &str, b: &str) -> (r: bool)
    ensures
        r == (a@ == b@),
{
    let a_len = a.unicode_len();
    let b_len = b.unicode_len();
    if a_len != b_len {
        return false;
    }
    let mut i: usize = 0;
    while i < a_len
        invariant
            a_len == a@.len(),
            b_len == b@.len(),
            a_len == b_len,
            i <= a_len,
            forall|j: int| 0 <= j < i ==> a@[j] == b@[j],
        decreases a_len - i,
    {
        if a.get_char(i) != b.get_char(i) {
            return false;
        }
        i = i + 1;
    }
    proof {
        assert(a@ =~= b@);
    }
    true
}

/// Resolve a selector string to a format, `None` outside the enumerated set.
pub fn parse_format(s: &str) -> (r: Option<Format>)
    ensures
        r == spec_parse_format(s@),
{
    if str_eq(s, "gzip") {
        Some(Format::Gzip)
    } else if str_eq(s, "zstd") {
        Some(Format::Zstd)
    } else if str_eq(s, "lz4") {
        Some(Format::Lz4)
    } else if str_eq(s, "zip") {
        Some(Format::Zip)
    } else {
        None
    }
}

/// The extension for a selector string, per the fixed table.
pub fn get_compressed_extension(format: &str) -> (r: String)
    ensures
        r@ == spec_extension(format@),
{
    match parse_format(format) {
        Some(Format::Gzip) => String::from_str(".gz"),
        Some(Format::Zstd) => String::from_str(".zst"),
        Some(Format::Lz4) => String::from_str(".lz4"),
        Some(Format::Zip) => String::from_str(".zip"),
        None => String::from_str(".unknown"),
    }
}

/// The path a compressed output is written to: the chosen output path with
/// the format's extension appended.
pub fn output_path_for(output: &str, format: &str) -> (r: String)
    ensures
        r@ == output@ + spec_extension(format@),
{
    let ext = get_compressed_extension(format);
    String::from_str(output).concat(ext.as_str())
}

} // verus!
