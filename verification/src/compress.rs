use vstd::prelude::*;

verus! {

/// The error type of `zstd_util`: the zstd library reported a failure.
#[verifier::external_type_specification]
#[verifier::external_body]
pub struct ExZstdError(zstd_util::Error);

/// The zstd frame that compressing `data` at `level` with the dictionary
/// `dictionary` produces (the wrapper below admits only the empty dictionary).
pub uninterp spec fn zstd_compressed(level: i32, dictionary: Seq<u8>, data: Seq<u8>) -> Seq<u8>;

/// Trusted: makes a `zstd_util::ZstdContext` with `ZstdContext::new(level,
/// Some(dictionary))` and compresses `data` with `ZstdContext::compress`.
/// Claimed: when the call succeeds, its bytes are the zstd frame for `level`,
/// `dictionary` and `data`, which these three alone decide. Nothing is claimed
/// about when the zstd library reports an error. `ZstdContext::new` documents
/// levels `0..=22`; the `requires` holds the level to that range. It also
/// holds the dictionary to the empty one: `ZstdContext::new` panics when zstd
/// rejects a dictionary (a non-empty one that starts with zstd's dictionary
/// magic number is parsed as a full zstd dictionary and may be malformed).
#[verifier::external_body]
fn zstd_compress(level: i32, dictionary: &[u8], data: &[u8]) -> (r: Result<Vec<u8>, zstd_util::Error>)
    requires
        0 <= level <= 22,
        dictionary@.len() == 0,
    ensures
        r matches Ok(bytes) ==> bytes@ == zstd_compressed(level, dictionary@, data@),
{
    let mut context = zstd_util::ZstdContext::new(level, Some(dictionary));
    context.compress(data)
}

/// The zstd level at which built packages are compressed.
pub const PACKAGE_COMPRESSION_LEVEL: i32 = 11;

/// Why a built package could not be compressed.
pub enum CompressError {
    /// The zstd library reported an error.
    Zstd(zstd_util::Error),
}

/// The outcome of compressing a package, given what the zstd library returned:
/// its bytes, or its error wrapped as a [`CompressError`].
pub fn finish_compression(raw: Result<Vec<u8>, zstd_util::Error>) -> (r: Result<Vec<u8>, CompressError>)
    ensures
        r == (match raw {
            Ok(bytes) => Ok(bytes),
            Err(e) => Err(CompressError::Zstd(e)),
        }),
{
    match raw {
        Ok(bytes) => Ok(bytes),
        Err(e) => Err(CompressError::Zstd(e)),
    }
}

/// Compresses the archive of a built package: zstd at level 11 with an empty
/// dictionary, as `build` writes `out/<package>.tar.zst`.
pub fn compress_package(tarball: &[u8]) -> (r: Result<Vec<u8>, CompressError>)
    ensures
        r matches Ok(bytes) ==> bytes@ == zstd_compressed(PACKAGE_COMPRESSION_LEVEL, Seq::empty(), tarball@),
{
    let empty: Vec<u8> = Vec::new();
    let raw = zstd_compress(PACKAGE_COMPRESSION_LEVEL, empty.as_slice(), tarball);
    finish_compression(raw)
}

} // verus!
