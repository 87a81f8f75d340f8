//! Turning the compressed bytes of a file into its contents.
use vstd::prelude::*;
use crate::archive::FileLocation;
use crate::error::{ArcError, GetFileError};

verus! {

/// What zstd decompression of `src` into a buffer of `cap` bytes writes, or
/// `None` where it fails. The outcome depends on the buffer's size as well as
/// on `src`: besides data that does not fit, the legacy-format decoders refuse
/// some data that ends close to the end of the buffer.
pub uninterp spec fn zstd_decoded(src: Seq<u8>, cap: nat) -> Option<Seq<u8>>;

/// Relies on `zstd::block::decompress_to_buffer`: with no dictionary and a
/// fresh context it decompresses `src` into the front of `dst` and returns
/// the number of bytes written, which is at most the slice's length, or an
/// error. The slice keeps its length.
#[verifier::external_body]
fn decompress_to_buffer(src: &[u8], dst: &mut Vec<u8>) -> (r: Result<usize, std::io::Error>)
    ensures
        final(dst)@.len() == old(dst)@.len(),
        r is Ok <==> zstd_decoded(src@, old(dst)@.len()) is Some,
        r matches Ok(n) ==> zstd_decoded(src@, old(dst)@.len()) matches Some(d) && n == d.len()
            && n <= old(dst)@.len() && final(dst)@.subrange(0, n as int) == d,
{
    zstd::block::decompress_to_buffer(src, dst.as_mut_slice())
}

/// Decides what the reading of `file_name` returns once the decompressor has
/// written `produced` bytes into `out`, a buffer of the expected size
/// `expected`.
pub fn check_decompressed(
    file_name: &str,
    expected: u32,
    produced: Result<usize, std::io::Error>,
    out: Vec<u8>,
) -> (r: Result<Vec<u8>, GetFileError>)
    ensures
        match produced {
            Ok(n) => if n == expected {
                r == Ok::<Vec<u8>, GetFileError>(out)
            } else {
                r matches Err(
                    GetFileError::InternalError(ArcError::SizeMismatch { path, expected: e, actual }),
                ) && path@ == file_name@ && e == expected && actual == n
            },
            Err(e) => r matches Err(
                GetFileError::InternalError(ArcError::Decompress { path, error }),
            ) && path@ == file_name@ && error == e,
        },
{
    match produced {
        Ok(n) => if n == expected as usize {
            Ok(out)
        } else {
            Err(
                GetFileError::InternalError(
                    ArcError::SizeMismatch { path: file_name.to_string(), expected, actual: n },
                ),
            )
        },
        Err(e) => Err(
            GetFileError::InternalError(
                ArcError::Decompress { path: file_name.to_string(), error: e },
            ),
        ),
    }
}

/// The contents that a read of the file at `loc` gives from the compressed
/// bytes `compressed`: what they decompress to in a buffer of the recorded
/// size, where it fills that buffer; `None` otherwise.
pub open spec fn read_outcome(loc: FileLocation, compressed: Seq<u8>) -> Option<Seq<u8>> {
    match zstd_decoded(compressed, loc.decomp_size as nat) {
        Some(d) => if d.len() == loc.decomp_size {
            Some(d)
        } else {
            None
        },
        None => None,
    }
}

/// `r` is what reading the file `path` at `loc` from the compressed bytes
/// `compressed` returns, decompressing into a buffer of the recorded size:
/// its contents where they fill that buffer; a size mismatch where the
/// decompressor writes another number of bytes; a decompression error,
/// naming the path, where the decompressor fails.
pub open spec fn is_read_result(
    r: Result<Vec<u8>, GetFileError>,
    path: Seq<char>,
    loc: FileLocation,
    compressed: Seq<u8>,
) -> bool {
    match zstd_decoded(compressed, loc.decomp_size as nat) {
        Some(d) => if d.len() == loc.decomp_size {
            r is Ok && r->Ok_0@ == d
        } else {
            r matches Err(
                GetFileError::InternalError(ArcError::SizeMismatch { path: p, expected, actual }),
            ) && p@ == path && expected == loc.decomp_size && actual == d.len()
        },
        None => r matches Err(GetFileError::InternalError(ArcError::Decompress { path: p, .. }))
            && p@ == path,
    }
}

/// Reading a file gives bytes of the size that its location records, and
/// reading it again gives the same outcome: two results of reading one
/// location from the same compressed bytes are both the same contents, or
/// both the same kind of error.
pub proof fn lemma_read_repeatable(
    path: Seq<char>,
    loc: FileLocation,
    compressed: Seq<u8>,
    first: Result<Vec<u8>, GetFileError>,
    second: Result<Vec<u8>, GetFileError>,
)
    requires
        is_read_result(first, path, loc, compressed),
        is_read_result(second, path, loc, compressed),
    ensures
        first is Ok <==> read_outcome(loc, compressed) is Some,
        first is Ok ==> first->Ok_0@ == read_outcome(loc, compressed)->Some_0
            && first->Ok_0@.len() == loc.decomp_size,
        first is Ok <==> second is Ok,
        first is Ok ==> first->Ok_0@ == second->Ok_0@,
        first matches Err(GetFileError::InternalError(ArcError::SizeMismatch { .. })) <==> second matches Err(
            GetFileError::InternalError(ArcError::SizeMismatch { .. }),
        ),
        first matches Err(GetFileError::InternalError(ArcError::Decompress { .. })) <==> second matches Err(
            GetFileError::InternalError(ArcError::Decompress { .. }),
        ),
{
}

/// The contents of the file `file_name` that lies at `loc`, from its
/// compressed bytes.
pub fn extract(file_name: &str, loc: &FileLocation, compressed: &[u8]) -> (r: Result<
    Vec<u8>,
    GetFileError,
>)
    ensures
        is_read_result(r, file_name@, *loc, compressed@),
        r is Ok <==> read_outcome(*loc, compressed@) is Some,
{
    let mut out: Vec<u8> = vec![0u8; loc.decomp_size as usize];
    let produced = decompress_to_buffer(compressed, &mut out);
    proof {
        if produced is Ok && produced->Ok_0 == loc.decomp_size {
            assert(out@ == out@.subrange(0, loc.decomp_size as int));
        }
    }
    check_decompressed(file_name, loc.decomp_size, produced, out)
}

} // verus!
