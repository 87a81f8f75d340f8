//! What can go wrong when an archive is opened or a file is read from it.
use vstd::prelude::*;

verus! {

/// The error type of `std::io`, carried through as it is.
#[verifier::external_type_specification]
#[verifier::external_body]
pub struct ExIoError(std::io::Error);

/// A fault of an archive that starts with the magic number: either the archive
/// is corrupt or it uses a part of the format that this library does not read.
#[derive(Debug)]
pub enum ArcError {
    /// The archive ends inside its header.
    TruncatedHeader,
    /// The node section is compressed, a variant of the format not read here.
    CompressedNodeSection,
    /// The node section's recorded size is below its header's size, or
    /// differs from the number of bytes the section was given as.
    NodeSectionSize,
    /// A record or a table lies outside the node section.
    OutOfBounds,
    /// The physical offset of a file does not fit in 64 bits.
    OffsetOverflow,
    /// The file's tree entry redirects to another one, a variant not read here.
    RedirectEntry,
    /// The file's data is stored uncompressed, a variant not read here.
    StoredSubFile,
    /// The file's data uses a codec other than zstd.
    UnknownCompression(String),
    /// Decompression produced another number of bytes than the file entry records.
    SizeMismatch { path: String, expected: u32, actual: usize },
    /// The decompressor refused the data of the file `path`: it is not valid
    /// zstd data, or it holds more bytes than the file entry records.
    Decompress { path: String, error: std::io::Error },
    /// Reading the archive failed.
    Io(std::io::Error),
}

/// Why an archive could not be opened.
#[derive(Debug)]
pub enum ParseError {
    /// The data does not start with the magic number, so it is no archive.
    NotDataArc,
    /// The data starts with the magic number but could not be read.
    InternalError(ArcError),
}

/// Why a file could not be read from an archive.
#[derive(Debug)]
pub enum GetFileError {
    /// No entry of the archive carries the hash of the path.
    FileNotFound,
    /// The archive could not be read.
    InternalError(ArcError),
}

/// The outcome of a failed lookup, as the contracts speak of it.
#[derive(Clone, Copy, Debug, PartialEq, Eq, Structural)]
pub enum Fault {
    NotFound,
    OutOfBounds,
    OffsetOverflow,
    RedirectEntry,
    StoredSubFile,
    UnknownCompression,
}

/// `e` is the error that reports `f` for the path `path`.
pub open spec fn reports(e: GetFileError, f: Fault, path: Seq<char>) -> bool {
    match f {
        Fault::NotFound => e is FileNotFound,
        Fault::OutOfBounds => e matches GetFileError::InternalError(ArcError::OutOfBounds),
        Fault::OffsetOverflow => e matches GetFileError::InternalError(ArcError::OffsetOverflow),
        Fault::RedirectEntry => e matches GetFileError::InternalError(ArcError::RedirectEntry),
        Fault::StoredSubFile => e matches GetFileError::InternalError(ArcError::StoredSubFile),
        Fault::UnknownCompression => e matches GetFileError::InternalError(
            ArcError::UnknownCompression(p),
        ) && p@ == path,
    }
}

/// The error that reports `f` for the path `path`.
pub fn report(f: Fault, path: &str) -> (e: GetFileError)
    ensures
        reports(e, f, path@),
{
    match f {
        Fault::NotFound => GetFileError::FileNotFound,
        Fault::OutOfBounds => GetFileError::InternalError(ArcError::OutOfBounds),
        Fault::OffsetOverflow => GetFileError::InternalError(ArcError::OffsetOverflow),
        Fault::RedirectEntry => GetFileError::InternalError(ArcError::RedirectEntry),
        Fault::StoredSubFile => GetFileError::InternalError(ArcError::StoredSubFile),
        Fault::UnknownCompression => GetFileError::InternalError(
            ArcError::UnknownCompression(path.to_string()),
        ),
    }
}

} // verus!
