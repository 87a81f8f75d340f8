//! Reader for `data.arc` game-asset archives: decodes the fixed header and the
//! node metadata section, rebuilds the offset of every table in that section,
//! and resolves a file path through the hash index down to the compressed
//! byte range that holds the file.
pub mod archive;
pub mod bytes;
pub mod error;
pub mod extract;
pub mod hash;
pub mod records;
pub mod layout;

pub use archive::{DataArc, FileLocation};
pub use error::{ArcError, GetFileError, ParseError};
pub use extract::extract;
pub use hash::hash40;
