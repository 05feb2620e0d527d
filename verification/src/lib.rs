//! Safe, verified null-terminated byte strings: a borrowed view (`CStr`), an
//! owning buffer (`CString`), and the byte-search primitive (`memchr`) used to
//! validate them.

pub mod memchr;
mod c_str;

pub use c_str::{CStr, CString, FromBytesWithNulError, NulError};
pub use c_str::{content_of, is_c_str, with_nul};
pub use c_str::{lemma_interior_nul_rejected, lemma_missing_nul_rejected, lemma_with_nul_roundtrip};
