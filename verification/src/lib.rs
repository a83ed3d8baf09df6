//! The logic layer of a MAPI-to-mailto bridge: the safe models of the
//! records an external application hands across the boundary, the
//! consolidation of attachments into content-addressed temp storage, and
//! the construction of the `mailto:` URI the external mail client is
//! launched with.

pub mod conversion;
pub mod encoding;
pub mod flags;
pub mod environment;
pub mod file_path;
pub mod structs;
