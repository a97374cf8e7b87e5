//! In-memory representation of a crawled web document as it moves through a
//! text-corpus construction pipeline: a validated language identification, the
//! per-document annotations attached by successive pipeline stages, and the
//! document itself (content, archival headers, metadata), together with the
//! conversions between the validated in-memory form and the plain textual
//! form used for storage and interchange.

pub mod common_types;
pub mod document;
pub mod error;
pub mod lang;
pub mod text;
