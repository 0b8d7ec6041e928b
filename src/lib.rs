//! Streaming download-and-extract pipeline: the error bridge to generic I/O
//! failures, relative paths and their containment under a destination, the
//! ledger of extracted paths, format dispatch, the per-entry decision of the
//! to-disk extractors, and the decisions of the verifying stream and its drain.
pub mod error;
pub mod path;
pub mod extracted_files;
pub mod format;
pub mod pipeline;
pub mod extract;
