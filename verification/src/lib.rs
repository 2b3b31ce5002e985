//! Muninn core: the classification, analysis and aggregation logic of a
//! filesystem metadata scanner for corpus analysis.
//!
//! Files are classified by how deeply they can be inspected, dispatched to
//! format-specific parsers, run through analysis passes (filename version,
//! department, cross-references, jargon), and aggregated into a corpus
//! summary. Walking directories, reading files and writing the JSON report
//! are left to the caller, which hands the results to these functions.
pub mod analysis;
pub mod classify;
pub mod classify_laws;
pub mod config;
pub mod error;
pub mod globs;
pub mod output;
pub mod parsers;
pub mod scanner;
pub mod text;

pub use config::ScanConfig;
pub use error::{MuninnError, Result};
pub use scanner::Scanner;
