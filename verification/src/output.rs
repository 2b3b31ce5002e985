//! Output types — the data model of the Muninn scan report.
//!
//! These are the values the analysis passes produce and read. The report's
//! JSON form (and its top-level envelope with the scan timestamp and
//! duration) is written by the command-line program, which mirrors these
//! types with serde derives.
use vstd::prelude::*;

use crate::error::ExtractionError;

verus! {

// ═══════════════════════════════════════════════════════════════════════
// Points in time
// ═══════════════════════════════════════════════════════════════════════

/// A UTC instant: whole seconds since the Unix epoch and the nanoseconds
/// within that second (always below one second, so no leap-second
/// representation).
#[derive(Debug, Clone, Copy)]
pub struct Timestamp {
    secs: i64,
    nanos: u32,
}

impl Timestamp {
    #[verifier::type_invariant]
    spec fn well_formed(self) -> bool {
        self.nanos < 1_000_000_000
    }

    /// Seconds since the Unix epoch.
    pub closed spec fn seconds(self) -> int {
        self.secs as int
    }

    /// Nanoseconds past `seconds()`.
    pub closed spec fn subsec_nanos(self) -> int {
        self.nanos as int
    }

    /// The instant `secs` seconds and `nanos` nanoseconds after the epoch;
    /// `None` when `nanos` is a second or more.
    pub fn new(secs: i64, nanos: u32) -> (r: Option<Timestamp>)
        ensures
            r is Some <==> nanos < 1_000_000_000,
            r matches Some(t) ==> t.seconds() == secs && t.subsec_nanos() == nanos,
    {
        if nanos < 1_000_000_000 {
            Some(Timestamp { secs, nanos })
        } else {
            None
        }
    }

    pub fn secs(&self) -> (r: i64)
        ensures
            r == self.seconds(),
    {
        self.secs
    }

    pub fn nanos(&self) -> (r: u32)
        ensures
            r == self.subsec_nanos(),
            r < 1_000_000_000,
    {
        proof {
            use_type_invariant(self);
        }
        self.nanos
    }
}

// ═══════════════════════════════════════════════════════════════════════
// Corpus summary
// ═══════════════════════════════════════════════════════════════════════

/// Aggregate statistics over all scanned documents. Each distribution lists
/// every distinct key once, with the number of documents that carry it.
#[derive(Debug, Clone)]
pub struct CorpusSummary {
    pub total_documents: u64,
    pub total_size_bytes: u64,
    pub format_distribution: Vec<(String, u64)>,
    pub language_distribution: Option<Vec<(String, u64)>>,
    pub encoding_distribution: Option<Vec<(String, u64)>>,
    pub scanned_vs_digital: Option<ScannedVsDigital>,
    pub date_modified_distribution: Option<DateModifiedDistribution>,
}

#[derive(Debug, Clone, Copy, PartialEq, Eq, Structural)]
pub struct ScannedVsDigital {
    pub born_digital: u64,
    pub scanned: u64,
    pub mixed: u64,
}

#[derive(Debug, Clone, Copy, PartialEq, Eq, Structural)]
pub struct DateModifiedDistribution {
    pub last_30_days: u64,
    pub last_90_days: u64,
    pub last_365_days: u64,
    pub older: u64,
}

// ═══════════════════════════════════════════════════════════════════════
// Per-document metadata
// ═══════════════════════════════════════════════════════════════════════

#[derive(Debug, Clone)]
pub struct DocumentMetadata {
    pub relative_path: String,
    pub scan_root: String,
    pub file_size_bytes: u64,
    pub extension: String,
    pub mime_type: Option<String>,
    pub dates: DateInfo,
    pub authorship: Option<Authorship>,
    pub version: Option<VersionInfo>,
    pub encoding: Option<String>,
    pub language: Option<String>,
    pub structure: Option<StructureInfo>,
    pub pdf_specific: Option<PdfSpecific>,
    pub inferred_department: Option<String>,
    pub cross_references: Option<Vec<CrossReference>>,
    pub domain_terms: Option<Vec<String>>,
    pub errors: Option<Vec<ExtractionError>>,
}

#[derive(Debug, Clone, Copy)]
pub struct DateInfo {
    pub filesystem_created: Option<Timestamp>,
    pub filesystem_modified: Option<Timestamp>,
    pub document_created: Option<Timestamp>,
    pub document_modified: Option<Timestamp>,
}

#[derive(Debug, Clone)]
pub struct Authorship {
    pub author: Option<String>,
    pub last_modified_by: Option<String>,
}

#[derive(Debug, Clone)]
pub struct VersionInfo {
    /// Version string extracted from filename pattern (e.g. "v2", "rev3", "FINAL").
    pub filename_version: Option<String>,
    /// Base filename with version stripped, for clustering version families.
    pub version_family: Option<String>,
}

#[derive(Debug, Clone, Copy, PartialEq, Eq, Structural)]
pub struct StructureInfo {
    pub page_count: Option<u64>,
    pub heading_max_depth: Option<u64>,
    pub heading_count: Option<u64>,
    pub table_count: Option<u64>,
    pub image_count: Option<u64>,
    pub footnote_count: Option<u64>,
    pub list_count: Option<u64>,
    pub list_max_nesting_depth: Option<u64>,
    pub cross_reference_count: Option<u64>,
    /// Classified by decision tree if model is available, otherwise null.
    pub complexity_tier: Option<ComplexityTier>,
}

#[derive(Debug, Clone, Copy, PartialEq, Eq, Structural)]
pub enum ComplexityTier {
    Flat,
    Moderate,
    Complex,
}

#[derive(Debug, Clone, Copy, PartialEq, Eq, Structural)]
pub struct PdfSpecific {
    pub text_extractability: Option<TextExtractability>,
    pub pages_with_text: Option<u64>,
    pub pages_without_text: Option<u64>,
    pub embedded_image_count: Option<u64>,
    pub has_forms: Option<bool>,
}

#[derive(Debug, Clone, Copy, PartialEq, Eq, Structural)]
pub enum TextExtractability {
    BornDigital,
    Scanned,
    Mixed,
}

#[derive(Debug, Clone)]
pub struct CrossReference {
    pub reference_text: String,
    pub reference_type: ReferenceType,
}

#[derive(Debug, Clone, Copy, PartialEq, Eq, Structural)]
pub enum ReferenceType {
    InternalId,
    Standard,
    External,
    Unknown,
}

} // verus!
