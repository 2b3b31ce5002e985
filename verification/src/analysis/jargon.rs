//! Domain-specific jargon detection.
//!
//! Meant to compare term frequencies in a document against a background
//! corpus of general English to surface unusually frequent terms. No
//! background corpus is built in yet, so no term is reported.
use vstd::prelude::*;

verus! {

/// Extract candidate jargon terms from document text, by descending score.
///
/// With no background corpus available, every text yields no terms.
pub fn extract_jargon_terms(text: &str) -> (r: Vec<String>)
    ensures
        r@.len() == 0,
{
    let _ = text;
    Vec::new()
}

} // verus!
