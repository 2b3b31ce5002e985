//! Corpus summary aggregation.
//!
//! After all documents are scanned, this module walks the document list and
//! computes the aggregate statistics of a [`CorpusSummary`].
use vstd::prelude::*;

use crate::output::{
    CorpusSummary, DateModifiedDistribution, DocumentMetadata, ScannedVsDigital,
    TextExtractability, Timestamp,
};

verus! {

// ── Specification ────────────────────────────────────────────────────────

/// Number of occurrences of `k` in `keys`.
pub open spec fn count_of(keys: Seq<Seq<char>>, k: Seq<char>) -> nat
    decreases keys.len(),
{
    if keys.len() == 0 {
        0
    } else {
        count_of(keys.drop_last(), k) + if keys.last() == k {
            1nat
        } else {
            0nat
        }
    }
}

/// `dist` lists each key of `keys` exactly once, with its number of occurrences.
pub open spec fn is_tally(dist: Seq<(String, u64)>, keys: Seq<Seq<char>>) -> bool {
    &&& forall|i: int, j: int| 0 <= i < j < dist.len() ==> dist[i].0@ != dist[j].0@
    &&& forall|i: int| 0 <= i < dist.len() ==> dist[i].1 == count_of(keys, #[trigger] dist[i].0@)
    &&& forall|k: Seq<char>|
        keys.contains(k) <==> exists|i: int| 0 <= i < dist.len() && #[trigger] dist[i].0@ == k
}

/// Sum of the counts of a tally.
pub open spec fn tally_total(dist: Seq<(String, u64)>) -> nat
    decreases dist.len(),
{
    if dist.len() == 0 {
        0
    } else {
        tally_total(dist.drop_last()) + dist.last().1 as nat
    }
}

/// The extension of each document, in order.
pub open spec fn extension_keys(docs: Seq<DocumentMetadata>) -> Seq<Seq<char>> {
    docs.map_values(|d: DocumentMetadata| d.extension@)
}

/// The language of each document that has one, in order.
pub open spec fn language_keys(docs: Seq<DocumentMetadata>) -> Seq<Seq<char>>
    decreases docs.len(),
{
    if docs.len() == 0 {
        Seq::empty()
    } else {
        language_keys(docs.drop_last()) + match docs.last().language {
            Some(l) => seq![l@],
            None => Seq::empty(),
        }
    }
}

/// The encoding of each document that has one, in order.
pub open spec fn encoding_keys(docs: Seq<DocumentMetadata>) -> Seq<Seq<char>>
    decreases docs.len(),
{
    if docs.len() == 0 {
        Seq::empty()
    } else {
        encoding_keys(docs.drop_last()) + match docs.last().encoding {
            Some(l) => seq![l@],
            None => Seq::empty(),
        }
    }
}

/// Sum of the documents' sizes.
pub open spec fn size_sum(docs: Seq<DocumentMetadata>) -> nat
    decreases docs.len(),
{
    if docs.len() == 0 {
        0
    } else {
        size_sum(docs.drop_last()) + docs.last().file_size_bytes as nat
    }
}

/// The text extractability a PDF parser recorded for `d`, if any.
pub open spec fn extractability_of(d: DocumentMetadata) -> Option<TextExtractability> {
    match d.pdf_specific {
        Some(p) => p.text_extractability,
        None => None,
    }
}

/// Born-digital, scanned and mixed counts over the documents.
pub open spec fn extractability_counts(docs: Seq<DocumentMetadata>) -> (nat, nat, nat)
    decreases docs.len(),
{
    if docs.len() == 0 {
        (0, 0, 0)
    } else {
        let (b, s, m) = extractability_counts(docs.drop_last());
        match extractability_of(docs.last()) {
            Some(TextExtractability::BornDigital) => (b + 1, s, m),
            Some(TextExtractability::Scanned) => (b, s + 1, m),
            Some(TextExtractability::Mixed) => (b, s, m + 1),
            None => (b, s, m),
        }
    }
}

/// The scanned-vs-digital breakdown: present when at least one document
/// carries a text extractability.
pub open spec fn scanned_vs_digital_of(docs: Seq<DocumentMetadata>) -> Option<ScannedVsDigital> {
    let (b, s, m) = extractability_counts(docs);
    if b + s + m > 0 {
        Some(ScannedVsDigital { born_digital: b as u64, scanned: s as u64, mixed: m as u64 })
    } else {
        None
    }
}

/// Truncating division (Rust's `/` on signed integers).
pub open spec fn trunc_div(a: int, b: int) -> int {
    if a >= 0 {
        a / b
    } else {
        -((-a) / b)
    }
}

/// Whole seconds from `then` to `now`, truncated toward zero
/// (`now.signed_duration_since(then).num_seconds()`).
pub open spec fn elapsed_seconds(now: Timestamp, then: Timestamp) -> int {
    trunc_div(
        (now.seconds() - then.seconds()) * 1_000_000_000 + now.subsec_nanos() - then.subsec_nanos(),
        1_000_000_000,
    )
}

/// Whole days from `then` to `now`, truncated toward zero
/// (`now.signed_duration_since(then).num_days()`); negative for a future `then`.
pub open spec fn age_in_days_of(now: Timestamp, then: Timestamp) -> int {
    trunc_div(elapsed_seconds(now, then), 86400)
}

/// Recency buckets (≤ 30 days, ≤ 90, ≤ 365, older) of the documents that
/// have a filesystem modification date.
pub open spec fn date_buckets(docs: Seq<DocumentMetadata>, now: Timestamp) -> (
    nat,
    nat,
    nat,
    nat,
)
    decreases docs.len(),
{
    if docs.len() == 0 {
        (0, 0, 0, 0)
    } else {
        let (a, b, c, d) = date_buckets(docs.drop_last(), now);
        match docs.last().dates.filesystem_modified {
            Some(m) => {
                let age = age_in_days_of(now, m);
                if age <= 30 {
                    (a + 1, b, c, d)
                } else if age <= 90 {
                    (a, b + 1, c, d)
                } else if age <= 365 {
                    (a, b, c + 1, d)
                } else {
                    (a, b, c, d + 1)
                }
            },
            None => (a, b, c, d),
        }
    }
}

pub open spec fn date_distribution_of(docs: Seq<DocumentMetadata>, now: Timestamp) -> DateModifiedDistribution {
    let (a, b, c, d) = date_buckets(docs, now);
    DateModifiedDistribution {
        last_30_days: a as u64,
        last_90_days: b as u64,
        last_365_days: c as u64,
        older: d as u64,
    }
}

/// Number of documents that have a filesystem modification date.
pub open spec fn dated_count(docs: Seq<DocumentMetadata>) -> nat
    decreases docs.len(),
{
    if docs.len() == 0 {
        0
    } else {
        dated_count(docs.drop_last()) + if docs.last().dates.filesystem_modified is Some {
            1nat
        } else {
            0nat
        }
    }
}

/// Every field of the summary of `docs` other than the date distribution.
pub open spec fn summarizes(r: CorpusSummary, docs: Seq<DocumentMetadata>) -> bool {
    &&& r.total_documents == docs.len()
    &&& r.total_size_bytes == size_sum(docs)
    &&& is_tally(r.format_distribution@, extension_keys(docs))
    &&& (r.language_distribution is None <==> language_keys(docs).len() == 0)
    &&& (r.language_distribution matches Some(d) ==> is_tally(d@, language_keys(docs)))
    &&& (r.encoding_distribution is None <==> encoding_keys(docs).len() == 0)
    &&& (r.encoding_distribution matches Some(d) ==> is_tally(d@, encoding_keys(docs)))
    &&& r.scanned_vs_digital == scanned_vs_digital_of(docs)
}

// ── Lemmas ───────────────────────────────────────────────────────────────

pub(crate) proof fn lemma_count_le(keys: Seq<Seq<char>>, k: Seq<char>)
    ensures
        count_of(keys, k) <= keys.len(),
        !keys.contains(k) ==> count_of(keys, k) == 0,
    decreases keys.len(),
{
    if keys.len() > 0 {
        lemma_count_le(keys.drop_last(), k);
        if !keys.contains(k) {
            assert(!keys.drop_last().contains(k)) by {
                if keys.drop_last().contains(k) {
                    let j = choose|j: int| 0 <= j < keys.drop_last().len() && keys.drop_last()[j] == k;
                    assert(keys[j] == k);
                }
            }
            assert(keys.last() != k) by {
                if keys.last() == k {
                    assert(keys[keys.len() - 1] == k);
                }
            }
        }
    }
}

proof fn lemma_size_sum_prefix(docs: Seq<DocumentMetadata>, i: int)
    requires
        0 <= i <= docs.len(),
    ensures
        size_sum(docs.take(i)) <= size_sum(docs),
    decreases docs.len() - i,
{
    if i < docs.len() {
        assert(docs.take(i + 1).drop_last() =~= docs.take(i));
        lemma_size_sum_prefix(docs, i + 1);
    } else {
        assert(docs.take(i) =~= docs);
    }
}

pub(crate) proof fn lemma_buckets_le(docs: Seq<DocumentMetadata>, now: Timestamp)
    ensures
        ({
            let (a, b, c, d) = date_buckets(docs, now);
            a + b + c + d == dated_count(docs) && dated_count(docs) <= docs.len()
        }),
    decreases docs.len(),
{
    if docs.len() > 0 {
        lemma_buckets_le(docs.drop_last(), now);
    }
}

pub(crate) proof fn lemma_extractability_le(docs: Seq<DocumentMetadata>)
    ensures
        ({
            let (b, s, m) = extractability_counts(docs);
            b + s + m <= docs.len()
        }),
    decreases docs.len(),
{
    if docs.len() > 0 {
        lemma_extractability_le(docs.drop_last());
    }
}

proof fn lemma_total_push(s: Seq<(String, u64)>, x: (String, u64))
    ensures
        tally_total(s.push(x)) == tally_total(s) + x.1,
{
    assert(s.push(x).drop_last() =~= s);
}

proof fn lemma_total_update(s: Seq<(String, u64)>, j: int, x: (String, u64))
    requires
        0 <= j < s.len(),
    ensures
        tally_total(s.update(j, x)) == tally_total(s) - s[j].1 + x.1,
    decreases s.len(),
{
    if j == s.len() - 1 {
        assert(s.update(j, x).drop_last() =~= s.drop_last());
    } else {
        assert(s.update(j, x).drop_last() =~= s.drop_last().update(j, x));
        lemma_total_update(s.drop_last(), j, x);
    }
}

/// Number of documents that carry a text extractability.
pub open spec fn extractable_count(docs: Seq<DocumentMetadata>) -> nat
    decreases docs.len(),
{
    if docs.len() == 0 {
        0
    } else {
        extractable_count(docs.drop_last()) + if extractability_of(docs.last()) is Some {
            1nat
        } else {
            0nat
        }
    }
}

/// The scanned-vs-digital breakdown counts each document that carries a
/// text extractability exactly once, and is absent exactly when none does.
pub proof fn law_scanned_vs_digital_partitions(docs: Seq<DocumentMetadata>)
    requires
        docs.len() <= usize::MAX,
    ensures
        scanned_vs_digital_of(docs) is None <==> extractable_count(docs) == 0,
        scanned_vs_digital_of(docs) matches Some(v) ==> v.born_digital + v.scanned + v.mixed
            == extractable_count(docs),
    decreases docs.len(),
{
    lemma_extractability_sum(docs);
    lemma_extractability_le(docs);
}

proof fn lemma_extractability_sum(docs: Seq<DocumentMetadata>)
    ensures
        ({
            let (b, s, m) = extractability_counts(docs);
            b + s + m == extractable_count(docs)
        }),
    decreases docs.len(),
{
    if docs.len() > 0 {
        lemma_extractability_sum(docs.drop_last());
    }
}

/// Any instant is zero days old when measured from itself.
pub proof fn law_age_of_now_is_zero(t: Timestamp)
    ensures
        age_in_days_of(t, t) == 0,
{
}

/// Every dated document falls in exactly one recency bucket.
pub proof fn law_date_buckets_partition(docs: Seq<DocumentMetadata>, now: Timestamp)
    requires
        docs.len() <= usize::MAX,
    ensures
        ({
            let d = date_distribution_of(docs, now);
            d.last_30_days + d.last_90_days + d.last_365_days + d.older == dated_count(docs)
        }),
{
    lemma_buckets_le(docs, now);
}

// ── Implementation ───────────────────────────────────────────────────────

/// Adds one occurrence of `key` to the tally `dist` of `keys`.
fn tally_add(dist: &mut Vec<(String, u64)>, key: &String, Ghost(keys): Ghost<Seq<Seq<char>>>)
    requires
        is_tally(old(dist)@, keys),
        tally_total(old(dist)@) == keys.len(),
        keys.len() < usize::MAX,
    ensures
        is_tally(final(dist)@, keys.push(key@)),
        tally_total(final(dist)@) == keys.len() + 1,
{
    let ghost new_keys = keys.push(key@);
    assert(new_keys.drop_last() =~= keys);
    let n = dist.len();
    let mut j: usize = 0;
    while j < n
        invariant
            n == dist@.len(),
            j <= n,
            forall|i: int| 0 <= i < j ==> dist@[i].0@ != key@,
        ensures
            j <= n,
            forall|i: int| 0 <= i < j ==> dist@[i].0@ != key@,
            j < n ==> dist@[j as int].0@ == key@,
        decreases n - j,
    {
        if dist[j].0 == *key {
            break;
        }
        j = j + 1;
    }

    if j < n {
        let ghost old_dist = dist@;
        assert(old_dist[j as int].0@ == key@);
        proof {
            lemma_count_le(keys, key@);
        }
        let count = dist[j].1;
        let name = dist[j].0.clone();
        dist.set(j, (name, count + 1));
        proof {
            lemma_total_update(old_dist, j as int, dist@[j as int]);
        }
        assert forall|i: int| 0 <= i < dist@.len() implies dist@[i].1 == count_of(
            new_keys,
            #[trigger] dist@[i].0@,
        ) by {
            if i != j {
                assert(old_dist[i] == dist@[i]);
                assert(dist@[i].0@ != key@) by {
                    if dist@[i].0@ == key@ {
                        if i < j {
                        } else {
                            assert(old_dist[j as int].0@ == old_dist[i].0@);
                        }
                    }
                }
            }
        }
        assert forall|k: Seq<char>|
            new_keys.contains(k) <==> exists|i: int| 0 <= i < dist@.len() && #[trigger] dist@[i].0@
                == k by {
            if new_keys.contains(k) {
                let t = choose|t: int| 0 <= t < new_keys.len() && new_keys[t] == k;
                if t < keys.len() {
                    assert(keys[t] == k);
                    assert(keys.contains(k));
                    let i = choose|i: int| 0 <= i < old_dist.len() && #[trigger] old_dist[i].0@ == k;
                    assert(dist@[i].0@ == k);
                } else {
                    assert(dist@[j as int].0@ == k);
                }
            }
            if exists|i: int| 0 <= i < dist@.len() && #[trigger] dist@[i].0@ == k {
                let i = choose|i: int| 0 <= i < dist@.len() && #[trigger] dist@[i].0@ == k;
                if i == j {
                    assert(new_keys[keys.len() as int] == k);
                } else {
                    assert(old_dist[i].0@ == k);
                    assert(keys.contains(k));
                    let t = choose|t: int| 0 <= t < keys.len() && keys[t] == k;
                    assert(new_keys[t] == k);
                }
            }
        }
    } else {
        let ghost old_dist = dist@;
        assert(!keys.contains(key@)) by {
            if keys.contains(key@) {
                let i = choose|i: int| 0 <= i < old_dist.len() && #[trigger] old_dist[i].0@ == key@;
            }
        }
        proof {
            lemma_count_le(keys, key@);
        }
        dist.push((key.clone(), 1));
        proof {
            lemma_total_push(old_dist, dist@[n as int]);
            assert(dist@ =~= old_dist.push(dist@[n as int]));
        }
        assert forall|i: int| 0 <= i < dist@.len() implies dist@[i].1 == count_of(
            new_keys,
            #[trigger] dist@[i].0@,
        ) by {
            if i < n {
                assert(old_dist[i] == dist@[i]);
            }
        }
        assert forall|k: Seq<char>|
            new_keys.contains(k) <==> exists|i: int| 0 <= i < dist@.len() && #[trigger] dist@[i].0@
                == k by {
            if new_keys.contains(k) {
                let t = choose|t: int| 0 <= t < new_keys.len() && new_keys[t] == k;
                if t < keys.len() {
                    assert(keys[t] == k);
                    assert(keys.contains(k));
                    let i = choose|i: int| 0 <= i < old_dist.len() && #[trigger] old_dist[i].0@ == k;
                    assert(dist@[i].0@ == k);
                } else {
                    assert(dist@[n as int].0@ == k);
                }
            }
            if exists|i: int| 0 <= i < dist@.len() && #[trigger] dist@[i].0@ == k {
                let i = choose|i: int| 0 <= i < dist@.len() && #[trigger] dist@[i].0@ == k;
                if i == n {
                    assert(new_keys[keys.len() as int] == k);
                } else {
                    assert(old_dist[i].0@ == k);
                    assert(keys.contains(k));
                    let t = choose|t: int| 0 <= t < keys.len() && keys[t] == k;
                    assert(new_keys[t] == k);
                }
            }
        }
    }
}

/// Whole days from `then` to `now`, truncated toward zero.
pub fn age_in_days(now: &Timestamp, then: &Timestamp) -> (r: i64)
    ensures
        r == age_in_days_of(*now, *then),
{
    let ns = now.nanos();
    let ts = then.nanos();
    let delta: i128 = (now.secs() as i128 - then.secs() as i128) * 1_000_000_000i128 + (ns as i128
        - ts as i128);
    let neg = delta < 0;
    let mag: u128 = if neg {
        (-delta) as u128
    } else {
        delta as u128
    };
    let secs: u128 = mag / 1_000_000_000;
    let days: u128 = secs / 86400;
    assert(days <= 0x1_0000_0000_0000) by (nonlinear_arith)
        requires
            mag <= 0x1_0000_0000_0000_0000 * 1_000_000_000,
            secs == mag / 1_000_000_000,
            days == secs / 86400,
    ;
    if neg {
        -(days as i64)
    } else {
        days as i64
    }
}

/// The scanned-vs-digital breakdown of the documents that carry a text
/// extractability (PDFs); `None` when none does.
fn compute_scanned_vs_digital(documents: &[DocumentMetadata]) -> (r: Option<ScannedVsDigital>)
    ensures
        r == scanned_vs_digital_of(documents@),
{
    let ghost docs = documents@;
    let n = documents.len();
    let mut born_digital: u64 = 0;
    let mut scanned: u64 = 0;
    let mut mixed: u64 = 0;
    assert(docs.take(0) =~= Seq::<DocumentMetadata>::empty());
    let mut i: usize = 0;
    while i < n
        invariant
            n == docs.len(),
            docs == documents@,
            i <= n,
            (born_digital as nat, scanned as nat, mixed as nat) == extractability_counts(
                docs.take(i as int),
            ),
        decreases n - i,
    {
        let ghost prefix = docs.take(i as int);
        proof {
            assert(docs.take(i + 1).drop_last() =~= prefix);
            lemma_extractability_le(prefix);
        }
        match &documents[i].pdf_specific {
            Some(pdf) => match &pdf.text_extractability {
                Some(TextExtractability::BornDigital) => born_digital = born_digital + 1,
                Some(TextExtractability::Scanned) => scanned = scanned + 1,
                Some(TextExtractability::Mixed) => mixed = mixed + 1,
                None => {},
            },
            None => {},
        }
        i = i + 1;
    }
    assert(docs.take(n as int) =~= docs);
    if born_digital > 0 || scanned > 0 || mixed > 0 {
        Some(ScannedVsDigital { born_digital, scanned, mixed })
    } else {
        None
    }
}

/// Recency buckets of the documents' filesystem modification dates, by
/// their age in whole days at `now`.
fn compute_date_distribution(documents: &[DocumentMetadata], now: &Timestamp) -> (r: Option<
    DateModifiedDistribution,
>)
    ensures
        r == Some(date_distribution_of(documents@, *now)),
{
    let ghost docs = documents@;
    let n = documents.len();
    let mut last_30: u64 = 0;
    let mut last_90: u64 = 0;
    let mut last_365: u64 = 0;
    let mut older: u64 = 0;
    assert(docs.take(0) =~= Seq::<DocumentMetadata>::empty());
    let mut i: usize = 0;
    while i < n
        invariant
            n == docs.len(),
            docs == documents@,
            i <= n,
            (last_30 as nat, last_90 as nat, last_365 as nat, older as nat) == date_buckets(
                docs.take(i as int),
                *now,
            ),
        decreases n - i,
    {
        let ghost prefix = docs.take(i as int);
        proof {
            assert(docs.take(i + 1).drop_last() =~= prefix);
            lemma_buckets_le(prefix, *now);
        }
        match &documents[i].dates.filesystem_modified {
            Some(modified) => {
                let age = age_in_days(now, modified);
                if age <= 30 {
                    last_30 = last_30 + 1;
                } else if age <= 90 {
                    last_90 = last_90 + 1;
                } else if age <= 365 {
                    last_365 = last_365 + 1;
                } else {
                    older = older + 1;
                }
            },
            None => {},
        }
        i = i + 1;
    }
    assert(docs.take(n as int) =~= docs);
    Some(
        DateModifiedDistribution {
            last_30_days: last_30,
            last_90_days: last_90,
            last_365_days: last_365,
            older,
        },
    )
}

/// Whether the documents' sizes add up to at most `u64::MAX`, so that a
/// summary of them can hold their total.
pub fn total_size_fits(documents: &[DocumentMetadata]) -> (r: bool)
    ensures
        r == (size_sum(documents@) <= u64::MAX),
{
    let ghost docs = documents@;
    let n = documents.len();
    let mut total: u64 = 0;
    let mut i: usize = 0;
    assert(docs.take(0) =~= Seq::<DocumentMetadata>::empty());
    while i < n
        invariant
            n == docs.len(),
            docs == documents@,
            i <= n,
            total == size_sum(docs.take(i as int)),
        decreases n - i,
    {
        assert(docs.take(i + 1).drop_last() =~= docs.take(i as int));
        match total.checked_add(documents[i].file_size_bytes) {
            Some(t) => total = t,
            None => {
                proof {
                    lemma_size_sum_prefix(docs, i + 1);
                }
                return false;
            },
        }
        i = i + 1;
    }
    assert(docs.take(n as int) =~= docs);
    true
}

/// Aggregate per-document metadata into a corpus summary, bucketing
/// modification dates by their age at `now`.
pub fn compute_summary_at(documents: &[DocumentMetadata], now: &Timestamp) -> (r: CorpusSummary)
    requires
        size_sum(documents@) <= u64::MAX,
    ensures
        summarizes(r, documents@),
        r.date_modified_distribution == Some(date_distribution_of(documents@, *now)),
        // Every document is counted once in the format distribution, every
        // document with a language (an encoding) once in the language
        // (encoding) distribution, and every dated document in one bucket.
        tally_total(r.format_distribution@) == r.total_documents,
        r.language_distribution matches Some(d) ==> tally_total(d@) == language_keys(
            documents@,
        ).len(),
        r.encoding_distribution matches Some(d) ==> tally_total(d@) == encoding_keys(
            documents@,
        ).len(),
        r.date_modified_distribution matches Some(d) && d.last_30_days + d.last_90_days
            + d.last_365_days + d.older == dated_count(documents@),
{
    let ghost docs = documents@;
    proof {
        lemma_buckets_le(docs, *now);
    }
    let n = documents.len();
    let mut total_size_bytes: u64 = 0;
    let mut format_distribution: Vec<(String, u64)> = Vec::new();
    let mut lang_dist: Vec<(String, u64)> = Vec::new();
    let mut enc_dist: Vec<(String, u64)> = Vec::new();
    proof {
        assert(docs.take(0) =~= Seq::<DocumentMetadata>::empty());
        assert(extension_keys(docs.take(0)) =~= Seq::<Seq<char>>::empty());
    }
    let mut i: usize = 0;
    while i < n
        invariant
            n == docs.len(),
            docs == documents@,
            size_sum(docs) <= u64::MAX,
            i <= n,
            total_size_bytes == size_sum(docs.take(i as int)),
            is_tally(format_distribution@, extension_keys(docs.take(i as int))),
            is_tally(lang_dist@, language_keys(docs.take(i as int))),
            is_tally(enc_dist@, encoding_keys(docs.take(i as int))),
            tally_total(format_distribution@) == i,
            tally_total(lang_dist@) == language_keys(docs.take(i as int)).len(),
            tally_total(enc_dist@) == encoding_keys(docs.take(i as int)).len(),
            extension_keys(docs.take(i as int)).len() == i,
            language_keys(docs.take(i as int)).len() <= i,
            encoding_keys(docs.take(i as int)).len() <= i,
        decreases n - i,
    {
        let doc = &documents[i];
        let ghost prefix = docs.take(i as int);
        let ghost next = docs.take(i + 1);
        proof {
            assert(next.drop_last() =~= prefix);
            assert(next.last() == docs[i as int]);
            assert(extension_keys(next) =~= extension_keys(prefix).push(doc.extension@));
            lemma_size_sum_prefix(docs, i + 1);
        }
        total_size_bytes = total_size_bytes + doc.file_size_bytes;
        tally_add(&mut format_distribution, &doc.extension, Ghost(extension_keys(prefix)));
        match &doc.language {
            Some(lang) => {
                assert(language_keys(next) =~= language_keys(prefix).push(lang@));
                tally_add(&mut lang_dist, lang, Ghost(language_keys(prefix)));
            },
            None => {
                assert(language_keys(next) =~= language_keys(prefix));
            },
        }
        match &doc.encoding {
            Some(enc) => {
                assert(encoding_keys(next) =~= encoding_keys(prefix).push(enc@));
                tally_add(&mut enc_dist, enc, Ghost(encoding_keys(prefix)));
            },
            None => {
                assert(encoding_keys(next) =~= encoding_keys(prefix));
            },
        }
        i = i + 1;
    }
    proof {
        assert(docs.take(n as int) =~= docs);
    }
    let language_distribution = if lang_dist.len() == 0 {
        None
    } else {
        Some(lang_dist)
    };
    let encoding_distribution = if enc_dist.len() == 0 {
        None
    } else {
        Some(enc_dist)
    };
    proof {
        if language_keys(docs).len() > 0 {
            assert(language_keys(docs).contains(language_keys(docs)[0]));
        }
        if encoding_keys(docs).len() > 0 {
            assert(encoding_keys(docs).contains(encoding_keys(docs)[0]));
        }
        if lang_dist@.len() > 0 {
            assert(language_keys(docs).contains(lang_dist@[0].0@));
        }
        if enc_dist@.len() > 0 {
            assert(encoding_keys(docs).contains(enc_dist@[0].0@));
        }
    }
    CorpusSummary {
        total_documents: n as u64,
        total_size_bytes,
        format_distribution,
        language_distribution,
        encoding_distribution,
        scanned_vs_digital: compute_scanned_vs_digital(documents),
        date_modified_distribution: compute_date_distribution(documents, now),
    }
}

/// A reading of the system clock (`std::time::SystemTime`).
#[verifier::external_type_specification]
#[verifier::external_body]
pub struct ExSystemTime(std::time::SystemTime);

/// `std::time::SystemTime::now()`. Nothing is promised of the reading: it
/// is the clock's.
#[verifier::external_body]
fn system_now() -> std::time::SystemTime {
    std::time::SystemTime::now()
}

/// `SystemTime::duration_since(UNIX_EPOCH)`, with its error (the reading
/// is before the epoch) as `None`. Nothing is promised of which comes back:
/// that depends on the reading.
#[verifier::external_body]
fn since_unix_epoch(t: &std::time::SystemTime) -> Option<core::time::Duration> {
    t.duration_since(std::time::UNIX_EPOCH).ok()
}

/// `UNIX_EPOCH.duration_since(t)`: how long before the Unix epoch the
/// reading `t` is, with its error (the reading is not before the epoch) as
/// `None`. Nothing is promised of which comes back: that depends on the
/// reading.
#[verifier::external_body]
fn until_unix_epoch(t: &std::time::SystemTime) -> Option<core::time::Duration> {
    std::time::UNIX_EPOCH.duration_since(*t).ok()
}

/// `Duration::as_nanos`: the whole nanoseconds in `d`. Nothing is promised
/// beyond the type, as `Duration` is opaque here.
#[verifier::external_body]
fn duration_nanos(d: &core::time::Duration) -> u128 {
    d.as_nanos()
}

/// The instant `n` nanoseconds after the Unix epoch; `None` when its whole
/// seconds do not fit in an `i64`.
pub fn timestamp_from_epoch_nanos(n: u128) -> (r: Option<Timestamp>)
    ensures
        r is Some <==> n / 1_000_000_000 <= i64::MAX,
        r matches Some(t) ==> t.seconds() == n / 1_000_000_000 && t.subsec_nanos() == n
            % 1_000_000_000,
{
    let secs: u128 = n / 1_000_000_000;
    let nanos: u128 = n % 1_000_000_000;
    if secs > 0x7fff_ffff_ffff_ffffu128 {
        return None;
    }
    Timestamp::new(secs as i64, nanos as u32)
}

/// The instant `n` nanoseconds before the Unix epoch; `None` when its
/// seconds, rounded down, do not fit in an `i64`.
pub fn timestamp_before_epoch_nanos(n: u128) -> (r: Option<Timestamp>)
    ensures
        r is Some <==> (n + 999_999_999) / 1_000_000_000 <= 0x8000_0000_0000_0000,
        r matches Some(t) ==> t.seconds() * 1_000_000_000 + t.subsec_nanos() == -(n as int) && 0
            <= t.subsec_nanos() < 1_000_000_000,
{
    let q: u128 = n / 1_000_000_000;
    let rem: u128 = n % 1_000_000_000;
    // The seconds are -q when `n` is whole seconds, -(q + 1) otherwise.
    let magnitude: u128 = if rem == 0 {
        q
    } else {
        q + 1
    };
    assert(magnitude == (n + 999_999_999) / 1_000_000_000);
    if magnitude > 0x8000_0000_0000_0000u128 {
        return None;
    }
    let secs: i64 = if magnitude == 0x8000_0000_0000_0000u128 {
        i64::MIN
    } else {
        -(magnitude as i64)
    };
    let nanos: u32 = if rem == 0 {
        0
    } else {
        (1_000_000_000 - rem) as u32
    };
    Timestamp::new(secs, nanos)
}

/// The current time, or `None` when the clock's reading is too far from the
/// Unix epoch for a timestamp.
fn current_time() -> Option<Timestamp> {
    let reading = system_now();
    match since_unix_epoch(&reading) {
        Some(d) => timestamp_from_epoch_nanos(duration_nanos(&d)),
        None => match until_unix_epoch(&reading) {
            Some(d) => timestamp_before_epoch_nanos(duration_nanos(&d)),
            None => None,
        },
    }
}

/// Aggregate per-document metadata into a corpus summary; modification
/// dates are bucketed by their age at the current time, before or after the
/// Unix epoch. Only when the clock's reading is too far from the epoch for a
/// timestamp (beyond `i64` seconds) is the date distribution left out.
pub fn compute_summary(documents: &[DocumentMetadata]) -> (r: CorpusSummary)
    requires
        size_sum(documents@) <= u64::MAX,
    ensures
        summarizes(r, documents@),
        r.date_modified_distribution matches Some(d) ==> exists|now: Timestamp|
            d == date_distribution_of(documents@, now),
        r.date_modified_distribution matches Some(d) ==> d.last_30_days + d.last_90_days
            + d.last_365_days + d.older == dated_count(documents@),
        tally_total(r.format_distribution@) == r.total_documents,
        r.language_distribution matches Some(d) ==> tally_total(d@) == language_keys(
            documents@,
        ).len(),
        r.encoding_distribution matches Some(d) ==> tally_total(d@) == encoding_keys(
            documents@,
        ).len(),
{
    match current_time() {
        Some(now) => compute_summary_at(documents, &now),
        None => {
            // Without a clock reading the recency buckets mean nothing, so
            // the summary is taken at the epoch and its distribution dropped.
            let epoch = Timestamp::new(0, 0).unwrap();
            let mut summary = compute_summary_at(documents, &epoch);
            summary.date_modified_distribution = None;
            summary
        },
    }
}

} // verus!
