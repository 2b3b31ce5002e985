//! Laws of the corpus summary: every figure of it adds up over a
//! concatenation of document lists, and none depends on the order of the
//! documents.
//!
//! Each figure is a sum over the documents of a per-document contribution
//! (its size, whether it has a given extension, ...); the laws follow from
//! that sum's additivity and its invariance under permutation.
use vstd::prelude::*;

use crate::analysis::summary::{
    age_in_days_of, count_of, date_buckets, date_distribution_of, encoding_keys, extension_keys,
    extractability_counts, extractability_of, is_tally, language_keys, lemma_buckets_le,
    lemma_count_le, lemma_extractability_le, scanned_vs_digital_of, size_sum, summarizes,
};
use crate::output::{CorpusSummary, DocumentMetadata, ScannedVsDigital, TextExtractability, Timestamp};

verus! {

// ── Sums over documents ──────────────────────────────────────────────────

/// The sum of `f` over the documents.
pub open spec fn sum_over(docs: Seq<DocumentMetadata>, f: spec_fn(DocumentMetadata) -> nat) -> nat
    decreases docs.len(),
{
    if docs.len() == 0 {
        0
    } else {
        sum_over(docs.drop_last(), f) + f(docs.last())
    }
}

proof fn lemma_sum_concat(
    a: Seq<DocumentMetadata>,
    b: Seq<DocumentMetadata>,
    f: spec_fn(DocumentMetadata) -> nat,
)
    ensures
        sum_over(a + b, f) == sum_over(a, f) + sum_over(b, f),
    decreases b.len(),
{
    if b.len() == 0 {
        assert(a + b =~= a);
    } else {
        assert((a + b).drop_last() =~= a + b.drop_last());
        assert((a + b).last() == b.last());
        lemma_sum_concat(a, b.drop_last(), f);
    }
}

proof fn lemma_sum_remove(s: Seq<DocumentMetadata>, i: int, f: spec_fn(DocumentMetadata) -> nat)
    requires
        0 <= i < s.len(),
    ensures
        sum_over(s, f) == sum_over(s.remove(i), f) + f(s[i]),
{
    let front = s.take(i);
    let back = s.skip(i + 1);
    assert(s =~= (front + seq![s[i]]) + back);
    assert(s.remove(i) =~= front + back);
    let one = seq![s[i]];
    assert(one.drop_last() =~= Seq::<DocumentMetadata>::empty());
    assert(sum_over(one.drop_last(), f) == 0);
    assert(sum_over(one, f) == f(s[i]));
    lemma_sum_concat(front + seq![s[i]], back, f);
    lemma_sum_concat(front, seq![s[i]], f);
    lemma_sum_concat(front, back, f);
}

proof fn lemma_sum_permutation(
    a: Seq<DocumentMetadata>,
    b: Seq<DocumentMetadata>,
    f: spec_fn(DocumentMetadata) -> nat,
)
    requires
        a.to_multiset() == b.to_multiset(),
    ensures
        sum_over(a, f) == sum_over(b, f),
    decreases a.len(),
{
    broadcast use vstd::seq_lib::group_to_multiset_ensures;

    if a.len() == 0 {
        assert(b.len() == b.to_multiset().len());
        assert(b.len() == 0);
    } else {
        let x = a.last();
        assert(a[a.len() - 1] == x);
        assert(a.contains(x));
        assert(b.to_multiset().count(x) > 0);
        assert(b.contains(x));
        let j = choose|j: int| 0 <= j < b.len() && b[j] == x;
        assert(a.remove(a.len() - 1) =~= a.drop_last());
        assert(a.drop_last().to_multiset() =~= b.remove(j).to_multiset());
        lemma_sum_permutation(a.drop_last(), b.remove(j), f);
        lemma_sum_remove(b, j, f);
    }
}

// ── The per-document contributions ───────────────────────────────────────

/// A document's size.
pub open spec fn size_part() -> spec_fn(DocumentMetadata) -> nat {
    |d: DocumentMetadata| d.file_size_bytes as nat
}

/// 1 for a document with extension `k`.
pub open spec fn extension_part(k: Seq<char>) -> spec_fn(DocumentMetadata) -> nat {
    |d: DocumentMetadata|
        if d.extension@ == k {
            1nat
        } else {
            0nat
        }
}

/// 1 for a document whose language is `k`.
pub open spec fn language_part(k: Seq<char>) -> spec_fn(DocumentMetadata) -> nat {
    |d: DocumentMetadata|
        match d.language {
            Some(l) => if l@ == k {
                1nat
            } else {
                0nat
            },
            None => 0nat,
        }
}

/// 1 for a document whose encoding is `k`.
pub open spec fn encoding_part(k: Seq<char>) -> spec_fn(DocumentMetadata) -> nat {
    |d: DocumentMetadata|
        match d.encoding {
            Some(l) => if l@ == k {
                1nat
            } else {
                0nat
            },
            None => 0nat,
        }
}

/// 1 for a document whose text extractability is `t`.
pub open spec fn extractability_part(t: TextExtractability) -> spec_fn(DocumentMetadata) -> nat {
    |d: DocumentMetadata|
        if extractability_of(d) == Some(t) {
            1nat
        } else {
            0nat
        }
}

/// The recency bucket (0: ≤ 30 days, 1: ≤ 90, 2: ≤ 365, 3: older) of an
/// age in days.
pub open spec fn bucket_of(age: int) -> int {
    if age <= 30 {
        0
    } else if age <= 90 {
        1
    } else if age <= 365 {
        2
    } else {
        3
    }
}

/// 1 for a document modified within recency bucket `b` as seen at `now`.
pub open spec fn bucket_part(now: Timestamp, b: int) -> spec_fn(DocumentMetadata) -> nat {
    |d: DocumentMetadata|
        match d.dates.filesystem_modified {
            Some(m) => if bucket_of(age_in_days_of(now, m)) == b {
                1nat
            } else {
                0nat
            },
            None => 0nat,
        }
}

proof fn lemma_size_sum(docs: Seq<DocumentMetadata>)
    ensures
        size_sum(docs) == sum_over(docs, size_part()),
    decreases docs.len(),
{
    if docs.len() > 0 {
        lemma_size_sum(docs.drop_last());
    }
}

proof fn lemma_extension_count(docs: Seq<DocumentMetadata>, k: Seq<char>)
    ensures
        count_of(extension_keys(docs), k) == sum_over(docs, extension_part(k)),
    decreases docs.len(),
{
    if docs.len() > 0 {
        let keys = extension_keys(docs);
        assert(keys.drop_last() =~= extension_keys(docs.drop_last()));
        assert(keys.last() == docs.last().extension@);
        lemma_extension_count(docs.drop_last(), k);
    }
}

proof fn lemma_count_push_or_keep(s: Seq<Seq<char>>, t: Seq<Seq<char>>, k: Seq<char>)
    requires
        t.len() <= 1,
    ensures
        count_of(s + t, k) == count_of(s, k) + if t.len() == 1 && t[0] == k {
            1nat
        } else {
            0nat
        },
        (s + t).len() == s.len() + t.len(),
{
    if t.len() == 0 {
        assert(s + t =~= s);
    } else {
        assert((s + t).drop_last() =~= s);
        assert((s + t).last() == t[0]);
    }
}

proof fn lemma_language_count(docs: Seq<DocumentMetadata>, k: Seq<char>)
    ensures
        count_of(language_keys(docs), k) == sum_over(docs, language_part(k)),
    decreases docs.len(),
{
    if docs.len() > 0 {
        let tail = match docs.last().language {
            Some(l) => seq![l@],
            None => Seq::<Seq<char>>::empty(),
        };
        lemma_count_push_or_keep(language_keys(docs.drop_last()), tail, k);
        lemma_language_count(docs.drop_last(), k);
    }
}

proof fn lemma_encoding_count(docs: Seq<DocumentMetadata>, k: Seq<char>)
    ensures
        count_of(encoding_keys(docs), k) == sum_over(docs, encoding_part(k)),
    decreases docs.len(),
{
    if docs.len() > 0 {
        let tail = match docs.last().encoding {
            Some(l) => seq![l@],
            None => Seq::<Seq<char>>::empty(),
        };
        lemma_count_push_or_keep(encoding_keys(docs.drop_last()), tail, k);
        lemma_encoding_count(docs.drop_last(), k);
    }
}

proof fn lemma_extractability_sums(docs: Seq<DocumentMetadata>)
    ensures
        extractability_counts(docs) == (
            sum_over(docs, extractability_part(TextExtractability::BornDigital)),
            sum_over(docs, extractability_part(TextExtractability::Scanned)),
            sum_over(docs, extractability_part(TextExtractability::Mixed)),
        ),
    decreases docs.len(),
{
    if docs.len() > 0 {
        lemma_extractability_sums(docs.drop_last());
    }
}

proof fn lemma_bucket_sums(docs: Seq<DocumentMetadata>, now: Timestamp)
    ensures
        date_buckets(docs, now) == (
            sum_over(docs, bucket_part(now, 0)),
            sum_over(docs, bucket_part(now, 1)),
            sum_over(docs, bucket_part(now, 2)),
            sum_over(docs, bucket_part(now, 3)),
        ),
    decreases docs.len(),
{
    if docs.len() > 0 {
        lemma_bucket_sums(docs.drop_last(), now);
    }
}

// ── Reading a summary ────────────────────────────────────────────────────

/// The number of documents a tally lists under `k`; 0 when `k` is not listed.
pub open spec fn tally_count(dist: Seq<(String, u64)>, k: Seq<char>) -> nat {
    if exists|i: int| 0 <= i < dist.len() && #[trigger] dist[i].0@ == k {
        dist[choose|i: int| 0 <= i < dist.len() && #[trigger] dist[i].0@ == k].1 as nat
    } else {
        0
    }
}

/// The number of documents an optional tally lists under `k`; 0 when there
/// is no tally.
pub open spec fn optional_tally_count(dist: Option<Vec<(String, u64)>>, k: Seq<char>) -> nat {
    match dist {
        Some(d) => tally_count(d@, k),
        None => 0,
    }
}

/// The born-digital, scanned and mixed counts of a breakdown; all 0 when
/// there is none.
pub open spec fn breakdown_counts(v: Option<ScannedVsDigital>) -> (nat, nat, nat) {
    match v {
        Some(s) => (s.born_digital as nat, s.scanned as nat, s.mixed as nat),
        None => (0, 0, 0),
    }
}

proof fn lemma_tally_count(dist: Seq<(String, u64)>, keys: Seq<Seq<char>>, k: Seq<char>)
    requires
        is_tally(dist, keys),
    ensures
        tally_count(dist, k) == count_of(keys, k),
{
    lemma_count_le(keys, k);
}

/// The figures of a summary of `docs`, each as a sum over the documents.
proof fn lemma_summary_figures(r: CorpusSummary, docs: Seq<DocumentMetadata>, k: Seq<char>)
    requires
        summarizes(r, docs),
    ensures
        r.total_size_bytes == sum_over(docs, size_part()),
        tally_count(r.format_distribution@, k) == sum_over(docs, extension_part(k)),
        optional_tally_count(r.language_distribution, k) == sum_over(docs, language_part(k)),
        optional_tally_count(r.encoding_distribution, k) == sum_over(docs, encoding_part(k)),
        breakdown_counts(r.scanned_vs_digital) == extractability_counts(docs),
{
    lemma_size_sum(docs);
    lemma_tally_count(r.format_distribution@, extension_keys(docs), k);
    lemma_extension_count(docs, k);
    lemma_language_count(docs, k);
    lemma_encoding_count(docs, k);
    lemma_count_le(language_keys(docs), k);
    lemma_count_le(encoding_keys(docs), k);
    if let Some(d) = r.language_distribution {
        lemma_tally_count(d@, language_keys(docs), k);
    }
    if let Some(d) = r.encoding_distribution {
        lemma_tally_count(d@, encoding_keys(docs), k);
    }
    lemma_extractability_le(docs);
}

// ── Laws ─────────────────────────────────────────────────────────────────

/// The quantities a summary reports add up over a concatenation, for any
/// lists of documents: the total size, the number of documents with each
/// extension, language and encoding, the born-digital, scanned and mixed
/// counts, and each recency bucket at any instant.
pub proof fn law_summary_figures_add_over_concatenation(
    a: Seq<DocumentMetadata>,
    b: Seq<DocumentMetadata>,
    now: Timestamp,
)
    ensures
        size_sum(a + b) == size_sum(a) + size_sum(b),
        forall|k: Seq<char>|
            #[trigger] count_of(extension_keys(a + b), k) == count_of(extension_keys(a), k)
                + count_of(extension_keys(b), k),
        forall|k: Seq<char>|
            #[trigger] count_of(language_keys(a + b), k) == count_of(language_keys(a), k)
                + count_of(language_keys(b), k),
        forall|k: Seq<char>|
            #[trigger] count_of(encoding_keys(a + b), k) == count_of(encoding_keys(a), k)
                + count_of(encoding_keys(b), k),
        extractability_counts(a + b).0 == extractability_counts(a).0 + extractability_counts(b).0,
        extractability_counts(a + b).1 == extractability_counts(a).1 + extractability_counts(b).1,
        extractability_counts(a + b).2 == extractability_counts(a).2 + extractability_counts(b).2,
        date_buckets(a + b, now).0 == date_buckets(a, now).0 + date_buckets(b, now).0,
        date_buckets(a + b, now).1 == date_buckets(a, now).1 + date_buckets(b, now).1,
        date_buckets(a + b, now).2 == date_buckets(a, now).2 + date_buckets(b, now).2,
        date_buckets(a + b, now).3 == date_buckets(a, now).3 + date_buckets(b, now).3,
{
    lemma_size_sum(a);
    lemma_size_sum(b);
    lemma_size_sum(a + b);
    lemma_sum_concat(a, b, size_part());
    assert forall|k: Seq<char>|
        #[trigger] count_of(extension_keys(a + b), k) == count_of(extension_keys(a), k) + count_of(
            extension_keys(b),
            k,
        ) by {
        lemma_extension_count(a, k);
        lemma_extension_count(b, k);
        lemma_extension_count(a + b, k);
        lemma_sum_concat(a, b, extension_part(k));
    }
    assert forall|k: Seq<char>|
        #[trigger] count_of(language_keys(a + b), k) == count_of(language_keys(a), k) + count_of(
            language_keys(b),
            k,
        ) by {
        lemma_language_count(a, k);
        lemma_language_count(b, k);
        lemma_language_count(a + b, k);
        lemma_sum_concat(a, b, language_part(k));
    }
    assert forall|k: Seq<char>|
        #[trigger] count_of(encoding_keys(a + b), k) == count_of(encoding_keys(a), k) + count_of(
            encoding_keys(b),
            k,
        ) by {
        lemma_encoding_count(a, k);
        lemma_encoding_count(b, k);
        lemma_encoding_count(a + b, k);
        lemma_sum_concat(a, b, encoding_part(k));
    }
    lemma_extractability_sums(a);
    lemma_extractability_sums(b);
    lemma_extractability_sums(a + b);
    lemma_sum_concat(a, b, extractability_part(TextExtractability::BornDigital));
    lemma_sum_concat(a, b, extractability_part(TextExtractability::Scanned));
    lemma_sum_concat(a, b, extractability_part(TextExtractability::Mixed));
    lemma_bucket_sums(a, now);
    lemma_bucket_sums(b, now);
    lemma_bucket_sums(a + b, now);
    lemma_sum_concat(a, b, bucket_part(now, 0));
    lemma_sum_concat(a, b, bucket_part(now, 1));
    lemma_sum_concat(a, b, bucket_part(now, 2));
    lemma_sum_concat(a, b, bucket_part(now, 3));
}

/// The quantities a summary reports do not depend on the order of the
/// documents, for any list and any reordering of it, whatever their sizes
/// add up to: the count, the total size, the number of documents with each
/// extension, language and encoding (and with any language or encoding at
/// all), the scanned-vs-digital breakdown and, at any instant, the date
/// distribution.
pub proof fn law_summary_figures_ignore_document_order(
    a: Seq<DocumentMetadata>,
    b: Seq<DocumentMetadata>,
    now: Timestamp,
)
    requires
        a.to_multiset() == b.to_multiset(),
    ensures
        a.len() == b.len(),
        size_sum(a) == size_sum(b),
        forall|k: Seq<char>|
            #[trigger] count_of(extension_keys(a), k) == count_of(extension_keys(b), k),
        forall|k: Seq<char>| #[trigger] count_of(language_keys(a), k) == count_of(language_keys(b), k),
        forall|k: Seq<char>| #[trigger] count_of(encoding_keys(a), k) == count_of(encoding_keys(b), k),
        language_keys(a).len() == language_keys(b).len(),
        encoding_keys(a).len() == encoding_keys(b).len(),
        scanned_vs_digital_of(a) == scanned_vs_digital_of(b),
        date_distribution_of(a, now) == date_distribution_of(b, now),
{
    broadcast use vstd::seq_lib::group_to_multiset_ensures;

    assert(a.len() == a.to_multiset().len());
    assert(b.len() == b.to_multiset().len());
    lemma_size_sum(a);
    lemma_size_sum(b);
    lemma_sum_permutation(a, b, size_part());
    assert forall|k: Seq<char>|
        #[trigger] count_of(extension_keys(a), k) == count_of(extension_keys(b), k) by {
        lemma_extension_count(a, k);
        lemma_extension_count(b, k);
        lemma_sum_permutation(a, b, extension_part(k));
    }
    assert forall|k: Seq<char>|
        #[trigger] count_of(language_keys(a), k) == count_of(language_keys(b), k) by {
        lemma_language_count(a, k);
        lemma_language_count(b, k);
        lemma_sum_permutation(a, b, language_part(k));
    }
    assert forall|k: Seq<char>|
        #[trigger] count_of(encoding_keys(a), k) == count_of(encoding_keys(b), k) by {
        lemma_encoding_count(a, k);
        lemma_encoding_count(b, k);
        lemma_sum_permutation(a, b, encoding_part(k));
    }
    lemma_key_count_permutation(a, b);
    lemma_extractability_sums(a);
    lemma_extractability_sums(b);
    lemma_sum_permutation(a, b, extractability_part(TextExtractability::BornDigital));
    lemma_sum_permutation(a, b, extractability_part(TextExtractability::Scanned));
    lemma_sum_permutation(a, b, extractability_part(TextExtractability::Mixed));
    lemma_bucket_sums(a, now);
    lemma_bucket_sums(b, now);
    lemma_sum_permutation(a, b, bucket_part(now, 0));
    lemma_sum_permutation(a, b, bucket_part(now, 1));
    lemma_sum_permutation(a, b, bucket_part(now, 2));
    lemma_sum_permutation(a, b, bucket_part(now, 3));
}

/// The summary adds up over a concatenation: for the summaries `x` of `a`,
/// `y` of `b` and `z` of `a + b`, the document and byte totals of `z` are
/// the sums of those of `x` and `y`, and so is the count under every key of
/// every distribution (a key missing from a distribution counting 0), every
/// count of the scanned-vs-digital breakdown, and every recency bucket of
/// the date distribution taken at the same instant.
pub proof fn law_summary_adds_over_concatenation(
    a: Seq<DocumentMetadata>,
    b: Seq<DocumentMetadata>,
    x: CorpusSummary,
    y: CorpusSummary,
    z: CorpusSummary,
    now: Timestamp,
)
    requires
        summarizes(x, a),
        summarizes(y, b),
        summarizes(z, a + b),
    ensures
        z.total_documents == x.total_documents + y.total_documents,
        z.total_size_bytes == x.total_size_bytes + y.total_size_bytes,
        forall|k: Seq<char>|
            #[trigger] tally_count(z.format_distribution@, k) == tally_count(
                x.format_distribution@,
                k,
            ) + tally_count(y.format_distribution@, k),
        forall|k: Seq<char>|
            #[trigger] optional_tally_count(z.language_distribution, k) == optional_tally_count(
                x.language_distribution,
                k,
            ) + optional_tally_count(y.language_distribution, k),
        forall|k: Seq<char>|
            #[trigger] optional_tally_count(z.encoding_distribution, k) == optional_tally_count(
                x.encoding_distribution,
                k,
            ) + optional_tally_count(y.encoding_distribution, k),
        breakdown_counts(z.scanned_vs_digital).0 == breakdown_counts(x.scanned_vs_digital).0
            + breakdown_counts(y.scanned_vs_digital).0,
        breakdown_counts(z.scanned_vs_digital).1 == breakdown_counts(x.scanned_vs_digital).1
            + breakdown_counts(y.scanned_vs_digital).1,
        breakdown_counts(z.scanned_vs_digital).2 == breakdown_counts(x.scanned_vs_digital).2
            + breakdown_counts(y.scanned_vs_digital).2,
        ({
            let (da, db, dz) = (
                date_distribution_of(a, now),
                date_distribution_of(b, now),
                date_distribution_of(a + b, now),
            );
            &&& dz.last_30_days == da.last_30_days + db.last_30_days
            &&& dz.last_90_days == da.last_90_days + db.last_90_days
            &&& dz.last_365_days == da.last_365_days + db.last_365_days
            &&& dz.older == da.older + db.older
        }),
{
    let e: Seq<char> = Seq::empty();
    lemma_summary_figures(x, a, e);
    lemma_summary_figures(y, b, e);
    lemma_summary_figures(z, a + b, e);
    lemma_sum_concat(a, b, size_part());
    assert forall|k: Seq<char>|
        #[trigger] tally_count(z.format_distribution@, k) == tally_count(x.format_distribution@, k)
            + tally_count(y.format_distribution@, k) by {
        lemma_summary_figures(x, a, k);
        lemma_summary_figures(y, b, k);
        lemma_summary_figures(z, a + b, k);
        lemma_sum_concat(a, b, extension_part(k));
    }
    assert forall|k: Seq<char>|
        #[trigger] optional_tally_count(z.language_distribution, k) == optional_tally_count(
            x.language_distribution,
            k,
        ) + optional_tally_count(y.language_distribution, k) by {
        lemma_summary_figures(x, a, k);
        lemma_summary_figures(y, b, k);
        lemma_summary_figures(z, a + b, k);
        lemma_sum_concat(a, b, language_part(k));
    }
    assert forall|k: Seq<char>|
        #[trigger] optional_tally_count(z.encoding_distribution, k) == optional_tally_count(
            x.encoding_distribution,
            k,
        ) + optional_tally_count(y.encoding_distribution, k) by {
        lemma_summary_figures(x, a, k);
        lemma_summary_figures(y, b, k);
        lemma_summary_figures(z, a + b, k);
        lemma_sum_concat(a, b, encoding_part(k));
    }
    lemma_extractability_sums(a);
    lemma_extractability_sums(b);
    lemma_extractability_sums(a + b);
    lemma_sum_concat(a, b, extractability_part(TextExtractability::BornDigital));
    lemma_sum_concat(a, b, extractability_part(TextExtractability::Scanned));
    lemma_sum_concat(a, b, extractability_part(TextExtractability::Mixed));
    lemma_bucket_sums(a, now);
    lemma_bucket_sums(b, now);
    lemma_bucket_sums(a + b, now);
    lemma_buckets_le(a, now);
    lemma_buckets_le(b, now);
    lemma_buckets_le(a + b, now);
    lemma_sum_concat(a, b, bucket_part(now, 0));
    lemma_sum_concat(a, b, bucket_part(now, 1));
    lemma_sum_concat(a, b, bucket_part(now, 2));
    lemma_sum_concat(a, b, bucket_part(now, 3));
}

/// The summary does not depend on the order of the documents: the
/// summaries `x` of `a` and `y` of a reordering `b` of `a` have the same
/// totals, list the same count under every key of every distribution (and
/// have a language or encoding distribution alike), have the same
/// scanned-vs-digital breakdown, and the documents give the same date
/// distribution at any instant.
pub proof fn law_summary_ignores_document_order(
    a: Seq<DocumentMetadata>,
    b: Seq<DocumentMetadata>,
    x: CorpusSummary,
    y: CorpusSummary,
    now: Timestamp,
)
    requires
        a.to_multiset() == b.to_multiset(),
        summarizes(x, a),
        summarizes(y, b),
    ensures
        x.total_documents == y.total_documents,
        x.total_size_bytes == y.total_size_bytes,
        forall|k: Seq<char>|
            #[trigger] tally_count(x.format_distribution@, k) == tally_count(
                y.format_distribution@,
                k,
            ),
        x.language_distribution is None <==> y.language_distribution is None,
        forall|k: Seq<char>|
            #[trigger] optional_tally_count(x.language_distribution, k) == optional_tally_count(
                y.language_distribution,
                k,
            ),
        x.encoding_distribution is None <==> y.encoding_distribution is None,
        forall|k: Seq<char>|
            #[trigger] optional_tally_count(x.encoding_distribution, k) == optional_tally_count(
                y.encoding_distribution,
                k,
            ),
        x.scanned_vs_digital == y.scanned_vs_digital,
        date_distribution_of(a, now) == date_distribution_of(b, now),
{
    broadcast use vstd::seq_lib::group_to_multiset_ensures;

    assert(a.len() == a.to_multiset().len());
    assert(b.len() == b.to_multiset().len());
    let e: Seq<char> = Seq::empty();
    lemma_summary_figures(x, a, e);
    lemma_summary_figures(y, b, e);
    lemma_sum_permutation(a, b, size_part());
    assert forall|k: Seq<char>|
        #[trigger] tally_count(x.format_distribution@, k) == tally_count(y.format_distribution@, k) by {
        lemma_summary_figures(x, a, k);
        lemma_summary_figures(y, b, k);
        lemma_sum_permutation(a, b, extension_part(k));
    }
    assert forall|k: Seq<char>|
        #[trigger] optional_tally_count(x.language_distribution, k) == optional_tally_count(
            y.language_distribution,
            k,
        ) by {
        lemma_summary_figures(x, a, k);
        lemma_summary_figures(y, b, k);
        lemma_sum_permutation(a, b, language_part(k));
    }
    assert forall|k: Seq<char>|
        #[trigger] optional_tally_count(x.encoding_distribution, k) == optional_tally_count(
            y.encoding_distribution,
            k,
        ) by {
        lemma_summary_figures(x, a, k);
        lemma_summary_figures(y, b, k);
        lemma_sum_permutation(a, b, encoding_part(k));
    }
    lemma_key_count_permutation(a, b);
    lemma_extractability_sums(a);
    lemma_extractability_sums(b);
    lemma_sum_permutation(a, b, extractability_part(TextExtractability::BornDigital));
    lemma_sum_permutation(a, b, extractability_part(TextExtractability::Scanned));
    lemma_sum_permutation(a, b, extractability_part(TextExtractability::Mixed));
    lemma_bucket_sums(a, now);
    lemma_bucket_sums(b, now);
    lemma_sum_permutation(a, b, bucket_part(now, 0));
    lemma_sum_permutation(a, b, bucket_part(now, 1));
    lemma_sum_permutation(a, b, bucket_part(now, 2));
    lemma_sum_permutation(a, b, bucket_part(now, 3));
}

/// 1 for a document with a language.
spec fn has_language_part() -> spec_fn(DocumentMetadata) -> nat {
    |d: DocumentMetadata|
        if d.language is Some {
            1nat
        } else {
            0nat
        }
}

/// 1 for a document with an encoding.
spec fn has_encoding_part() -> spec_fn(DocumentMetadata) -> nat {
    |d: DocumentMetadata|
        if d.encoding is Some {
            1nat
        } else {
            0nat
        }
}

proof fn lemma_key_lengths(docs: Seq<DocumentMetadata>)
    ensures
        language_keys(docs).len() == sum_over(docs, has_language_part()),
        encoding_keys(docs).len() == sum_over(docs, has_encoding_part()),
    decreases docs.len(),
{
    if docs.len() > 0 {
        lemma_key_lengths(docs.drop_last());
    }
}

proof fn lemma_key_count_permutation(a: Seq<DocumentMetadata>, b: Seq<DocumentMetadata>)
    requires
        a.to_multiset() == b.to_multiset(),
    ensures
        language_keys(a).len() == language_keys(b).len(),
        encoding_keys(a).len() == encoding_keys(b).len(),
{
    lemma_key_lengths(a);
    lemma_key_lengths(b);
    lemma_sum_permutation(a, b, has_language_part());
    lemma_sum_permutation(a, b, has_encoding_part());
}

} // verus!
