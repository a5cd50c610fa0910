//! Sampling statistics for the entropy estimate of a view.
//!
//! The estimate is the Shannon entropy of how a coarse grid of samples
//! spreads over classification buckets. This module counts the samples per
//! bucket with a `histogram::Histogram`; the caller turns the counts into
//! probabilities and logarithms.
//!
//! Every histogram in this module is made by `histogram_new` and changed by
//! `histogram_increment` alone, and none leaves the module. The contracts
//! of the trusted functions below are stated of such histograms.

use histogram::Histogram;
use vstd::multiset::Multiset;
use vstd::prelude::*;

verus! {

/// The largest value that a histogram with the default configuration
/// records.
pub const MAX_RECORDED: u64 = 60_000_000_000;

/// The largest value that has a bucket of its own, at its own position, in
/// a histogram with the default configuration.
pub const MAX_EXACT: u64 = 1032;

#[verifier::external_type_specification]
#[verifier::external_body]
pub struct ExHistogram(Histogram);

/// What a histogram holds: one occurrence of a bucket's position for each
/// sample counted in that bucket.
pub uninterp spec fn recorded(histogram: Histogram) -> Multiset<int>;

/// For a value beyond `MAX_EXACT`: how many positions after the last exact
/// bucket the bucket of that value lies. Nearby large values share a
/// bucket.
pub uninterp spec fn coarse_rank(value: u64) -> nat;

/// The position of the bucket in which a histogram with the default
/// configuration counts `value`.
pub open spec fn bucket_of(value: u64) -> int {
    if value <= MAX_EXACT {
        value as int
    } else {
        MAX_EXACT + 1 + coarse_rank(value)
    }
}

/// Creates an empty histogram.
///
/// Trusted: `Histogram::new`. The contract claims that a new histogram
/// holds no sample.
#[verifier::external_body]
fn histogram_new() -> (histogram: Histogram)
    ensures
        recorded(histogram) == Multiset::<int>::empty(),
{
    Histogram::new()
}

/// Records one sample.
///
/// Trusted: `Histogram::increment`. The contract claims that a value up to
/// `MAX_RECORDED` is accepted and adds one to the count of its bucket and
/// to nothing else; that a value up to `MAX_EXACT` has the bucket at its
/// own position; and that the bucket of a larger value lies behind those.
/// Counts saturate in the outside code, so the contract asks for fewer
/// samples than a count can hold.
#[verifier::external_body]
fn histogram_increment(histogram: &mut Histogram, value: u64) -> (accepted: bool)
    requires
        value <= MAX_RECORDED,
        recorded(*old(histogram)).len() < u64::MAX,
    ensures
        accepted,
        recorded(*final(histogram)) == recorded(*old(histogram)).insert(
            if value <= MAX_EXACT {
                value as int
            } else {
                MAX_EXACT + 1 + coarse_rank(value)
            },
        ),
{
    histogram.increment(value).is_ok()
}

/// Returns the number of samples that a histogram holds.
///
/// Trusted: `Histogram::entries`. The contract claims that it returns the
/// number of samples recorded so far.
#[verifier::external_body]
fn histogram_entries(histogram: &Histogram) -> (entries: u64)
    requires
        recorded(*histogram).len() <= u64::MAX,
    ensures
        entries == recorded(*histogram).len(),
{
    histogram.entries()
}

/// Returns the count of every bucket, in the order of the buckets.
///
/// Trusted: the iterator of `&Histogram` and `Bucket::count`. The contract
/// claims that the iterator walks the buckets from position 0 upward, that
/// the entry at a position is the number of samples counted there, and
/// that the walk reaches every bucket that holds a sample.
#[verifier::external_body]
fn histogram_counts(histogram: &Histogram) -> (counts: Vec<u64>)
    requires
        recorded(*histogram).len() <= u64::MAX,
    ensures
        forall|b: int|
            0 <= b < counts@.len() ==> #[trigger] counts@[b] == recorded(*histogram).count(b),
        forall|b: int| #[trigger] recorded(*histogram).count(b) > 0 ==> 0 <= b < counts@.len(),
{
    histogram.into_iter().map(|bucket| bucket.count()).collect()
}

/// The histogram key of a classification: 0 for a bounded point, the
/// escape iteration plus one for an escaped point.
pub open spec fn key_of(value: Option<u32>) -> u64 {
    match value {
        None => 0,
        Some(v) => (v + 1) as u64,
    }
}

/// The buckets of a sequence of classifications: one occurrence of a
/// bucket's position for each sample that falls in it.
pub open spec fn sample_buckets(values: Seq<Option<u32>>) -> Multiset<int>
    decreases values.len(),
{
    if values.len() == 0 {
        Multiset::empty()
    } else {
        sample_buckets(values.drop_last()).insert(bucket_of(key_of(values.last())))
    }
}

/// `span` buckets, counted from position 0, take in every sample.
pub open spec fn covers(samples: Multiset<int>, span: int) -> bool {
    forall|b: int| #[trigger] samples.count(b) > 0 ==> 0 <= b < span
}

/// The counts of the first `span` buckets.
pub open spec fn counts_upto(samples: Multiset<int>, span: int) -> Seq<u64> {
    Seq::new(span as nat, |b: int| samples.count(b) as u64)
}

/// Tells a bucket that holds a sample from an empty one.
pub open spec fn is_observed() -> spec_fn(u64) -> bool {
    |count: u64| count > 0
}

/// Computes the histogram key of a classification.
pub fn bucket_key(value: Option<u32>) -> (key: u64)
    ensures
        key == key_of(value),
{
    match value {
        None => 0,
        Some(v) => v as u64 + 1,
    }
}

/// Every sample falls in exactly one bucket.
pub proof fn lemma_sample_buckets_len(values: Seq<Option<u32>>)
    ensures
        sample_buckets(values).len() == values.len(),
    decreases values.len(),
{
    if values.len() > 0 {
        lemma_sample_buckets_len(values.drop_last());
    }
}

/// Counts the samples per bucket. Returns the count of each bucket from
/// position 0 up to at least the last bucket that holds a sample, and the
/// number of samples.
pub fn bucket_counts(values: &Vec<Option<u32>>) -> (result: (Vec<u64>, u64))
    ensures
        result.1 == values@.len(),
        covers(sample_buckets(values@), result.0@.len() as int),
        result.0@ == counts_upto(sample_buckets(values@), result.0@.len() as int),
{
    let mut histogram = histogram_new();
    let mut i: usize = 0;
    assert(values@.take(0) =~= Seq::<Option<u32>>::empty());
    while i < values.len()
        invariant
            i <= values.len(),
            recorded(histogram) == sample_buckets(values@.take(i as int)),
        decreases values.len() - i,
    {
        proof {
            lemma_sample_buckets_len(values@.take(i as int));
            assert(values@.take(i + 1).drop_last() =~= values@.take(i as int));
        }
        histogram_increment(&mut histogram, bucket_key(values[i]));
        i += 1;
    }
    proof {
        assert(values@.take(i as int) =~= values@);
        lemma_sample_buckets_len(values@);
    }
    let entries = histogram_entries(&histogram);
    let counts = histogram_counts(&histogram);
    proof {
        let samples = sample_buckets(values@);
        assert forall|b: int| 0 <= b < counts@.len() implies counts@[b] == #[trigger] counts_upto(
            samples,
            counts@.len() as int,
        )[b] by {
            assert(samples.count(b) <= samples.len());
        }
        assert(counts@ =~= counts_upto(samples, counts@.len() as int));
    }
    (counts, entries)
}

/// Keeps the counts of the buckets that hold a sample, in their order.
pub fn nonzero_counts(counts: &Vec<u64>) -> (observed: Vec<u64>)
    ensures
        observed@ == counts@.filter(is_observed()),
{
    let mut observed: Vec<u64> = Vec::new();
    let mut i: usize = 0;
    proof {
        reveal(Seq::filter);
        assert(counts@.take(0) =~= Seq::<u64>::empty());
    }
    while i < counts.len()
        invariant
            i <= counts.len(),
            observed@ == counts@.take(i as int).filter(is_observed()),
        decreases counts.len() - i,
    {
        proof {
            reveal(Seq::filter);
            assert(counts@.take(i + 1).drop_last() =~= counts@.take(i as int));
        }
        if counts[i] > 0 {
            observed.push(counts[i]);
        }
        i += 1;
    }
    assert(counts@.take(i as int) =~= counts@);
    observed
}

/// Samples that all have the same classification fall in one bucket: it
/// takes every sample and all other buckets stay empty.
pub proof fn lemma_equal_samples_share_a_bucket(values: Seq<Option<u32>>, value: Option<u32>)
    requires
        forall|i: int| 0 <= i < values.len() ==> #[trigger] values[i] == value,
    ensures
        forall|b: int| #[trigger]
            sample_buckets(values).count(b) == if b == bucket_of(key_of(value)) {
                values.len()
            } else {
                0
            },
    decreases values.len(),
{
    if values.len() > 0 {
        let rest = values.drop_last();
        assert forall|i: int| 0 <= i < rest.len() implies #[trigger] rest[i] == value by {
            assert(rest[i] == values[i]);
        }
        lemma_equal_samples_share_a_bucket(rest, value);
        assert(values.last() == values[values.len() - 1]);
        let home = bucket_of(key_of(value));
        assert(sample_buckets(values) == sample_buckets(rest).insert(home));
        assert forall|b: int| #[trigger]
            sample_buckets(values).count(b) == if b == home {
                values.len()
            } else {
                0
            } by {
            assert(sample_buckets(rest).count(b) == if b == home {
                rest.len()
            } else {
                0
            });
        }
    }
}

/// Buckets without a sample leave no trace among the observed counts.
proof fn lemma_empty_buckets_vanish(counts: Seq<u64>)
    requires
        forall|i: int| 0 <= i < counts.len() ==> #[trigger] counts[i] == 0,
    ensures
        counts.filter(is_observed()) == Seq::<u64>::empty(),
    decreases counts.len(),
{
    reveal(Seq::filter);
    if counts.len() > 0 {
        let rest = counts.drop_last();
        assert forall|i: int| 0 <= i < rest.len() implies #[trigger] rest[i] == 0 by {
            assert(rest[i] == counts[i]);
        }
        lemma_empty_buckets_vanish(rest);
        assert(counts.last() == counts[counts.len() - 1]);
    }
}

/// Samples that all have the same classification leave a single observed
/// count, and it is the number of samples: the one bucket has all the
/// probability.
pub proof fn lemma_equal_samples_one_observed_count(
    values: Seq<Option<u32>>,
    value: Option<u32>,
    span: int,
)
    requires
        1 <= values.len() <= u64::MAX,
        forall|i: int| 0 <= i < values.len() ==> #[trigger] values[i] == value,
        covers(sample_buckets(values), span),
    ensures
        counts_upto(sample_buckets(values), span).filter(is_observed()) == seq![
            values.len() as u64,
        ],
{
    lemma_equal_samples_share_a_bucket(values, value);
    let samples = sample_buckets(values);
    let home = bucket_of(key_of(value));
    assert(samples.count(home) > 0);
    let counts = counts_upto(samples, span);
    let before = counts.take(home);
    let at = seq![counts[home]];
    let after = counts.skip(home + 1);
    assert(counts =~= (before + at) + after);
    assert forall|i: int| 0 <= i < before.len() implies #[trigger] before[i] == 0 by {
        assert(samples.count(i) == 0);
    }
    assert forall|i: int| 0 <= i < after.len() implies #[trigger] after[i] == 0 by {
        assert(samples.count(home + 1 + i) == 0);
    }
    lemma_empty_buckets_vanish(before);
    lemma_empty_buckets_vanish(after);
    Seq::filter_distributes_over_add(before + at, after, is_observed());
    Seq::filter_distributes_over_add(before, at, is_observed());
    assert(at.filter(is_observed()) =~= at) by {
        reveal_with_fuel(Seq::filter, 2);
        assert(at.drop_last() =~= Seq::<u64>::empty());
    }
    assert(counts.filter(is_observed()) =~= seq![values.len() as u64]);
}

/// Classifications with different keys up to `MAX_EXACT` are counted in
/// different buckets, and no larger key is counted with them.
pub proof fn lemma_exact_keys_are_apart(a: Option<u32>, b: Option<u32>)
    requires
        key_of(a) <= MAX_EXACT,
        a != b,
    ensures
        bucket_of(key_of(a)) != bucket_of(key_of(b)),
{
}

} // verus!
