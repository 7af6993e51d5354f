//! The latency histogram: an `hdrhistogram::Histogram<u64>` of three
//! significant digits, reached only through the contracts stated here.
//!
//! Nothing in this file is proved. Each item says what is taken on trust from
//! the histogram crate.

use hdrhistogram::AdditionError;
use hdrhistogram::Histogram;
use hdrhistogram::RecordError;
use vstd::multiset::Multiset;
use vstd::prelude::*;

verus! {

#[verifier::external_type_specification]
pub struct ExRecordError(RecordError);

#[verifier::external_type_specification]
pub struct ExAdditionError(AdditionError);

/// A histogram of latencies in nanoseconds.
///
/// It holds a `Histogram<u64>` as `Histogram::new(3)` makes it: lowest
/// discernible value 1, three significant digits, growing on demand. The field
/// is private, so a value of this type has only ever been created, recorded
/// into, added to and cloned.
#[verifier::external_body]
pub struct LatencyHistogram {
    inner: Histogram<u64>,
}

/// What a histogram holds: one entry for every sample counted in it. A sample
/// stands in it as the value under which `Histogram::iter_recorded` reports the
/// bin that counts the sample.
pub uninterp spec fn recorded(h: LatencyHistogram) -> Multiset<u64>;

/// The value under which a sample of `value` stands in `recorded`: what
/// `Histogram::iter_recorded` reports for the bin of `value` in a histogram of
/// three significant digits. For every `value` below `u64::MAX` that is the
/// highest value of the bin, as `Histogram::highest_equivalent` returns it.
pub uninterp spec fn bin_of(value: u64) -> u64;

/// What `Histogram::min` returns for the histogram.
pub uninterp spec fn lowest_of(h: LatencyHistogram) -> u64;

/// What `Histogram::max` returns for the histogram.
pub uninterp spec fn highest_of(h: LatencyHistogram) -> u64;

/// The significant digits to which latencies are kept.
pub const SIGNIFICANT_DIGITS: u8 = 3;

/// How far the value that stands for a bin is from a value of the bin. Below
/// 2048 every value has a bin of its own. Above, a value is counted under the
/// highest value of its bin, which is no more than a thousandth away. The
/// last bin ends at `u64::MAX`, and the histogram reports it one lower.
pub open spec fn near_its_bin(value: u64) -> bool {
    &&& value < 2048 ==> bin_of(value) == value
    &&& value < u64::MAX ==> value <= bin_of(value) && bin_of(value) - value <= value / 1000
    &&& value == u64::MAX ==> bin_of(value) == u64::MAX - 1
}

/// `v` is in `samples` and nothing in `samples` is below it.
pub open spec fn is_least(samples: Multiset<u64>, v: u64) -> bool {
    &&& samples.contains(v)
    &&& forall|w: u64| samples.contains(w) ==> v <= w
}

/// `v` is in `samples` and nothing in `samples` is above it.
pub open spec fn is_greatest(samples: Multiset<u64>, v: u64) -> bool {
    &&& samples.contains(v)
    &&& forall|w: u64| samples.contains(w) ==> w <= v
}

/// `answer` is the minimum that a histogram holding `samples` reports: 0
/// where it holds nothing, else the lowest value of the lowest bin that holds
/// a sample. A histogram in which every sample is `u64::MAX` answers
/// `u64::MAX`.
pub open spec fn is_lowest_answer(samples: Multiset<u64>, answer: u64) -> bool {
    if samples.len() == 0 {
        answer == 0
    } else {
        &&& near_its_bin(answer)
        &&& is_least(samples, bin_of(answer))
        &&& answer == u64::MAX || forall|w: u64| #[trigger]
            bin_of(w) == bin_of(answer) ==> answer <= w
    }
}

/// `answer` is the maximum that a histogram holding `samples` reports: 0
/// where it holds nothing, else the highest value of the highest bin that
/// holds a sample. A histogram that was given `u64::MAX` itself answers
/// `u64::MAX`.
pub open spec fn is_highest_answer(samples: Multiset<u64>, answer: u64) -> bool {
    if samples.len() == 0 {
        answer == 0
    } else {
        &&& near_its_bin(answer)
        &&& is_greatest(samples, bin_of(answer))
        &&& answer == bin_of(answer) || answer == u64::MAX
    }
}

/// Calls `Histogram::new`, which makes an empty histogram that grows on
/// demand. With three significant digits and the bounds that `new` picks,
/// every check of `Histogram::new_with_bounds` passes and 2048 bins are
/// allocated, so the call does not fail.
#[verifier::external_body]
pub(crate) fn open_histogram(digits: u8) -> (h: LatencyHistogram)
    requires
        digits == SIGNIFICANT_DIGITS,
    ensures
        recorded(h) == Multiset::<u64>::empty(),
{
    LatencyHistogram { inner: Histogram::new(digits).expect("three digits are accepted") }
}

/// Calls `Histogram::record`: the bin of `value` counts one sample more. The
/// call succeeds for every value. `record` fails only where growing is
/// switched off, which `Histogram::new` switches on, or where the number of
/// bins does not fit `usize`; three significant digits need at most 54
/// buckets of 1024 bins and 1024 more, 56 320 bins, for all of `u64`. Counts
/// saturate at `u64::MAX`, so the histogram must hold fewer samples than
/// that.
#[verifier::external_body]
pub(crate) fn record_value(h: &mut LatencyHistogram, value: u64) -> (r: Result<(), RecordError>)
    requires
        recorded(*old(h)).len() < u64::MAX,
    ensures
        r is Ok,
        recorded(*final(h)) == recorded(*old(h)).insert(bin_of(value)),
        r is Ok ==> near_its_bin(value),
{
    h.inner.record(value)
}

/// Calls `Histogram::add`. Both histograms have the same bins, so every bin
/// of `h` counts what the two counted before. The call succeeds for every
/// pair: `add` fails only where growing is switched off or where the number
/// of bins does not fit `usize`, as `Histogram::record` does. Counts saturate
/// at `u64::MAX`, so the two together must hold no more samples than that.
#[verifier::external_body]
pub(crate) fn add_histogram(h: &mut LatencyHistogram, other: &LatencyHistogram) -> (r: Result<
    (),
    AdditionError,
>)
    requires
        recorded(*old(h)).len() + recorded(*other).len() <= u64::MAX,
    ensures
        r is Ok,
        recorded(*final(h)) == recorded(*old(h)).add(recorded(*other)),
{
    h.inner.add(&other.inner)
}

/// Calls `Histogram::min`: 0 where nothing is recorded, else the lowest value
/// of the lowest bin that holds a sample.
#[verifier::external_body]
pub(crate) fn lowest_value(h: &LatencyHistogram) -> (r: u64)
    ensures
        r == lowest_of(*h),
        is_lowest_answer(recorded(*h), r),
{
    h.inner.min()
}

/// Calls `Histogram::max`: the highest value of the highest bin that holds a
/// sample. A histogram that never held a sample answers 0.
#[verifier::external_body]
pub(crate) fn highest_value(h: &LatencyHistogram) -> (r: u64)
    ensures
        r == highest_of(*h),
        is_highest_answer(recorded(*h), r),
{
    h.inner.max()
}

/// Walks `Histogram::iter_recorded`, which reports each bin that counts a
/// sample once, from the lowest to the highest, and hands out the value it
/// reports for the bin together with the bin's count.
#[verifier::external_body]
pub(crate) fn filled_bins(h: &LatencyHistogram) -> (r: Vec<(u64, u64)>)
    ensures
        forall|i: int, j: int| 0 <= i < j < r@.len() ==> (#[trigger] r@[i]).0 < (#[trigger] r@[j]).0,
        forall|i: int|
            0 <= i < r@.len() ==> (#[trigger] r@[i]).1 > 0 && recorded(*h).count(r@[i].0)
                == r@[i].1,
        forall|v: u64| #[trigger]
            recorded(*h).contains(v) ==> exists|i: int| 0 <= i < r@.len() && (#[trigger] r@[i]).0 == v,
{
    h.inner.iter_recorded().map(|v| (v.value_iterated_to(), v.count_at_value())).collect()
}

impl Clone for LatencyHistogram {
    /// Calls the `Clone` that `Histogram` derives: the copy holds what the
    /// histogram holds and answers as it does.
    #[verifier::external_body]
    fn clone(&self) -> (r: Self)
        ensures
            recorded(r) == recorded(*self),
            lowest_of(r) == lowest_of(*self),
            highest_of(r) == highest_of(*self),
    {
        LatencyHistogram { inner: self.inner.clone() }
    }
}

} // verus!
