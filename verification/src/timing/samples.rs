//! Median of overhead samples.

use vstd::prelude::*;
use vstd::relations::sorted_by;
use vstd::seq_lib::lemma_sorted_unique;

verus! {

/// How many samples a calibration takes.
pub const CALIBRATION_SAMPLES: usize = 1000;

/// How many readings warm up a calibration.
pub const WARM_UP_READINGS: usize = 100;

/// How many samples a measurement of the overhead takes.
pub const OVERHEAD_SAMPLES: usize = 100;

/// Median of values in ascending order: the middle one, or the mean of the two in
/// the middle, cut to a whole number; zero of no values.
pub open spec fn sorted_median(values: Seq<u64>) -> int {
    let len = values.len() as int;
    if len == 0 {
        0
    } else if len % 2 == 0 {
        (values[len / 2 - 1] + values[len / 2]) / 2
    } else {
        values[len / 2] as int
    }
}

/// Ascending order.
pub open spec fn ascending() -> spec_fn(u64, u64) -> bool {
    |a: u64, b: u64| a <= b
}

/// Median of values in any order.
pub open spec fn median(values: Seq<u64>) -> int {
    sorted_median(values.sort_by(ascending()))
}

/// Median of values in ascending order.
pub fn median_of_sorted(values: &[u64]) -> (result: u64)
    ensures
        result == sorted_median(values@),
{
    let len: usize = values.len();
    if len == 0 {
        return 0;
    }
    if len % 2 == 0 {
        let sum: u128 = values[len / 2 - 1] as u128 + values[len / 2] as u128;
        (sum / 2) as u64
    } else {
        values[len / 2]
    }
}

/// `[u64]::sort_unstable` brings the values into ascending order and keeps each as
/// often as it was there.
#[verifier::external_body]
fn sort_samples(values: &mut Vec<u64>)
    ensures
        sorted_by(final(values)@, ascending()),
        final(values)@.to_multiset() == old(values)@.to_multiset(),
{
    values.sort_unstable()
}

/// Median of values in any order.
pub fn median_of(values: Vec<u64>) -> (result: u64)
    ensures
        result == median(values@),
{
    let mut sorted = values;
    sort_samples(&mut sorted);
    proof {
        values@.lemma_sort_by_ensures(ascending());
        lemma_sorted_unique(sorted@, values@.sort_by(ascending()), ascending());
    }
    median_of_sorted(sorted.as_slice())
}

/// The overhead between two readings, zero if the clock went back.
pub open spec fn overhead_spec(start: u64, end: u64) -> u64 {
    end.saturating_sub(start)
}

/// The overhead between two readings, zero if the clock went back.
pub fn overhead_between(start: u64, end: u64) -> (overhead: u64)
    ensures
        overhead == overhead_spec(start, end),
{
    end.saturating_sub(start)
}

/// The median of some values lies between any bounds of them.
pub proof fn median_lies_within_bounds(values: Seq<u64>, low: u64, high: u64)
    requires
        values.len() > 0,
        forall|i: int| 0 <= i < values.len() ==> low <= #[trigger] values[i] <= high,
    ensures
        low <= median(values) <= high,
{
    let sorted = values.sort_by(ascending());
    values.lemma_sort_by_ensures(ascending());
    values.to_multiset_ensures();
    sorted.to_multiset_ensures();
    assert(sorted.len() == values.len());
    assert forall|i: int| 0 <= i < sorted.len() implies low <= #[trigger] sorted[i] <= high by {
        assert(sorted.contains(sorted[i]));
        assert(values.contains(sorted[i]));
    }
}

/// The order of the samples does not matter.
pub proof fn median_ignores_order(values: Seq<u64>, other: Seq<u64>)
    requires
        values.to_multiset() == other.to_multiset(),
    ensures
        median(values) == median(other),
{
    values.lemma_sort_by_ensures(ascending());
    other.lemma_sort_by_ensures(ascending());
    lemma_sorted_unique(
        values.sort_by(ascending()),
        other.sort_by(ascending()),
        ascending(),
    );
}

/// Of values that are in ascending order already, the median is that of the
/// sequence as it stands.
pub proof fn median_of_ascending_values(values: Seq<u64>)
    requires
        forall|i: int, j: int| 0 <= i < j < values.len() ==> values[i] <= values[j],
    ensures
        median(values) == sorted_median(values),
{
    values.lemma_sort_by_ensures(ascending());
    lemma_sorted_unique(values, values.sort_by(ascending()), ascending());
}

/// Of an odd number of values in ascending order, as many lie before the median as
/// behind it; of an even number the median is the mean of the two in the middle, cut to
/// a whole number. Of none it is zero.
pub proof fn median_is_in_the_middle(values: Seq<u64>, k: int)
    requires
        forall|i: int, j: int| 0 <= i < j < values.len() ==> values[i] <= values[j],
        k >= 0,
    ensures
        values.len() == 2 * k + 1 ==> median(values) == values[k] && sorted_median(values)
            == values[k],
        values.len() == 2 * k && k > 0 ==> {
            &&& median(values) == sorted_median(values)
            &&& 2 * median(values) <= values[k - 1] + values[k] < 2 * median(values) + 2
        },
        values.len() == 0 ==> median(values) == 0,
{
    median_of_ascending_values(values);
}

/// The overhead is the time from the first reading to the second, and zero if that is
/// not later.
pub proof fn overhead_is_the_time_between(start: u64, end: u64)
    ensures
        start <= end ==> start + overhead_spec(start, end) == end,
        end <= start ==> overhead_spec(start, end) == 0,
{
}

} // verus!
