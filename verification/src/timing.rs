//! How long the frames of a run took.

use vstd::prelude::*;

verus! {

/// The number of frames after which a run ends by itself, and the number the
/// mean frame time is taken over.
pub const FRAME_COUNT: u32 = 10000;

/// The sum of the given times.
pub open spec fn total_time(times: Seq<u64>) -> nat
    decreases times.len(),
{
    if times.len() == 0 {
        0
    } else {
        total_time(times.drop_last()) + times.last() as nat
    }
}

/// The sum of `n` times is less than `n` times the largest number a time
/// can be.
proof fn lemma_total_time_bound(times: Seq<u64>)
    ensures
        total_time(times) <= times.len() * 0xFFFF_FFFF_FFFF_FFFF,
    decreases times.len(),
{
    if times.len() > 0 {
        lemma_total_time_bound(times.drop_last());
        assert((times.len() - 1) * 0xFFFF_FFFF_FFFF_FFFF + 0xFFFF_FFFF_FFFF_FFFF == times.len()
            * 0xFFFF_FFFF_FFFF_FFFF) by (nonlinear_arith);
    }
}

/// The mean frame time of a full run: the sum of the times divided by
/// `FRAME_COUNT`, rounded down. A run that ended early is counted as if its
/// missing frames had taken no time.
pub fn mean_frame_time(times: &[u64]) -> (mean: u128)
    ensures
        mean == total_time(times@) / (FRAME_COUNT as nat),
{
    let mut sum: u128 = 0;
    let mut i: usize = 0;
    while i < times.len()
        invariant
            i <= times@.len(),
            sum == total_time(times@.take(i as int)),
        decreases times@.len() - i,
    {
        proof {
            assert(times@.take(i + 1).drop_last() =~= times@.take(i as int));
            lemma_total_time_bound(times@.take(i + 1));
            assert(times@.take(i + 1).len() * 0xFFFF_FFFF_FFFF_FFFF
                <= 0xFFFF_FFFF_FFFF_FFFF * 0xFFFF_FFFF_FFFF_FFFF) by (nonlinear_arith)
                requires
                    times@.take(i + 1).len() <= 0xFFFF_FFFF_FFFF_FFFF,
            ;
        }
        sum = sum + times[i] as u128;
        i += 1;
    }
    assert(times@.take(i as int) =~= times@);
    sum / (FRAME_COUNT as u128)
}

/// `time` is one of `times` and none of them is shorter.
pub open spec fn is_shortest(times: Seq<u64>, time: u64) -> bool {
    times.contains(time) && forall|i: int| 0 <= i < times.len() ==> time <= times[i]
}

/// `time` is one of `times` and none of them is longer.
pub open spec fn is_longest(times: Seq<u64>, time: u64) -> bool {
    times.contains(time) && forall|i: int| 0 <= i < times.len() ==> time >= times[i]
}

/// The shortest of the given frame times.
pub fn shortest_frame_time(times: &[u64]) -> (shortest: u64)
    requires
        times@.len() > 0,
    ensures
        is_shortest(times@, shortest),
{
    let mut shortest = times[0];
    let ghost mut at: int = 0;
    let mut i: usize = 1;
    while i < times.len()
        invariant
            1 <= i <= times@.len(),
            0 <= at < i,
            times@[at] == shortest,
            forall|j: int| 0 <= j < i ==> shortest <= times@[j],
        decreases times@.len() - i,
    {
        if times[i] < shortest {
            shortest = times[i];
            proof {
                at = i as int;
            }
        }
        i += 1;
    }
    shortest
}

/// The longest of the given frame times.
pub fn longest_frame_time(times: &[u64]) -> (longest: u64)
    requires
        times@.len() > 0,
    ensures
        is_longest(times@, longest),
{
    let mut longest = times[0];
    let ghost mut at: int = 0;
    let mut i: usize = 1;
    while i < times.len()
        invariant
            1 <= i <= times@.len(),
            0 <= at < i,
            times@[at] == longest,
            forall|j: int| 0 <= j < i ==> longest >= times@[j],
        decreases times@.len() - i,
    {
        if times[i] > longest {
            longest = times[i];
            proof {
                at = i as int;
            }
        }
        i += 1;
    }
    longest
}

} // verus!
