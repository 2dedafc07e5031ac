use vstd::prelude::*;

verus! {

/// Bytes that one `u64` field takes in the stored record.
pub const U64_SIZE: usize = 32;

/// One tranche: `amount` units become claimable once the clock has passed
/// `release_time`.
#[derive(Clone, Copy, Debug, PartialEq, Eq, Structural)]
pub struct VestingSchedule {
    pub release_time: u64,
    pub amount: u64,
}

impl VestingSchedule {
    /// Bytes that one stored tranche takes.
    #[allow(non_snake_case)]
    pub fn LEN() -> (r: usize)
        ensures
            r == 2 * U64_SIZE,
    {
        U64_SIZE + U64_SIZE
    }
}

/// A tranche is due at time `now` when its release time lies strictly before it.
pub open spec fn is_due(e: VestingSchedule, now: u64) -> bool {
    now > e.release_time
}

/// The sum of the amounts of all tranches.
pub open spec fn total(s: Seq<VestingSchedule>) -> int
    decreases s.len(),
{
    if s.len() == 0 {
        0
    } else {
        total(s.drop_last()) + s.last().amount
    }
}

/// The sum of the amounts of the tranches that are due at `now`.
pub open spec fn due_total(s: Seq<VestingSchedule>, now: u64) -> int
    decreases s.len(),
{
    if s.len() == 0 {
        0
    } else {
        due_total(s.drop_last(), now) + if is_due(s.last(), now) {
            s.last().amount as int
        } else {
            0
        }
    }
}

/// The sum of the amounts of the tranches that are not yet due at `now`.
pub open spec fn pending_total(s: Seq<VestingSchedule>, now: u64) -> int
    decreases s.len(),
{
    if s.len() == 0 {
        0
    } else {
        pending_total(s.drop_last(), now) + if is_due(s.last(), now) {
            0
        } else {
            s.last().amount as int
        }
    }
}

/// The tranche with its amount paid out, when it is due at `now`.
pub open spec fn release_entry(e: VestingSchedule, now: u64) -> VestingSchedule {
    if is_due(e, now) {
        VestingSchedule { release_time: e.release_time, amount: 0 }
    } else {
        e
    }
}

/// The schedule after every tranche due at `now` has been paid out.
pub open spec fn released(s: Seq<VestingSchedule>, now: u64) -> Seq<VestingSchedule> {
    s.map_values(|e: VestingSchedule| release_entry(e, now))
}

/// The schedule built pairwise from release times and amounts.
pub open spec fn zip_schedule(times: Seq<u64>, amounts: Seq<u64>) -> Seq<VestingSchedule> {
    Seq::new(times.len(), |i: int| VestingSchedule { release_time: times[i], amount: amounts[i] })
}

/// The sum of a sequence of amounts.
pub open spec fn sum(a: Seq<u64>) -> int
    decreases a.len(),
{
    if a.len() == 0 {
        0
    } else {
        sum(a.drop_last()) + a.last()
    }
}

pub proof fn lemma_total_nonneg(s: Seq<VestingSchedule>)
    ensures
        total(s) >= 0,
    decreases s.len(),
{
    if s.len() > 0 {
        lemma_total_nonneg(s.drop_last());
    }
}

/// Every tranche is either due or pending, so the two partial sums make the total.
pub proof fn lemma_total_split(s: Seq<VestingSchedule>, now: u64)
    ensures
        total(s) == due_total(s, now) + pending_total(s, now),
        due_total(s, now) >= 0,
        pending_total(s, now) >= 0,
    decreases s.len(),
{
    if s.len() > 0 {
        lemma_total_split(s.drop_last(), now);
    }
}

/// A prefix of a schedule holds no more than the whole.
pub proof fn lemma_total_prefix(s: Seq<VestingSchedule>, i: int)
    requires
        0 <= i <= s.len(),
    ensures
        total(s.take(i)) <= total(s),
    decreases s.len(),
{
    if i < s.len() {
        assert(s.take(i) =~= s.drop_last().take(i));
        lemma_total_prefix(s.drop_last(), i);
    } else {
        assert(s.take(i) =~= s);
    }
}

/// A prefix of a sequence of amounts sums to no more than the whole.
pub proof fn lemma_sum_prefix(a: Seq<u64>, i: int)
    requires
        0 <= i <= a.len(),
    ensures
        sum(a.take(i)) <= sum(a),
    decreases a.len(),
{
    if i < a.len() {
        assert(a.take(i) =~= a.drop_last().take(i));
        lemma_sum_prefix(a.drop_last(), i);
    } else {
        assert(a.take(i) =~= a);
    }
}

/// Paying out the due tranches leaves exactly the pending ones in the schedule.
pub proof fn lemma_released(s: Seq<VestingSchedule>, now: u64)
    ensures
        released(s, now).len() == s.len(),
        total(released(s, now)) == pending_total(s, now),
        due_total(released(s, now), now) == 0,
        pending_total(released(s, now), now) == pending_total(s, now),
    decreases s.len(),
{
    if s.len() > 0 {
        assert(released(s, now).drop_last() =~= released(s.drop_last(), now));
        lemma_released(s.drop_last(), now);
    }
}

} // verus!
