use vstd::prelude::*;

use crate::account::{ErrorCode, Transfer, VestingScheduleHeader};
use crate::instructions::{
    ChangeDestination, CloseAccount, Unlock, change_destination_outcome, close_outcome,
    unlock_outcome,
};
use crate::schedule::{due_total, lemma_released, lemma_total_split, pending_total, total};

verus! {

/// The amount that a result moves out of the escrow.
pub open spec fn moved_out(r: Result<Transfer, ErrorCode>) -> int {
    match r {
        Ok(t) => t.amount as int,
        Err(_) => 0,
    }
}

/// Unlocking keeps the escrow's balance equal to the sum of the schedule's
/// amounts: what it pays out is exactly what it zeroes, and a refusal moves
/// nothing and changes nothing.
pub proof fn law_unlock_keeps_balance(
    old: VestingScheduleHeader,
    new: VestingScheduleHeader,
    ctx: Unlock,
    seed: Seq<u8>,
    derived: Option<(Seq<u8>, u8)>,
    r: Result<Transfer, ErrorCode>,
    balance: int,
)
    requires
        balance == total(old.schedules@),
        unlock_outcome(old, new, ctx, seed, derived, r),
    ensures
        0 <= moved_out(r) <= balance,
        balance - moved_out(r) == total(new.schedules@),
{
    lemma_total_split(old.schedules@, ctx.now());
    lemma_released(old.schedules@, ctx.now());
}

/// Reassigning the destination leaves the schedule, and so the balance, as it was.
pub proof fn law_change_destination_keeps_balance(
    old: VestingScheduleHeader,
    new: VestingScheduleHeader,
    ctx: ChangeDestination,
    derived: Option<(Seq<u8>, u8)>,
    r: Result<(), ErrorCode>,
)
    requires
        change_destination_outcome(old, new, ctx, derived, r),
    ensures
        total(new.schedules@) == total(old.schedules@),
{
}

/// Closing empties the escrow: on success it returns the whole balance.
pub proof fn law_close_empties_escrow(
    vesting: VestingScheduleHeader,
    ctx: CloseAccount,
    seed: Seq<u8>,
    derived: Option<(Seq<u8>, u8)>,
    r: Result<Transfer, ErrorCode>,
)
    requires
        close_outcome(vesting, ctx, seed, derived, r),
        r is Ok,
    ensures
        moved_out(r) == total(vesting.schedules@),
{
    lemma_total_split(vesting.schedules@, ctx.now());
}

/// A second unlock at the same time, on accounts that the first accepted,
/// fails with `NoUnlockableBalance`, moves nothing and changes nothing.
pub proof fn law_unlock_twice(
    s0: VestingScheduleHeader,
    s1: VestingScheduleHeader,
    s2: VestingScheduleHeader,
    ctx: Unlock,
    seed: Seq<u8>,
    derived: Option<(Seq<u8>, u8)>,
    r1: Result<Transfer, ErrorCode>,
    r2: Result<Transfer, ErrorCode>,
)
    requires
        ctx.accounts_ok(s0, derived),
        unlock_outcome(s0, s1, ctx, seed, derived, r1),
        unlock_outcome(s1, s2, ctx, seed, derived, r2),
    ensures
        r2 == Err::<Transfer, _>(ErrorCode::NoUnlockableBalance),
        moved_out(r2) == 0,
        s2 == s1,
{
    lemma_released(s0.schedules@, ctx.now());
}

/// Closing while a due tranche is unclaimed fails with `PendingUnlockExists`;
/// once an unlock at the same time has paid it out, closing succeeds and
/// returns exactly the amounts that are not yet due.
pub proof fn law_close_after_unlock(
    s0: VestingScheduleHeader,
    s1: VestingScheduleHeader,
    unlock_ctx: Unlock,
    close_ctx: CloseAccount,
    seed: Seq<u8>,
    derived: Option<(Seq<u8>, u8)>,
    r0: Result<Transfer, ErrorCode>,
    r1: Result<Transfer, ErrorCode>,
    r2: Result<Transfer, ErrorCode>,
)
    requires
        due_total(s0.schedules@, close_ctx.now()) > 0,
        unlock_ctx.now() == close_ctx.now(),
        unlock_ctx.accounts_ok(s0, derived),
        close_ctx.accounts_ok(s0, derived),
        close_outcome(s0, close_ctx, seed, derived, r0),
        unlock_outcome(s0, s1, unlock_ctx, seed, derived, r1),
        close_outcome(s1, close_ctx, seed, derived, r2),
    ensures
        r0 == Err::<Transfer, _>(ErrorCode::PendingUnlockExists),
        r2 is Ok,
        moved_out(r2) == pending_total(s0.schedules@, close_ctx.now()),
        r2->Ok_0.to == close_ctx.src_token_account.key,
{
    lemma_released(s0.schedules@, close_ctx.now());
}

/// Reassigning the destination succeeds only for the signer that owns the
/// recorded destination, naming that destination; after it, unlocking pays
/// the new destination only.
pub proof fn law_change_destination_redirects(
    s0: VestingScheduleHeader,
    s1: VestingScheduleHeader,
    s2: VestingScheduleHeader,
    change_ctx: ChangeDestination,
    unlock_ctx: Unlock,
    seed: Seq<u8>,
    derived: Option<(Seq<u8>, u8)>,
    r1: Result<(), ErrorCode>,
    r2: Result<Transfer, ErrorCode>,
)
    requires
        change_destination_outcome(s0, s1, change_ctx, derived, r1),
        r1 is Ok,
        unlock_outcome(s1, s2, unlock_ctx, seed, derived, r2),
        r2 is Ok,
    ensures
        change_ctx.current_destination_token_account_owner@ == s0.destination_token_account_owner@,
        change_ctx.current_destination_token_account.key@ == s0.destination_token_account@,
        r2->Ok_0.to@ == change_ctx.new_destination_token_account.key@,
{
}

/// One operation between two observations of a live escrow: an unlock or a
/// change of destination turns the record `old` into `new`, and the escrow's
/// balance moves from `before` to `after` by what the operation paid out.
pub open spec fn step(old: VestingScheduleHeader, new: VestingScheduleHeader, before: int, after: int) -> bool {
    ||| exists|ctx: Unlock, seed: Seq<u8>, derived: Option<(Seq<u8>, u8)>, r: Result<Transfer, ErrorCode>|
        #[trigger] unlock_outcome(old, new, ctx, seed, derived, r) && after == before - moved_out(r)
    ||| exists|ctx: ChangeDestination, derived: Option<(Seq<u8>, u8)>, r: Result<(), ErrorCode>|
        #[trigger] change_destination_outcome(old, new, ctx, derived, r) && after == before
}

/// Along any run of operations that starts from a record whose escrow holds
/// the sum of its amounts (as creation leaves it), the escrow holds the sum
/// of the record's amounts at every observation.
pub proof fn law_balance_matches_schedule(records: Seq<VestingScheduleHeader>, balances: Seq<int>)
    requires
        records.len() == balances.len(),
        records.len() > 0,
        balances[0] == total(records[0].schedules@),
        forall|i: int|
            0 <= i < records.len() - 1 ==> step(
                #[trigger] records[i],
                records[i + 1],
                balances[i],
                balances[i + 1],
            ),
    ensures
        forall|i: int| 0 <= i < records.len() ==> #[trigger] balances[i] == total(records[i].schedules@),
    decreases records.len(),
{
    let n = records.len();
    if n > 1 {
        let (rs, bs) = (records.drop_last(), balances.drop_last());
        assert forall|i: int| 0 <= i < rs.len() - 1 implies step(
            #[trigger] rs[i],
            rs[i + 1],
            bs[i],
            bs[i + 1],
        ) by {
            assert(step(records[i], records[i + 1], balances[i], balances[i + 1]));
        }
        law_balance_matches_schedule(rs, bs);
        let (old, new) = (records[n - 2], records[n - 1]);
        assert(balances[n - 2] == total(rs[n - 2].schedules@));
        assert(step(old, new, balances[n - 2], balances[n - 1]));
        if exists|ctx: Unlock, seed: Seq<u8>, derived: Option<(Seq<u8>, u8)>, r: Result<Transfer, ErrorCode>|
            #[trigger] unlock_outcome(old, new, ctx, seed, derived, r) && balances[n - 1] == balances[n - 2]
                - moved_out(r) {
            let (ctx, seed, derived, r) = choose|
                ctx: Unlock,
                seed: Seq<u8>,
                derived: Option<(Seq<u8>, u8)>,
                r: Result<Transfer, ErrorCode>,
            |
                #[trigger] unlock_outcome(old, new, ctx, seed, derived, r) && balances[n - 1] == balances[n
                    - 2] - moved_out(r);
            law_unlock_keeps_balance(old, new, ctx, seed, derived, r, balances[n - 2]);
        }
        assert forall|i: int| 0 <= i < n implies #[trigger] balances[i] == total(records[i].schedules@) by {
            if i < n - 1 {
                assert(balances[i] == bs[i] && records[i] == rs[i]);
            }
        }
    }
}

} // verus!
