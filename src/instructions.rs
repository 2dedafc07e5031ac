use vstd::prelude::*;
use vstd::string::StringSliceAdditionalSpecFns;

use crate::account::{ErrorCode, TokenAccount, Transfer, TransferAuthority, VestingScheduleHeader};
use crate::authority::{find_program_address, program_address_of, view_derived};
use crate::key::Key;
use crate::schedule::{
    VestingSchedule, due_total, lemma_released, lemma_sum_prefix,
    lemma_total_split, pending_total, released, sum, total, zip_schedule,
};

verus! {

/// The accounts that creating an escrow reads.
#[derive(Clone, Copy, Debug)]
pub struct Create {
    /// The depositor, who signs and funds the escrow.
    pub initializer: Key,
    /// Whether a record already exists under the seed.
    pub vesting_account_exists: bool,
    pub src_token_account: TokenAccount,
    pub dst_token_account_owner: Key,
    pub dst_token_account: TokenAccount,
    /// The escrow's own token account.
    pub vesting_token_account: Key,
    pub mint_address: Key,
}

/// The accounts that unlocking reads, and the time of the call.
#[derive(Clone, Copy, Debug)]
pub struct Unlock {
    pub program_id: Key,
    pub vesting_account: Key,
    pub vesting_token_account: Key,
    pub dst_token_account: Key,
    pub mint_address: Key,
    pub unix_timestamp: i64,
}

/// The accounts that reassigning the destination reads.
#[derive(Clone, Copy, Debug)]
pub struct ChangeDestination {
    pub program_id: Key,
    pub vesting_account: Key,
    /// The signer, who claims to own the current destination.
    pub current_destination_token_account_owner: Key,
    pub current_destination_token_account: TokenAccount,
    pub new_destination_token_account_owner: Key,
    pub new_destination_token_account: TokenAccount,
}

/// The accounts that closing reads, and the time of the call.
#[derive(Clone, Copy, Debug)]
pub struct CloseAccount {
    pub program_id: Key,
    pub vesting_account: Key,
    /// The depositor, who signs.
    pub initializer: Key,
    pub vesting_token_account: Key,
    pub src_token_account: TokenAccount,
    pub mint_address: Key,
    pub unix_timestamp: i64,
}

/// The escrow at `vesting_account` is the one the seed derives.
pub open spec fn derives(derived: Option<(Seq<u8>, u8)>, vesting_account: Key) -> bool {
    match derived {
        Some((address, _)) => address == vesting_account@,
        None => false,
    }
}

/// A transfer signed by the escrow with the derived address and bump of `seed`.
pub open spec fn signed_by_escrow(a: TransferAuthority, seed: Seq<u8>, derived: Option<(Seq<u8>, u8)>) -> bool {
    match (a, derived) {
        (TransferAuthority::Program { address, seed: s, bump }, Some((d, b))) => {
            &&& address@ == d
            &&& s@ == seed
            &&& bump == b
        },
        _ => false,
    }
}

impl Create {
    /// The accounts agree with each other: the depositor owns the source and
    /// the destination holds the vested token under its stated owner.
    pub open spec fn accounts_ok(&self) -> bool {
        &&& self.src_token_account.owner@ == self.initializer@
        &&& self.dst_token_account.mint@ == self.mint_address@
        &&& self.dst_token_account.owner@ == self.dst_token_account_owner@
    }

    pub open spec fn escrow_deposit(&self, amount: u64) -> Transfer {
        Transfer {
            from: self.src_token_account.key,
            to: self.vesting_token_account,
            authority: TransferAuthority::Owner(self.initializer),
            amount,
        }
    }

    /// The transfer of `amount` from the depositor's account into the escrow,
    /// signed by the depositor.
    pub fn transfer_into_escrow(&self, amount: u64) -> (r: Transfer)
        ensures
            r == self.escrow_deposit(amount),
    {
        Transfer {
            from: self.src_token_account.key,
            to: self.vesting_token_account,
            authority: TransferAuthority::Owner(self.initializer),
            amount,
        }
    }
}

impl Unlock {
    pub open spec fn now(&self) -> u64 {
        self.unix_timestamp as u64
    }

    pub open spec fn accounts_ok(&self, vesting: VestingScheduleHeader, derived: Option<(Seq<u8>, u8)>) -> bool {
        &&& derives(derived, self.vesting_account)
        &&& vesting.destination_token_account@ == self.dst_token_account@
        &&& vesting.mint_key@ == self.mint_address@
    }
}

impl ChangeDestination {
    pub open spec fn accounts_ok(&self, vesting: VestingScheduleHeader, derived: Option<(Seq<u8>, u8)>) -> bool {
        &&& derives(derived, self.vesting_account)
        &&& vesting.destination_token_account@ == self.current_destination_token_account.key@
        &&& vesting.destination_token_account_owner@ == self.current_destination_token_account_owner@
        &&& self.current_destination_token_account.owner@ == self.current_destination_token_account_owner@
        &&& self.new_destination_token_account.owner@ == self.new_destination_token_account_owner@
    }
}

impl CloseAccount {
    pub open spec fn now(&self) -> u64 {
        self.unix_timestamp as u64
    }

    pub open spec fn accounts_ok(&self, vesting: VestingScheduleHeader, derived: Option<(Seq<u8>, u8)>) -> bool {
        &&& derives(derived, self.vesting_account)
        &&& vesting.src_token_account@ == self.src_token_account.key@
        &&& vesting.src_token_account_owner@ == self.initializer@
        &&& self.src_token_account.owner@ == self.initializer@
        &&& vesting.mint_key@ == self.mint_address@
    }
}

fn escrow_authority(seed: &[u8], derived: Option<(Key, u8)>) -> (r: TransferAuthority)
    requires
        derived is Some,
    ensures
        signed_by_escrow(r, seed@, view_derived(derived)),
{
    let (address, bump) = derived.unwrap();
    TransferAuthority::Program { address, seed: vstd::slice::slice_to_vec(seed), bump }
}

fn derived_matches(derived: Option<(Key, u8)>, vesting_account: &Key) -> (r: bool)
    ensures
        r == derives(view_derived(derived), *vesting_account),
{
    match derived {
        Some((address, _)) => address.same(vesting_account),
        None => false,
    }
}

/// Opens an escrow: builds its record from the release times and amounts
/// taken pairwise, and the transfer that funds it with their sum.
pub fn create(ctx: &Create, release_interval: &Vec<u64>, amount_interval: &Vec<u64>) -> (r: Result<
    (VestingScheduleHeader, Transfer),
    ErrorCode,
>)
    requires
        release_interval@.len() == amount_interval@.len() ==> sum(amount_interval@) <= u64::MAX,
    ensures
        ctx.vesting_account_exists ==> r == Err::<(VestingScheduleHeader, Transfer), _>(
            ErrorCode::DuplicateRecord,
        ),
        !ctx.vesting_account_exists && !ctx.accounts_ok() ==> r == Err::<
            (VestingScheduleHeader, Transfer),
            _,
        >(ErrorCode::AuthorizationFailure),
        !ctx.vesting_account_exists && ctx.accounts_ok() && release_interval@.len()
            != amount_interval@.len() ==> r == Err::<(VestingScheduleHeader, Transfer), _>(
            ErrorCode::InvalidScheduleInput,
        ),
        !ctx.vesting_account_exists && ctx.accounts_ok() && release_interval@.len()
            == amount_interval@.len() ==> (r matches Ok((h, t)) && {
            &&& h.src_token_account == ctx.src_token_account.key
            &&& h.src_token_account_owner == ctx.initializer
            &&& h.destination_token_account == ctx.dst_token_account.key
            &&& h.destination_token_account_owner == ctx.dst_token_account_owner
            &&& h.mint_key == ctx.mint_address
            &&& h.schedules@ == zip_schedule(release_interval@, amount_interval@)
            &&& total(h.schedules@) == sum(amount_interval@)
            &&& h.wf()
            &&& t == ctx.escrow_deposit(sum(amount_interval@) as u64)
        }),
{
    if ctx.vesting_account_exists {
        return Err(ErrorCode::DuplicateRecord);
    }
    let accounts_ok = ctx.src_token_account.owner.same(&ctx.initializer)
        && ctx.dst_token_account.mint.same(&ctx.mint_address)
        && ctx.dst_token_account.owner.same(&ctx.dst_token_account_owner);
    if !accounts_ok {
        return Err(ErrorCode::AuthorizationFailure);
    }
    if release_interval.len() != amount_interval.len() {
        return Err(ErrorCode::InvalidScheduleInput);
    }
    let n = release_interval.len();
    let ghost times = release_interval@;
    let ghost amounts = amount_interval@;
    let mut schedules: Vec<VestingSchedule> = Vec::new();
    let mut total_amount: u64 = 0;
    let mut i: usize = 0;
    while i < n
        invariant
            n == times.len(),
            n == amounts.len(),
            times == release_interval@,
            amounts == amount_interval@,
            sum(amounts) <= u64::MAX,
            i <= n,
            schedules@ == zip_schedule(times.take(i as int), amounts.take(i as int)),
            total(schedules@) == sum(amounts.take(i as int)),
            total_amount == sum(amounts.take(i as int)),
        decreases n - i,
    {
        proof {
            assert(amounts.take(i + 1).drop_last() =~= amounts.take(i as int));
            lemma_sum_prefix(amounts, i + 1);
        }
        let entry = VestingSchedule { release_time: release_interval[i], amount: amount_interval[i] };
        let ghost before = schedules@;
        schedules.push(entry);
        total_amount = total_amount + amount_interval[i];
        i = i + 1;
        proof {
            assert(schedules@.drop_last() =~= before);
            assert(schedules@ =~= zip_schedule(times.take(i as int), amounts.take(i as int)));
        }
    }
    proof {
        assert(times.take(n as int) =~= times);
        assert(amounts.take(n as int) =~= amounts);
    }
    let header = VestingScheduleHeader {
        src_token_account: ctx.src_token_account.key,
        src_token_account_owner: ctx.initializer,
        destination_token_account: ctx.dst_token_account.key,
        destination_token_account_owner: ctx.dst_token_account_owner,
        mint_key: ctx.mint_address,
        schedules,
    };
    let transfer = ctx.transfer_into_escrow(total_amount);
    Ok((header, transfer))
}

/// What unlocking does to the record `old`, giving `new` and the result `r`:
/// on mismatched accounts or with nothing due it fails and changes nothing;
/// otherwise it pays out every due tranche in one transfer, signed by the
/// escrow, from the escrow to the current destination.
pub open spec fn unlock_outcome(
    old: VestingScheduleHeader,
    new: VestingScheduleHeader,
    ctx: Unlock,
    seed: Seq<u8>,
    derived: Option<(Seq<u8>, u8)>,
    r: Result<Transfer, ErrorCode>,
) -> bool {
    let due = due_total(old.schedules@, ctx.now());
    if !ctx.accounts_ok(old, derived) {
        r == Err::<Transfer, _>(ErrorCode::AuthorizationFailure) && new == old
    } else if due == 0 {
        r == Err::<Transfer, _>(ErrorCode::NoUnlockableBalance) && new == old
    } else {
        &&& r matches Ok(t)
        &&& r->Ok_0.from == ctx.vesting_token_account
        &&& r->Ok_0.to == ctx.dst_token_account
        &&& r->Ok_0.amount == due
        &&& signed_by_escrow(r->Ok_0.authority, seed, derived)
        &&& new.schedules@ == released(old.schedules@, ctx.now())
        &&& new.same_parties(old)
    }
}

/// What reassigning the destination does to the record `old`, giving `new`
/// and the result `r`: only the signer that owns the recorded destination,
/// naming that destination, may replace it; nothing else changes.
pub open spec fn change_destination_outcome(
    old: VestingScheduleHeader,
    new: VestingScheduleHeader,
    ctx: ChangeDestination,
    derived: Option<(Seq<u8>, u8)>,
    r: Result<(), ErrorCode>,
) -> bool {
    if !ctx.accounts_ok(old, derived) {
        r == Err::<(), _>(ErrorCode::AuthorizationFailure) && new == old
    } else {
        &&& r is Ok
        &&& new.destination_token_account == ctx.new_destination_token_account.key
        &&& new.destination_token_account_owner == ctx.new_destination_token_account_owner
        &&& new.src_token_account == old.src_token_account
        &&& new.src_token_account_owner == old.src_token_account_owner
        &&& new.mint_key == old.mint_key
        &&& new.schedules@ == old.schedules@
    }
}

/// What closing the record `vesting` gives: on mismatched accounts, or while
/// a due tranche is unclaimed, it fails; otherwise one transfer, signed by the
/// escrow, returns every pending amount to the depositor's account, and the
/// record is to be deleted.
pub open spec fn close_outcome(
    vesting: VestingScheduleHeader,
    ctx: CloseAccount,
    seed: Seq<u8>,
    derived: Option<(Seq<u8>, u8)>,
    r: Result<Transfer, ErrorCode>,
) -> bool {
    if !ctx.accounts_ok(vesting, derived) {
        r == Err::<Transfer, _>(ErrorCode::AuthorizationFailure)
    } else if due_total(vesting.schedules@, ctx.now()) != 0 {
        r == Err::<Transfer, _>(ErrorCode::PendingUnlockExists)
    } else {
        &&& r matches Ok(t)
        &&& r->Ok_0.from == ctx.vesting_token_account
        &&& r->Ok_0.to == ctx.src_token_account.key
        &&& r->Ok_0.amount == pending_total(vesting.schedules@, ctx.now())
        &&& signed_by_escrow(r->Ok_0.authority, seed, derived)
    }
}

/// Unlocks with the escrow's derived address and bump already at hand
/// (`None` where the seed derives none).
pub fn unlock_derived(
    vesting: &mut VestingScheduleHeader,
    ctx: &Unlock,
    seed: &[u8],
    derived: Option<(Key, u8)>,
) -> (r: Result<Transfer, ErrorCode>)
    requires
        old(vesting).wf(),
    ensures
        final(vesting).wf(),
        unlock_outcome(*old(vesting), *final(vesting), *ctx, seed@, view_derived(derived), r),
{
    let accounts_ok = derived_matches(derived, &ctx.vesting_account)
        && vesting.destination_token_account.same(&ctx.dst_token_account)
        && vesting.mint_key.same(&ctx.mint_address);
    if !accounts_ok {
        return Err(ErrorCode::AuthorizationFailure);
    }
    let now = ctx.unix_timestamp as u64;
    let (due, _) = vesting.totals_at(now);
    if due == 0 {
        return Err(ErrorCode::NoUnlockableBalance);
    }
    let ghost before = vesting.schedules@;
    vesting.release_due(now);
    proof {
        lemma_released(before, now);
        lemma_total_split(before, now);
    }
    Ok(
        Transfer {
            from: ctx.vesting_token_account,
            to: ctx.dst_token_account,
            authority: escrow_authority(seed, derived),
            amount: due,
        },
    )
}

/// Pays every tranche that is due at the call's time out of the escrow named
/// by `seedphase` to its current destination.
pub fn unlock(vesting: &mut VestingScheduleHeader, ctx: &Unlock, seedphase: &str) -> (r: Result<
    Transfer,
    ErrorCode,
>)
    requires
        old(vesting).wf(),
    ensures
        final(vesting).wf(),
        unlock_outcome(
            *old(vesting),
            *final(vesting),
            *ctx,
            seedphase.spec_bytes(),
            program_address_of(seedphase.spec_bytes(), ctx.program_id@),
            r,
        ),
{
    let seed = seedphase.as_bytes();
    let derived = find_program_address(seed, &ctx.program_id);
    unlock_derived(vesting, ctx, seed, derived)
}

/// Reassigns the destination with the escrow's derived address already at hand.
pub fn change_destination_derived(
    vesting: &mut VestingScheduleHeader,
    ctx: &ChangeDestination,
    derived: Option<(Key, u8)>,
) -> (r: Result<(), ErrorCode>)
    ensures
        change_destination_outcome(*old(vesting), *final(vesting), *ctx, view_derived(derived), r),
{
    let accounts_ok = derived_matches(derived, &ctx.vesting_account)
        && vesting.destination_token_account.same(&ctx.current_destination_token_account.key)
        && vesting.destination_token_account_owner.same(&ctx.current_destination_token_account_owner)
        && ctx.current_destination_token_account.owner.same(&ctx.current_destination_token_account_owner)
        && ctx.new_destination_token_account.owner.same(&ctx.new_destination_token_account_owner);
    if !accounts_ok {
        return Err(ErrorCode::AuthorizationFailure);
    }
    vesting.destination_token_account = ctx.new_destination_token_account.key;
    vesting.destination_token_account_owner = ctx.new_destination_token_account_owner;
    Ok(())
}

/// Lets the owner of the current destination of the escrow named by
/// `seedphase` name a new destination account and owner.
pub fn change_destination(vesting: &mut VestingScheduleHeader, ctx: &ChangeDestination, seedphase: &str) -> (r:
    Result<(), ErrorCode>)
    ensures
        change_destination_outcome(
            *old(vesting),
            *final(vesting),
            *ctx,
            program_address_of(seedphase.spec_bytes(), ctx.program_id@),
            r,
        ),
{
    let derived = find_program_address(seedphase.as_bytes(), &ctx.program_id);
    change_destination_derived(vesting, ctx, derived)
}

/// Closes with the escrow's derived address and bump already at hand.
pub fn close_account_derived(
    vesting: &VestingScheduleHeader,
    ctx: &CloseAccount,
    seed: &[u8],
    derived: Option<(Key, u8)>,
) -> (r: Result<Transfer, ErrorCode>)
    requires
        vesting.wf(),
    ensures
        close_outcome(*vesting, *ctx, seed@, view_derived(derived), r),
{
    let accounts_ok = derived_matches(derived, &ctx.vesting_account)
        && vesting.src_token_account.same(&ctx.src_token_account.key)
        && vesting.src_token_account_owner.same(&ctx.initializer)
        && ctx.src_token_account.owner.same(&ctx.initializer)
        && vesting.mint_key.same(&ctx.mint_address);
    if !accounts_ok {
        return Err(ErrorCode::AuthorizationFailure);
    }
    let now = ctx.unix_timestamp as u64;
    let (due, pending) = vesting.totals_at(now);
    if due != 0 {
        return Err(ErrorCode::PendingUnlockExists);
    }
    Ok(
        Transfer {
            from: ctx.vesting_token_account,
            to: ctx.src_token_account.key,
            authority: escrow_authority(seed, derived),
            amount: pending,
        },
    )
}

/// Lets the depositor close the escrow named by `seedphase` once nothing due
/// is left unclaimed, returning what is not yet due. On success the caller
/// performs the transfer and deletes the record.
pub fn close_account(vesting: &VestingScheduleHeader, ctx: &CloseAccount, seedphase: &str) -> (r: Result<
    Transfer,
    ErrorCode,
>)
    requires
        vesting.wf(),
    ensures
        close_outcome(
            *vesting,
            *ctx,
            seedphase.spec_bytes(),
            program_address_of(seedphase.spec_bytes(), ctx.program_id@),
            r,
        ),
{
    let seed = seedphase.as_bytes();
    let derived = find_program_address(seed, &ctx.program_id);
    close_account_derived(vesting, ctx, seed, derived)
}

} // verus!
