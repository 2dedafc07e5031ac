use vstd::prelude::*;

use crate::key::Key;
use crate::schedule::{
    U64_SIZE, VestingSchedule, due_total, lemma_total_prefix,
    lemma_total_split, pending_total, release_entry, released, total,
};

verus! {

/// Bytes of the tag that the ledger puts before a stored record.
pub const DISCRIMINATOR: usize = 8;

/// Bytes of one stored key.
pub const PUBKEY: usize = 32;

/// Why an operation on an escrow was refused.
#[derive(Clone, Copy, Debug, PartialEq, Eq, Structural)]
pub enum ErrorCode {
    /// The release times and the amounts given at creation differ in length.
    InvalidScheduleInput,
    /// Nothing is due that has not been paid out already.
    NoUnlockableBalance,
    /// A due tranche is still unclaimed, so the escrow cannot be closed.
    PendingUnlockExists,
    /// An account or signer does not match the one the record requires.
    AuthorizationFailure,
    /// A record already exists under the seed.
    DuplicateRecord,
}

/// What the logic reads of a token account held by the ledger.
#[derive(Clone, Copy, Debug)]
pub struct TokenAccount {
    pub key: Key,
    pub mint: Key,
    pub owner: Key,
}

/// Who authorizes a transfer.
#[derive(Clone, Debug)]
pub enum TransferAuthority {
    /// The owner of the source account signs.
    Owner(Key),
    /// The escrow signs for itself with the address derived from its seed.
    Program { address: Key, seed: Vec<u8>, bump: u8 },
}

/// One movement of tokens that the ledger must carry out.
#[derive(Clone, Debug)]
pub struct Transfer {
    pub from: Key,
    pub to: Key,
    pub authority: TransferAuthority,
    pub amount: u64,
}

/// The escrow record.
#[derive(Clone, Debug)]
pub struct VestingScheduleHeader {
    pub src_token_account: Key,
    pub src_token_account_owner: Key,
    pub destination_token_account: Key,
    pub destination_token_account_owner: Key,
    pub mint_key: Key,
    pub schedules: Vec<VestingSchedule>,
}

impl VestingScheduleHeader {
    /// The amounts still held add up to a quantity that the ledger can hold.
    pub open spec fn wf(&self) -> bool {
        total(self.schedules@) <= u64::MAX
    }

    /// Bytes that a stored record takes before its tranches.
    #[allow(non_snake_case)]
    pub fn LEN() -> (r: usize)
        ensures
            r == DISCRIMINATOR + 5 * PUBKEY,
    {
        DISCRIMINATOR + PUBKEY + PUBKEY + PUBKEY + PUBKEY + PUBKEY
    }

    /// Bytes that a stored record with `count` tranches takes, if that fits in a `usize`.
    pub fn space(count: usize) -> (r: Option<usize>)
        ensures
            DISCRIMINATOR + 5 * PUBKEY + 2 * U64_SIZE * count <= usize::MAX ==> r == Some(
                (DISCRIMINATOR + 5 * PUBKEY + 2 * U64_SIZE * count) as usize,
            ),
            DISCRIMINATOR + 5 * PUBKEY + 2 * U64_SIZE * count > usize::MAX ==> r is None,
    {
        let entry = VestingSchedule::LEN();
        let base = Self::LEN();
        let room = (usize::MAX - base) / entry;
        if count > room {
            proof {
                let (c, e, m) = (count as int, entry as int, (usize::MAX - base) as int);
                assert(c * e > m) by (nonlinear_arith)
                    requires
                        c > m / e,
                        e == 64,
                ;
            }
            None
        } else {
            proof {
                let (c, e, m) = (count as int, entry as int, (usize::MAX - base) as int);
                assert(c * e <= m) by (nonlinear_arith)
                    requires
                        c <= m / e,
                        e == 64,
                ;
            }
            Some(base + entry * count)
        }
    }

    /// The amount held for the record, if it fits in a `u64`: exactly when
    /// the record is well formed.
    pub fn held_total(&self) -> (r: Option<u64>)
        ensures
            r is Some <==> self.wf(),
            r matches Some(v) ==> v == total(self.schedules@),
    {
        let s = &self.schedules;
        let mut acc: u64 = 0;
        let mut i: usize = 0;
        proof {
            lemma_total_nonneg_prefix(s@);
        }
        while i < s.len()
            invariant
                i <= s@.len(),
                s@ == self.schedules@,
                acc == total(s@.take(i as int)),
            decreases s@.len() - i,
        {
            proof {
                assert(s@.take(i + 1).drop_last() =~= s@.take(i as int));
            }
            let a = s[i].amount;
            if acc > u64::MAX - a {
                proof {
                    assert(total(s@.take(i + 1)) == acc + a);
                    lemma_total_prefix(s@, i + 1);
                }
                return None;
            }
            acc = acc + a;
            i = i + 1;
        }
        assert(s@.take(i as int) =~= s@);
        Some(acc)
    }

    /// The sums of the due and of the pending amounts at `now`.
    pub fn totals_at(&self, now: u64) -> (r: (u64, u64))
        requires
            self.wf(),
        ensures
            r.0 == due_total(self.schedules@, now),
            r.1 == pending_total(self.schedules@, now),
    {
        let s = &self.schedules;
        let mut due: u64 = 0;
        let mut pending: u64 = 0;
        let mut i: usize = 0;
        while i < s.len()
            invariant
                i <= s@.len(),
                total(s@) <= u64::MAX,
                due == due_total(s@.take(i as int), now),
                pending == pending_total(s@.take(i as int), now),
            decreases s@.len() - i,
        {
            proof {
                let t = s@.take(i + 1);
                assert(t.drop_last() =~= s@.take(i as int));
                lemma_total_split(t, now);
                lemma_total_split(s@.take(i as int), now);
                lemma_total_prefix(s@, i + 1);
            }
            let e = s[i];
            if now > e.release_time {
                due = due + e.amount;
            } else {
                pending = pending + e.amount;
            }
            i = i + 1;
        }
        assert(s@.take(i as int) =~= s@);
        (due, pending)
    }

    /// Pays out, in the record, every tranche that is due at `now`.
    pub fn release_due(&mut self, now: u64)
        ensures
            final(self).schedules@ == released(old(self).schedules@, now),
            final(self).same_parties(*old(self)),
    {
        let ghost start = self.schedules@;
        let mut i: usize = 0;
        while i < self.schedules.len()
            invariant
                i <= self.schedules@.len(),
                self.schedules@.len() == start.len(),
                self.same_parties(*old(self)),
                start == old(self).schedules@,
                forall|j: int| 0 <= j < i ==> self.schedules@[j] == release_entry(start[j], now),
                forall|j: int| i <= j < start.len() ==> self.schedules@[j] == start[j],
            decreases start.len() - i,
        {
            let e = self.schedules[i];
            if now > e.release_time {
                self.schedules.set(i, VestingSchedule { release_time: e.release_time, amount: 0 });
            }
            i = i + 1;
        }
        assert(self.schedules@ =~= released(start, now));
    }

    /// Every field but the schedule is the same in both records.
    pub open spec fn same_parties(&self, other: Self) -> bool {
        &&& self.src_token_account == other.src_token_account
        &&& self.src_token_account_owner == other.src_token_account_owner
        &&& self.destination_token_account == other.destination_token_account
        &&& self.destination_token_account_owner == other.destination_token_account_owner
        &&& self.mint_key == other.mint_key
    }
}

proof fn lemma_total_nonneg_prefix(s: Seq<VestingSchedule>)
    ensures
        forall|i: int| 0 <= i <= s.len() ==> total(#[trigger] s.take(i)) >= 0,
{
    assert forall|i: int| 0 <= i <= s.len() implies total(#[trigger] s.take(i)) >= 0 by {
        crate::schedule::lemma_total_nonneg(s.take(i));
    }
}

} // verus!
