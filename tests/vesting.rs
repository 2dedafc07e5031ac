use anchor_lang::solana_program::pubkey::Pubkey;
use vesting::account::{ErrorCode, TokenAccount, Transfer, TransferAuthority, VestingScheduleHeader};
use vesting::instructions::{
    change_destination, change_destination_derived, close_account, close_account_derived, create,
    unlock, unlock_derived, ChangeDestination, CloseAccount, Create, Unlock,
};
use vesting::key::Key;
use vesting::schedule::VestingSchedule;

const SEED: &str = "team-grant";

fn key(n: u8) -> Key {
    Key::new([n; 32])
}

fn program_id() -> Key {
    key(90)
}

fn depositor() -> Key {
    key(1)
}
fn source() -> Key {
    key(2)
}
fn beneficiary() -> Key {
    key(3)
}
fn destination() -> Key {
    key(4)
}
fn mint() -> Key {
    key(5)
}
fn escrow_tokens() -> Key {
    key(6)
}
fn escrow() -> Key {
    key(7)
}

fn create_ctx() -> Create {
    Create {
        initializer: depositor(),
        vesting_account_exists: false,
        src_token_account: TokenAccount { key: source(), mint: mint(), owner: depositor() },
        dst_token_account_owner: beneficiary(),
        dst_token_account: TokenAccount { key: destination(), mint: mint(), owner: beneficiary() },
        vesting_token_account: escrow_tokens(),
        mint_address: mint(),
    }
}

fn unlock_ctx(time: i64, dst: Key) -> Unlock {
    Unlock {
        program_id: program_id(),
        vesting_account: escrow(),
        vesting_token_account: escrow_tokens(),
        dst_token_account: dst,
        mint_address: mint(),
        unix_timestamp: time,
    }
}

fn close_ctx(time: i64) -> CloseAccount {
    CloseAccount {
        program_id: program_id(),
        vesting_account: escrow(),
        initializer: depositor(),
        vesting_token_account: escrow_tokens(),
        src_token_account: TokenAccount { key: source(), mint: mint(), owner: depositor() },
        mint_address: mint(),
        unix_timestamp: time,
    }
}

fn change_ctx(signer: Key, current: Key, new_owner: Key, new_account: Key) -> ChangeDestination {
    ChangeDestination {
        program_id: program_id(),
        vesting_account: escrow(),
        current_destination_token_account_owner: signer,
        current_destination_token_account: TokenAccount { key: current, mint: mint(), owner: signer },
        new_destination_token_account_owner: new_owner,
        new_destination_token_account: TokenAccount { key: new_account, mint: mint(), owner: new_owner },
    }
}

fn derived() -> Option<(Key, u8)> {
    Some((escrow(), 254))
}

fn amounts(h: &VestingScheduleHeader) -> Vec<u64> {
    h.schedules.iter().map(|s| s.amount).collect()
}

fn held(h: &VestingScheduleHeader) -> u64 {
    h.held_total().unwrap()
}

fn created(times: Vec<u64>, amts: Vec<u64>) -> VestingScheduleHeader {
    create(&create_ctx(), &times, &amts).unwrap().0
}

fn assert_escrow_signed(t: &Transfer, bump: u8) {
    match &t.authority {
        TransferAuthority::Program { address, seed, bump: b } => {
            assert!(*address == escrow());
            assert_eq!(seed.as_slice(), SEED.as_bytes());
            assert_eq!(*b, bump);
        }
        TransferAuthority::Owner(_) => panic!("expected the escrow to sign"),
    }
}

#[test]
fn create_builds_schedule_and_funds_escrow() {
    let (h, t) = create(&create_ctx(), &vec![100, 200], &vec![50, 70]).unwrap();
    assert_eq!(
        h.schedules,
        vec![
            VestingSchedule { release_time: 100, amount: 50 },
            VestingSchedule { release_time: 200, amount: 70 },
        ]
    );
    assert!(h.src_token_account == source());
    assert!(h.src_token_account_owner == depositor());
    assert!(h.destination_token_account == destination());
    assert!(h.destination_token_account_owner == beneficiary());
    assert!(h.mint_key == mint());
    assert_eq!(t.amount, 120);
    assert!(t.from == source());
    assert!(t.to == escrow_tokens());
    assert!(matches!(t.authority, TransferAuthority::Owner(k) if k == depositor()));
    assert_eq!(held(&h), 120);
}

#[test]
fn create_rejects_mismatched_lengths() {
    let r = create(&create_ctx(), &vec![100, 200, 300], &vec![50, 70]);
    assert_eq!(r.err(), Some(ErrorCode::InvalidScheduleInput));
}

#[test]
fn create_rejects_existing_record() {
    let mut ctx = create_ctx();
    ctx.vesting_account_exists = true;
    let r = create(&ctx, &vec![100], &vec![50]);
    assert_eq!(r.err(), Some(ErrorCode::DuplicateRecord));
}

#[test]
fn create_rejects_foreign_source() {
    let mut ctx = create_ctx();
    ctx.src_token_account.owner = key(42);
    let r = create(&ctx, &vec![100], &vec![50]);
    assert_eq!(r.err(), Some(ErrorCode::AuthorizationFailure));
}

#[test]
fn create_rejects_destination_of_other_mint() {
    let mut ctx = create_ctx();
    ctx.dst_token_account.mint = key(42);
    let r = create(&ctx, &vec![100], &vec![50]);
    assert_eq!(r.err(), Some(ErrorCode::AuthorizationFailure));
}

#[test]
fn create_with_empty_schedule() {
    let (h, t) = create(&create_ctx(), &vec![], &vec![]).unwrap();
    assert!(h.schedules.is_empty());
    assert_eq!(t.amount, 0);
}

#[test]
fn two_tranche_scenario() {
    let mut h = created(vec![100, 200], vec![50, 70]);
    assert_eq!(held(&h), 120);

    let t = unlock_derived(&mut h, &unlock_ctx(150, destination()), SEED.as_bytes(), derived()).unwrap();
    assert_eq!(t.amount, 50);
    assert!(t.from == escrow_tokens());
    assert!(t.to == destination());
    assert_escrow_signed(&t, 254);
    assert_eq!(amounts(&h), vec![0, 70]);
    assert_eq!(held(&h), 70);

    let t = unlock_derived(&mut h, &unlock_ctx(250, destination()), SEED.as_bytes(), derived()).unwrap();
    assert_eq!(t.amount, 70);
    assert_eq!(amounts(&h), vec![0, 0]);
    assert_eq!(held(&h), 0);

    let t = close_account_derived(&h, &close_ctx(250), SEED.as_bytes(), derived()).unwrap();
    assert_eq!(t.amount, 0);
    assert!(t.to == source());
    assert_escrow_signed(&t, 254);
}

#[test]
fn unlock_twice_fails_second_time() {
    let mut h = created(vec![100, 200], vec![50, 70]);
    let ctx = unlock_ctx(150, destination());
    assert_eq!(unlock_derived(&mut h, &ctx, SEED.as_bytes(), derived()).unwrap().amount, 50);
    let before = amounts(&h);
    let r = unlock_derived(&mut h, &ctx, SEED.as_bytes(), derived());
    assert_eq!(r.err(), Some(ErrorCode::NoUnlockableBalance));
    assert_eq!(amounts(&h), before);
    assert_eq!(held(&h), 70);
}

#[test]
fn unlock_before_any_release_fails() {
    let mut h = created(vec![100, 200], vec![50, 70]);
    let r = unlock_derived(&mut h, &unlock_ctx(100, destination()), SEED.as_bytes(), derived());
    assert_eq!(r.err(), Some(ErrorCode::NoUnlockableBalance));
    assert_eq!(amounts(&h), vec![50, 70]);
}

#[test]
fn unlock_pays_all_due_tranches_at_once() {
    let mut h = created(vec![10, 20, 300], vec![5, 6, 7]);
    let t = unlock_derived(&mut h, &unlock_ctx(21, destination()), SEED.as_bytes(), derived()).unwrap();
    assert_eq!(t.amount, 11);
    assert_eq!(amounts(&h), vec![0, 0, 7]);
}

#[test]
fn unlock_rejects_other_destination() {
    let mut h = created(vec![100], vec![50]);
    let r = unlock_derived(&mut h, &unlock_ctx(150, key(42)), SEED.as_bytes(), derived());
    assert_eq!(r.err(), Some(ErrorCode::AuthorizationFailure));
    assert_eq!(amounts(&h), vec![50]);
}

#[test]
fn unlock_rejects_other_escrow_address() {
    let mut h = created(vec![100], vec![50]);
    let ctx = unlock_ctx(150, destination());
    let r = unlock_derived(&mut h, &ctx, SEED.as_bytes(), Some((key(43), 200)));
    assert_eq!(r.err(), Some(ErrorCode::AuthorizationFailure));
    let r = unlock_derived(&mut h, &ctx, SEED.as_bytes(), None);
    assert_eq!(r.err(), Some(ErrorCode::AuthorizationFailure));
    assert_eq!(amounts(&h), vec![50]);
}

#[test]
fn close_waits_for_due_tranches() {
    let mut h = created(vec![100, 200], vec![50, 70]);
    let r = close_account_derived(&h, &close_ctx(150), SEED.as_bytes(), derived());
    assert_eq!(r.err(), Some(ErrorCode::PendingUnlockExists));
    assert_eq!(amounts(&h), vec![50, 70]);

    unlock_derived(&mut h, &unlock_ctx(150, destination()), SEED.as_bytes(), derived()).unwrap();
    let t = close_account_derived(&h, &close_ctx(150), SEED.as_bytes(), derived()).unwrap();
    assert_eq!(t.amount, 70);
    assert!(t.from == escrow_tokens());
    assert!(t.to == source());
}

#[test]
fn close_rejects_other_depositor() {
    let h = created(vec![100], vec![50]);
    let mut ctx = close_ctx(50);
    ctx.initializer = key(42);
    ctx.src_token_account.owner = key(42);
    let r = close_account_derived(&h, &ctx, SEED.as_bytes(), derived());
    assert_eq!(r.err(), Some(ErrorCode::AuthorizationFailure));
}

#[test]
fn close_before_release_returns_everything() {
    let h = created(vec![100, 200], vec![50, 70]);
    let t = close_account_derived(&h, &close_ctx(50), SEED.as_bytes(), derived()).unwrap();
    assert_eq!(t.amount, 120);
}

#[test]
fn change_destination_redirects_unlock() {
    let mut h = created(vec![100], vec![50]);
    let new_owner = key(20);
    let new_account = key(21);

    let r = change_destination_derived(&mut h, &change_ctx(key(42), destination(), new_owner, new_account), derived());
    assert_eq!(r.err(), Some(ErrorCode::AuthorizationFailure));
    let r = change_destination_derived(&mut h, &change_ctx(beneficiary(), key(42), new_owner, new_account), derived());
    assert_eq!(r.err(), Some(ErrorCode::AuthorizationFailure));
    assert!(h.destination_token_account == destination());

    change_destination_derived(&mut h, &change_ctx(beneficiary(), destination(), new_owner, new_account), derived())
        .unwrap();
    assert!(h.destination_token_account == new_account);
    assert!(h.destination_token_account_owner == new_owner);

    let r = unlock_derived(&mut h, &unlock_ctx(150, destination()), SEED.as_bytes(), derived());
    assert_eq!(r.err(), Some(ErrorCode::AuthorizationFailure));
    let t = unlock_derived(&mut h, &unlock_ctx(150, new_account), SEED.as_bytes(), derived()).unwrap();
    assert!(t.to == new_account);
    assert_eq!(t.amount, 50);
}

fn real_escrow(seed: &str) -> (Key, u8) {
    let program = Pubkey::new_from_array(program_id().bytes);
    let (address, bump) = Pubkey::find_program_address(&[seed.as_bytes()], &program);
    (Key::new(address.to_bytes()), bump)
}

#[test]
fn seed_derivation_identifies_escrow() {
    let (address, bump) = real_escrow(SEED);
    assert!(address != program_id());
    let mut h = created(vec![100, 200], vec![50, 70]);

    let mut ctx = unlock_ctx(150, destination());
    ctx.vesting_account = address;
    let t = unlock(&mut h, &ctx, SEED).unwrap();
    assert_eq!(t.amount, 50);
    match &t.authority {
        TransferAuthority::Program { address: a, seed, bump: b } => {
            assert!(*a == address);
            assert_eq!(seed.as_slice(), SEED.as_bytes());
            assert_eq!(*b, bump);
        }
        TransferAuthority::Owner(_) => panic!("expected the escrow to sign"),
    }

    let r = unlock(&mut h, &ctx, "another-seed");
    assert_eq!(r.err(), Some(ErrorCode::AuthorizationFailure));

    let mut cctx = close_ctx(150);
    cctx.vesting_account = address;
    assert_eq!(close_account(&h, &cctx, SEED).unwrap().amount, 70);

    let mut dctx = change_ctx(beneficiary(), destination(), key(20), key(21));
    dctx.vesting_account = address;
    change_destination(&mut h, &dctx, SEED).unwrap();
    assert!(h.destination_token_account == key(21));
}

#[test]
fn seed_longer_than_limit_identifies_nothing() {
    let seed = "a-seed-that-is-longer-than-thirty-two-bytes";
    let mut h = created(vec![100], vec![50]);
    let r = unlock(&mut h, &unlock_ctx(150, destination()), seed);
    assert_eq!(r.err(), Some(ErrorCode::AuthorizationFailure));
}

#[test]
fn record_sizes() {
    assert_eq!(VestingScheduleHeader::LEN(), 168);
    assert_eq!(VestingSchedule::LEN(), 64);
    assert_eq!(VestingScheduleHeader::space(2), Some(296));
    assert_eq!(VestingScheduleHeader::space(0), Some(168));
    assert_eq!(VestingScheduleHeader::space(usize::MAX), None);
}

#[test]
fn held_total_detects_overflow() {
    let mut h = created(vec![1, 2], vec![u64::MAX - 1, 1]);
    assert_eq!(h.held_total(), Some(u64::MAX));
    h.schedules.push(VestingSchedule { release_time: 3, amount: 1 });
    assert_eq!(h.held_total(), None);
}

#[test]
fn keys_compare_by_bytes() {
    let mut b = [9u8; 32];
    assert!(Key::new(b) == key(9));
    b[31] = 8;
    assert!(Key::new(b) != key(9));
    assert!(!Key::new(b).same(&key(9)));
}
