use htlc_escrow::bytes::is_zero;
use htlc_escrow::bytes::same_bytes;
use htlc_escrow::bytes::zeroed;
use htlc_escrow::error::EscrowError;
use htlc_escrow::error::HTLCError;
use htlc_escrow::htlc::timelock_is_valid;
use htlc_escrow::htlc::Asset;
use htlc_escrow::htlc::HTLC;
use htlc_escrow::status::Status;
use htlc_escrow::htlc::NATIVE_MIN_HORIZON;
use htlc_escrow::htlc::TOKEN_MIN_HORIZON;
use htlc_escrow::payout::close_if_empty;
use htlc_escrow::payout::transfer_htlc_out;
use htlc_escrow::payout::transfer_htlc_reward_out;
use htlc_escrow::payout::Payout;
use htlc_escrow::store::EscrowStore;
use sha2::Digest;
use sha2::Sha256;

const NOW: u64 = 5_000;
const ALICE: [u8; 32] = [0xa1u8; 32];
const BOB: [u8; 32] = [0xb0u8; 32];
const CAROL: [u8; 32] = [0xc0u8; 32];
const PREIMAGE: [u8; 32] = [0x42u8; 32];

fn digest(secret: &[u8; 32]) -> [u8; 32] {
    Sha256::digest(secret).into()
}

fn record(id: [u8; 32], hashlock: [u8; 32], amount: u64, timelock: u64) -> HTLC {
    HTLC::create(
        id,
        ALICE,
        BOB,
        hashlock,
        timelock,
        amount,
        String::from("chain"),
        String::from("asset"),
        String::from("address"),
        String::from("source"),
        Asset::Native,
        NOW,
        0,
    )
    .unwrap()
}

#[test]
fn zeroed_is_all_zero() {
    assert_eq!(zeroed(), [0u8; 32]);
    assert!(is_zero(&zeroed()));
}

#[test]
fn is_zero_sees_every_byte() {
    assert!(is_zero(&[0u8; 32]));
    for i in 0..32 {
        let mut bytes = [0u8; 32];
        bytes[i] = 1;
        assert!(!is_zero(&bytes));
    }
    assert!(!is_zero(&[0xffu8; 32]));
}

#[test]
fn same_bytes_sees_every_byte() {
    let a = [0x33u8; 32];
    assert!(same_bytes(&a, &a));
    assert!(same_bytes(&a, &[0x33u8; 32]));
    for i in 0..32 {
        let mut b = a;
        b[i] = 0x34;
        assert!(!same_bytes(&a, &b));
        assert!(!same_bytes(&b, &a));
    }
}

#[test]
fn timelock_rule() {
    assert!(timelock_is_valid(101, 100, 0));
    assert!(!timelock_is_valid(100, 100, 0));
    assert!(!timelock_is_valid(99, 100, 0));
    assert!(timelock_is_valid(1000, 100, 900));
    assert!(!timelock_is_valid(999, 100, 900));
    assert!(timelock_is_valid(101, 100, 1));
    assert!(!timelock_is_valid(0, 0, 0));
    assert!(timelock_is_valid(1, 0, 0));
    assert!(timelock_is_valid(u64::MAX, 0, u64::MAX));
    assert!(!timelock_is_valid(u64::MAX, 1, u64::MAX));
    assert!(!timelock_is_valid(u64::MAX, u64::MAX, 0));
}

#[test]
fn customary_horizons() {
    assert_eq!(NATIVE_MIN_HORIZON, 0);
    assert_eq!(TOKEN_MIN_HORIZON, 900);
    assert!(timelock_is_valid(NOW + 1, NOW, NATIVE_MIN_HORIZON));
    assert!(!timelock_is_valid(NOW + 1, NOW, TOKEN_MIN_HORIZON));
    assert!(timelock_is_valid(NOW + 900, NOW, TOKEN_MIN_HORIZON));
}

#[test]
fn status_codes() {
    assert_eq!(Status::Active.code(), 1);
    assert_eq!(Status::Refunded.code(), 2);
    assert_eq!(Status::Redeemed.code(), 3);
    assert_eq!(Status::from_code(1), Some(Status::Active));
    assert_eq!(Status::from_code(2), Some(Status::Refunded));
    assert_eq!(Status::from_code(3), Some(Status::Redeemed));
    assert_eq!(Status::from_code(0), None);
    assert_eq!(Status::from_code(4), None);
    assert_eq!(Status::from_code(255), None);
}

#[test]
fn error_messages() {
    assert_eq!(HTLCError::InvalidTimeLock.message(), "Invalid TimeLock.");
    assert_eq!(HTLCError::NotFutureTimeLock.message(), "Not Future TimeLock.");
    assert_eq!(HTLCError::NotPastTimeLock.message(), "Not Past TimeLock.");
    assert_eq!(HTLCError::InvalidRewardTimeLock.message(), "Invalid Reward TimeLock.");
    assert_eq!(HTLCError::HashlockNotSet.message(), "Hashlock Is Not Set.");
    assert_eq!(HTLCError::HashlockNoMatch.message(), "Does Not Match the Hashlock.");
    assert_eq!(HTLCError::HashlockAlreadySet.message(), "Hashlock Already Set.");
    assert_eq!(HTLCError::AlreadyClaimed.message(), "Funds Are Alredy Claimed.");
    assert_eq!(HTLCError::FundsNotSent.message(), "Funds Can Not Be Zero.");
    assert_eq!(HTLCError::UnauthorizedAccess.message(), "Unauthorized Access.");
    assert_eq!(HTLCError::NotOwner.message(), "Not The Owner.");
    assert_eq!(HTLCError::NotSender.message(), "Not The Sender.");
    assert_eq!(HTLCError::NotReciever.message(), "Not The Reciever.");
    assert_eq!(HTLCError::NoToken.message(), "Wrong Token.");
    assert_eq!(HTLCError::RewardAlreadySet.message(), "Reward Already Set.");
}

#[test]
fn transfer_out_orders_one_payout() {
    assert_eq!(transfer_htlc_out(BOB, 17), vec![Payout { to: BOB, amount: 17 }]);
    assert_eq!(transfer_htlc_out(ALICE, 0), vec![Payout { to: ALICE, amount: 0 }]);
}

#[test]
fn transfer_reward_out_orders_two_payouts_in_order() {
    assert_eq!(
        transfer_htlc_reward_out(BOB, CAROL, 17, 3),
        vec![Payout { to: BOB, amount: 17 }, Payout { to: CAROL, amount: 3 }]
    );
    assert_eq!(
        transfer_htlc_reward_out(BOB, BOB, 1, u64::MAX),
        vec![Payout { to: BOB, amount: 1 }, Payout { to: BOB, amount: u64::MAX }]
    );
}

#[test]
fn custody_is_closed_only_when_empty() {
    assert_eq!(close_if_empty(0, ALICE), Some(ALICE));
    assert_eq!(close_if_empty(1, ALICE), None);
    assert_eq!(close_if_empty(u64::MAX, ALICE), None);
}

#[test]
fn create_makes_an_active_record() {
    let id = [1u8; 32];
    let h = digest(&PREIMAGE);
    let made = HTLC::create(
        id,
        ALICE,
        BOB,
        h,
        NOW + 10,
        25,
        String::from("chain"),
        String::from("asset"),
        String::from("address"),
        String::from("source"),
        Asset::Token { token_contract: [4u8; 32], token_wallet: [5u8; 32] },
        NOW,
        10,
    )
    .unwrap();
    let expected = HTLC {
        id,
        dst_address: String::from("address"),
        dst_chain: String::from("chain"),
        dst_asset: String::from("asset"),
        src_asset: String::from("source"),
        sender: ALICE,
        src_receiver: BOB,
        hashlock: h,
        secret: [0u8; 32],
        amount: 25,
        timelock: NOW + 10,
        reward: 0,
        reward_timelock: 0,
        asset: Asset::Token { token_contract: [4u8; 32], token_wallet: [5u8; 32] },
        status: Status::Active,
    };
    assert_eq!(made, expected);
    assert!(made.is_wf());
    assert_eq!(made.clone(), expected);
}

#[test]
fn create_rejections() {
    let make = |amount: u64, timelock: u64, horizon: u64| {
        HTLC::create(
            [1u8; 32],
            ALICE,
            BOB,
            [0u8; 32],
            timelock,
            amount,
            String::new(),
            String::new(),
            String::new(),
            String::new(),
            Asset::Native,
            NOW,
            horizon,
        )
    };
    assert_eq!(make(1, NOW, 0).err(), Some(HTLCError::InvalidTimeLock));
    assert_eq!(make(0, NOW, 0).err(), Some(HTLCError::InvalidTimeLock));
    assert_eq!(make(1, NOW + 899, 900).err(), Some(HTLCError::InvalidTimeLock));
    assert_eq!(make(0, NOW + 1, 0).err(), Some(HTLCError::FundsNotSent));
    assert_eq!(make(0, NOW + 900, 900).err(), Some(HTLCError::FundsNotSent));
    assert!(make(1, NOW + 1, 0).is_ok());
    assert!(make(u64::MAX, u64::MAX, 0).is_ok());
}

#[test]
fn well_formedness_check() {
    let good = record([1u8; 32], digest(&PREIMAGE), 5, NOW + 10);
    assert!(good.is_wf());

    let mut no_amount = good.clone();
    no_amount.amount = 0;
    assert!(!no_amount.is_wf());

    let mut too_much = good.clone();
    too_much.amount = u64::MAX;
    too_much.reward = 1;
    assert!(!too_much.is_wf());

    let mut full = good.clone();
    full.amount = u64::MAX - 1;
    full.reward = 1;
    assert!(full.is_wf());

    let mut early_secret = good.clone();
    early_secret.secret = PREIMAGE;
    assert!(!early_secret.is_wf());
    early_secret.status = Status::Redeemed;
    assert!(early_secret.is_wf());

    let mut redeemed_unlocked = good.clone();
    redeemed_unlocked.status = Status::Redeemed;
    redeemed_unlocked.hashlock = [0u8; 32];
    assert!(!redeemed_unlocked.is_wf());

    let mut refunded = good.clone();
    refunded.status = Status::Refunded;
    assert!(refunded.is_wf());

    let mut reward_in_time = good.clone();
    reward_in_time.reward = 1;
    reward_in_time.reward_timelock = NOW + 9;
    assert!(reward_in_time.is_wf());

    let mut reward_too_late = good.clone();
    reward_too_late.reward = 1;
    reward_too_late.reward_timelock = NOW + 10;
    assert!(!reward_too_late.is_wf());
    reward_too_late.reward_timelock = NOW + 11;
    assert!(!reward_too_late.is_wf());

    let mut no_reward_any_window = good.clone();
    no_reward_any_window.reward = 0;
    no_reward_any_window.reward_timelock = NOW + 11;
    assert!(no_reward_any_window.is_wf());
}

#[test]
fn redeem_with_digest_goes_by_the_digest_given() {
    let lockbytes = [0x77u8; 32];
    let mut htlc = record([1u8; 32], lockbytes, 40, NOW + 10);
    let before = htlc.clone();
    assert_eq!(
        htlc.redeem_with_digest(&BOB, PREIMAGE, &[0x78u8; 32], NOW),
        Err(HTLCError::HashlockNoMatch)
    );
    assert_eq!(htlc, before);
    assert_eq!(
        htlc.redeem_with_digest(&BOB, PREIMAGE, &lockbytes, NOW),
        Ok(vec![Payout { to: BOB, amount: 40 }])
    );
    assert_eq!(htlc.status, Status::Redeemed);
    assert_eq!(htlc.secret, PREIMAGE);
    let mut after = before.clone();
    after.status = Status::Redeemed;
    after.secret = PREIMAGE;
    assert_eq!(htlc, after);
    assert_eq!(
        htlc.redeem_with_digest(&BOB, PREIMAGE, &lockbytes, NOW),
        Err(HTLCError::AlreadyClaimed)
    );
    assert_eq!(htlc, after);
}

#[test]
fn redeem_with_digest_without_hashlock() {
    let mut htlc = record([1u8; 32], [0u8; 32], 40, NOW + 10);
    let before = htlc.clone();
    assert_eq!(
        htlc.redeem_with_digest(&BOB, PREIMAGE, &[0u8; 32], NOW),
        Err(HTLCError::HashlockNotSet)
    );
    assert_eq!(htlc, before);
}

#[test]
fn record_redeem_split() {
    let h = digest(&PREIMAGE);
    let with_reward = || {
        let mut htlc = record([1u8; 32], h, 50, NOW + 1000);
        assert_eq!(htlc.lock_reward(&ALICE, NOW + 500, 10, NOW), Ok(()));
        htlc
    };
    assert_eq!(
        with_reward().redeem(&CAROL, PREIMAGE, NOW + 499),
        Ok(vec![Payout { to: BOB, amount: 50 }, Payout { to: ALICE, amount: 10 }])
    );
    assert_eq!(
        with_reward().redeem(&BOB, PREIMAGE, NOW + 499),
        Ok(vec![Payout { to: BOB, amount: 50 }, Payout { to: ALICE, amount: 10 }])
    );
    assert_eq!(
        with_reward().redeem(&BOB, PREIMAGE, NOW + 500),
        Ok(vec![Payout { to: BOB, amount: 60 }])
    );
    assert_eq!(
        with_reward().redeem(&CAROL, PREIMAGE, NOW + 500),
        Ok(vec![Payout { to: BOB, amount: 50 }, Payout { to: CAROL, amount: 10 }])
    );
    assert_eq!(
        with_reward().redeem(&ALICE, PREIMAGE, NOW + 2000),
        Ok(vec![Payout { to: BOB, amount: 50 }, Payout { to: ALICE, amount: 10 }])
    );
    let mut plain = record([1u8; 32], h, 50, NOW + 1000);
    assert_eq!(plain.redeem(&CAROL, PREIMAGE, NOW + 2000), Ok(vec![Payout { to: BOB, amount: 50 }]));
}

#[test]
fn record_redeem_rejections_change_nothing() {
    let h = digest(&PREIMAGE);
    let mut htlc = record([1u8; 32], h, 50, NOW + 1000);
    let before = htlc.clone();
    assert_eq!(htlc.redeem(&BOB, [0u8; 32], NOW), Err(HTLCError::HashlockNoMatch));
    assert_eq!(htlc.redeem(&BOB, h, NOW), Err(HTLCError::HashlockNoMatch));
    assert_eq!(htlc, before);
}

#[test]
fn record_add_lock() {
    let h = digest(&PREIMAGE);
    let mut htlc = record([1u8; 32], [0u8; 32], 50, NOW + 1000);
    let before = htlc.clone();
    assert_eq!(htlc.add_lock(&BOB, h, NOW + 50, NOW, 0), Err(HTLCError::UnauthorizedAccess));
    assert_eq!(htlc.add_lock(&ALICE, h, NOW, NOW, 0), Err(HTLCError::NotFutureTimeLock));
    assert_eq!(htlc.add_lock(&ALICE, h, NOW + 50, NOW, 51), Err(HTLCError::InvalidTimeLock));
    assert_eq!(htlc, before);
    assert_eq!(htlc.add_lock(&ALICE, h, NOW + 50, NOW, 50), Ok(()));
    let mut after = before.clone();
    after.hashlock = h;
    after.timelock = NOW + 50;
    assert_eq!(htlc, after);
    assert_eq!(htlc.add_lock(&ALICE, h, NOW + 60, NOW, 0), Err(HTLCError::HashlockAlreadySet));
    assert_eq!(htlc, after);
}

#[test]
fn record_add_lock_refuses_the_zero_hashlock() {
    let mut htlc = record([1u8; 32], [0u8; 32], 50, NOW + 1000);
    let before = htlc.clone();
    assert_eq!(htlc.add_lock(&ALICE, [0u8; 32], NOW + 50, NOW, 0), Err(HTLCError::HashlockNotSet));
    assert_eq!(htlc.add_lock(&ALICE, [0u8; 32], NOW + 50, NOW, 50), Err(HTLCError::HashlockNotSet));
    assert_eq!(htlc, before);
    // Every other failure is named first.
    assert_eq!(htlc.add_lock(&BOB, [0u8; 32], NOW + 50, NOW, 0), Err(HTLCError::UnauthorizedAccess));
    assert_eq!(htlc.add_lock(&ALICE, [0u8; 32], NOW, NOW, 0), Err(HTLCError::NotFutureTimeLock));
    assert_eq!(htlc.add_lock(&ALICE, [0u8; 32], NOW + 50, NOW, 51), Err(HTLCError::InvalidTimeLock));
    assert_eq!(htlc, before);
    // One byte that is not zero makes a hashlock, and it is attached once.
    let mut almost = [0u8; 32];
    almost[31] = 1;
    assert_eq!(htlc.add_lock(&ALICE, almost, NOW + 70, NOW, 0), Ok(()));
    assert_eq!(htlc.hashlock, almost);
    assert_eq!(htlc.timelock, NOW + 70);
    assert_eq!(
        htlc.add_lock(&ALICE, digest(&PREIMAGE), NOW + 80, NOW, 0),
        Err(HTLCError::HashlockAlreadySet)
    );
    assert_eq!(htlc.add_lock(&ALICE, [0u8; 32], NOW + 80, NOW, 0), Err(HTLCError::HashlockAlreadySet));
}

#[test]
fn record_add_lock_refuses_the_zero_hashlock_after_the_reward_timelock_test() {
    let mut htlc = record([1u8; 32], [0u8; 32], 50, NOW + 1000);
    assert_eq!(htlc.lock_reward(&ALICE, NOW + 500, 10, NOW), Ok(()));
    let held = htlc.clone();
    assert_eq!(htlc.add_lock(&ALICE, [0u8; 32], NOW + 500, NOW, 0), Err(HTLCError::InvalidTimeLock));
    assert_eq!(htlc.add_lock(&ALICE, [0u8; 32], NOW + 501, NOW, 0), Err(HTLCError::HashlockNotSet));
    assert_eq!(htlc, held);
}

#[test]
fn record_lock_reward() {
    let mut htlc = record([1u8; 32], digest(&PREIMAGE), 50, NOW + 1000);
    let before = htlc.clone();
    assert_eq!(htlc.lock_reward(&BOB, NOW + 1, 10, NOW), Err(HTLCError::UnauthorizedAccess));
    assert_eq!(htlc.lock_reward(&ALICE, NOW, 10, NOW), Err(HTLCError::InvalidRewardTimeLock));
    assert_eq!(
        htlc.lock_reward(&ALICE, NOW + 1000, 10, NOW),
        Err(HTLCError::InvalidRewardTimeLock)
    );
    assert_eq!(htlc, before);
    assert_eq!(htlc.lock_reward(&ALICE, NOW + 999, 10, NOW), Ok(()));
    let mut after = before.clone();
    after.reward = 10;
    after.reward_timelock = NOW + 999;
    assert_eq!(htlc, after);
}

#[test]
fn record_lock_reward_is_accepted_once() {
    let mut htlc = record([1u8; 32], digest(&PREIMAGE), 50, NOW + 1000);
    assert_eq!(htlc.lock_reward(&ALICE, NOW + 500, 10, NOW), Ok(()));
    let held = htlc.clone();
    assert_eq!(htlc.check_lock_reward(&ALICE, NOW + 600, NOW), Some(HTLCError::RewardAlreadySet));
    assert_eq!(htlc.lock_reward(&ALICE, NOW + 600, 20, NOW), Err(HTLCError::RewardAlreadySet));
    assert_eq!(htlc.lock_reward(&ALICE, NOW + 500, 10, NOW), Err(HTLCError::RewardAlreadySet));
    assert_eq!(htlc.lock_reward(&ALICE, NOW + 600, 0, NOW), Err(HTLCError::RewardAlreadySet));
    // A reward timelock that is invalid is named before the reward held.
    assert_eq!(
        htlc.lock_reward(&ALICE, NOW + 2000, 20, NOW),
        Err(HTLCError::InvalidRewardTimeLock)
    );
    assert_eq!(
        htlc.lock_reward(&ALICE, NOW + 1000, 20, NOW),
        Err(HTLCError::InvalidRewardTimeLock)
    );
    assert_eq!(htlc.lock_reward(&ALICE, NOW, 20, NOW), Err(HTLCError::InvalidRewardTimeLock));
    assert_eq!(htlc.lock_reward(&ALICE, NOW + 600, 20, NOW + 600), Err(HTLCError::InvalidRewardTimeLock));
    assert_eq!(
        htlc.check_lock_reward(&ALICE, NOW + 1000, NOW),
        Some(HTLCError::InvalidRewardTimeLock)
    );
    assert_eq!(htlc.check_lock_reward(&ALICE, NOW, NOW), Some(HTLCError::InvalidRewardTimeLock));
    assert_eq!(htlc.lock_reward(&ALICE, NOW + 999, 20, NOW), Err(HTLCError::RewardAlreadySet));
    // A stranger is turned away before that.
    assert_eq!(htlc.lock_reward(&BOB, NOW + 600, 20, NOW), Err(HTLCError::UnauthorizedAccess));
    assert_eq!(htlc, held);
    assert_eq!(htlc.refund(&ALICE, NOW + 1000), Ok(vec![Payout { to: ALICE, amount: 60 }]));
}

#[test]
fn record_lock_reward_of_zero_leaves_room_for_a_reward() {
    let mut htlc = record([1u8; 32], digest(&PREIMAGE), 50, NOW + 1000);
    assert_eq!(htlc.lock_reward(&ALICE, NOW + 500, 0, NOW), Ok(()));
    assert_eq!(htlc.reward, 0);
    assert_eq!(htlc.reward_timelock, NOW + 500);
    assert_eq!(htlc.lock_reward(&ALICE, NOW + 600, 7, NOW), Ok(()));
    assert_eq!(htlc.reward, 7);
    assert_eq!(htlc.reward_timelock, NOW + 600);
    assert_eq!(htlc.lock_reward(&ALICE, NOW + 700, 8, NOW), Err(HTLCError::RewardAlreadySet));
}

#[test]
fn record_add_lock_keeps_the_timelock_after_the_reward_timelock() {
    let h = digest(&PREIMAGE);
    let mut htlc = record([1u8; 32], [0u8; 32], 50, NOW + 1000);
    assert_eq!(htlc.lock_reward(&ALICE, NOW + 500, 10, NOW), Ok(()));
    let held = htlc.clone();
    assert_eq!(htlc.add_lock(&ALICE, h, NOW + 400, NOW, 0), Err(HTLCError::InvalidTimeLock));
    assert_eq!(htlc.add_lock(&ALICE, h, NOW + 500, NOW, 0), Err(HTLCError::InvalidTimeLock));
    // A timelock that is not in the future is named as such first.
    assert_eq!(htlc.add_lock(&ALICE, h, NOW, NOW, 0), Err(HTLCError::NotFutureTimeLock));
    assert_eq!(htlc, held);
    assert!(htlc.is_wf());
    assert_eq!(htlc.add_lock(&ALICE, h, NOW + 501, NOW, 0), Ok(()));
    assert_eq!(htlc.hashlock, h);
    assert_eq!(htlc.timelock, NOW + 501);
    assert_eq!(htlc.reward, 10);
    assert_eq!(htlc.reward_timelock, NOW + 500);
    assert!(htlc.is_wf());
}

#[test]
fn record_add_lock_without_reward_ignores_the_reward_timelock() {
    let h = digest(&PREIMAGE);
    let mut htlc = record([1u8; 32], [0u8; 32], 50, NOW + 1000);
    assert_eq!(htlc.lock_reward(&ALICE, NOW + 500, 0, NOW), Ok(()));
    assert_eq!(htlc.add_lock(&ALICE, h, NOW + 400, NOW, 0), Ok(()));
    assert_eq!(htlc.timelock, NOW + 400);
    assert!(htlc.is_wf());
}

#[test]
fn record_check_lock_reward() {
    let mut htlc = record([1u8; 32], digest(&PREIMAGE), 50, NOW + 1000);
    assert_eq!(htlc.check_lock_reward(&ALICE, NOW + 1, NOW), None);
    assert_eq!(htlc.check_lock_reward(&ALICE, NOW + 999, NOW), None);
    assert_eq!(htlc.check_lock_reward(&BOB, NOW + 1, NOW), Some(HTLCError::UnauthorizedAccess));
    assert_eq!(
        htlc.check_lock_reward(&ALICE, NOW, NOW),
        Some(HTLCError::InvalidRewardTimeLock)
    );
    assert_eq!(
        htlc.check_lock_reward(&ALICE, NOW + 1000, NOW),
        Some(HTLCError::InvalidRewardTimeLock)
    );
    assert_eq!(htlc.refund(&ALICE, NOW + 1000), Ok(vec![Payout { to: ALICE, amount: 50 }]));
    assert_eq!(htlc.check_lock_reward(&ALICE, NOW + 1, NOW), Some(HTLCError::AlreadyClaimed));
    assert_eq!(htlc.check_lock_reward(&BOB, NOW, NOW), Some(HTLCError::AlreadyClaimed));
}

#[test]
fn record_refund() {
    let mut htlc = record([1u8; 32], digest(&PREIMAGE), 50, NOW + 1000);
    assert_eq!(htlc.lock_reward(&ALICE, NOW + 1, 5, NOW), Ok(()));
    let before = htlc.clone();
    assert_eq!(htlc.refund(&BOB, NOW + 1000), Err(HTLCError::UnauthorizedAccess));
    assert_eq!(htlc.refund(&ALICE, NOW + 999), Err(HTLCError::NotPastTimeLock));
    assert_eq!(htlc, before);
    assert_eq!(htlc.refund(&ALICE, NOW + 1000), Ok(vec![Payout { to: ALICE, amount: 55 }]));
    let mut after = before.clone();
    after.status = Status::Refunded;
    assert_eq!(htlc, after);
    assert_eq!(htlc.refund(&ALICE, NOW + 1000), Err(HTLCError::AlreadyClaimed));
    assert_eq!(htlc.redeem(&BOB, PREIMAGE, NOW), Err(HTLCError::AlreadyClaimed));
    assert_eq!(htlc.add_lock(&ALICE, [9u8; 32], NOW + 1, NOW, 0), Err(HTLCError::AlreadyClaimed));
    assert_eq!(htlc.lock_reward(&ALICE, NOW + 1, 1, NOW), Err(HTLCError::AlreadyClaimed));
    assert_eq!(htlc, after);
}

#[test]
fn store_create_get_put() {
    let mut store = EscrowStore::new(7);
    assert_eq!(store.min_horizon(), 7);
    let a = [1u8; 32];
    let b = [2u8; 32];
    assert!(!store.contains(&a));
    assert!(store.get(&a).is_none());

    let first = record(a, [0u8; 32], 10, NOW + 10);
    assert_eq!(store.create(first.clone()), Ok(()));
    assert!(store.contains(&a));
    assert!(!store.contains(&b));
    assert_eq!(store.get(&a), Some(&first));

    let other = record(a, [0u8; 32], 99, NOW + 99);
    assert_eq!(store.create(other.clone()), Err(EscrowError::AlreadyExists));
    assert_eq!(store.get(&a), Some(&first));

    let second = record(b, [3u8; 32], 20, NOW + 20);
    assert_eq!(store.put(second.clone()), Err(EscrowError::NotFound));
    assert!(!store.contains(&b));
    assert_eq!(store.create(second.clone()), Ok(()));

    assert_eq!(store.put(other.clone()), Ok(()));
    assert_eq!(store.get(&a), Some(&other));
    assert_eq!(store.get(&b), Some(&second));
    assert_eq!(store.min_horizon(), 7);
}
