//! The escrow state machine as mathematics: what a record is, when each
//! operation is rejected, what it changes, and whom it pays.
//!
//! Nothing here runs. The executable operations are specified against these
//! definitions, and the laws of the protocol are proved over them.

use crate::bytes::zero_bytes;
use crate::error::HTLCError;
use crate::status::Status;
use vstd::prelude::*;

verus! {

/// The asset an escrow holds, as a mathematical value.
pub enum AssetView {
    Native,
    Token { token_contract: Seq<u8>, token_wallet: Seq<u8> },
}

/// An escrow record as a mathematical value.
pub struct HtlcView {
    pub id: Seq<u8>,
    pub dst_address: Seq<char>,
    pub dst_chain: Seq<char>,
    pub dst_asset: Seq<char>,
    pub src_asset: Seq<char>,
    pub sender: Seq<u8>,
    pub src_receiver: Seq<u8>,
    pub hashlock: Seq<u8>,
    pub secret: Seq<u8>,
    pub amount: nat,
    pub timelock: nat,
    pub reward: nat,
    pub reward_timelock: nat,
    pub asset: AssetView,
    pub status: Status,
}

/// One movement of funds out of an escrow's custody, as a mathematical value.
pub struct PayoutView {
    pub to: Seq<u8>,
    pub amount: nat,
}

/// The sum of the amounts of a list of payouts.
pub open spec fn total_paid(payouts: Seq<PayoutView>) -> nat
    decreases payouts.len(),
{
    if payouts.len() == 0 {
        0
    } else {
        payouts[0].amount + total_paid(payouts.drop_first())
    }
}

impl HtlcView {
    /// What holds of every record: the principal is not zero, principal and
    /// reward together fit the machine's 64-bit amounts, a reward can be
    /// earned only from an instant before the timelock, the secret is unset
    /// until redemption, and only an escrow with a hashlock was redeemed.
    pub open spec fn wf(self) -> bool {
        &&& self.amount > 0
        &&& self.amount + self.reward <= u64::MAX
        &&& self.reward > 0 ==> self.reward_timelock < self.timelock
        &&& self.status != Status::Redeemed ==> self.secret == zero_bytes()
        &&& self.status == Status::Redeemed ==> self.hashlock != zero_bytes()
    }

    /// Everything in the escrow's custody: principal and reward.
    pub open spec fn pool(self) -> nat {
        self.amount + self.reward
    }
}

/// The timelock rule: strictly after `now`, and at least `min_horizon` ahead
/// of it.
pub open spec fn timelock_ok(timelock: nat, now: nat, min_horizon: nat) -> bool {
    timelock > now && timelock >= now + min_horizon
}

/// Why a creation is rejected, if it is.
pub open spec fn creation_rejection(amount: nat, timelock: nat, now: nat, min_horizon: nat) -> Option<
    HTLCError,
> {
    if !timelock_ok(timelock, now, min_horizon) {
        Some(HTLCError::InvalidTimeLock)
    } else if amount == 0 {
        Some(HTLCError::FundsNotSent)
    } else {
        None
    }
}

/// The record that an accepted creation makes: active, with no secret and
/// no reward, and with the hashlock given (all zero for a commitment whose
/// hashlock comes later).
pub open spec fn creation_result(
    id: Seq<u8>,
    sender: Seq<u8>,
    src_receiver: Seq<u8>,
    hashlock: Seq<u8>,
    timelock: nat,
    amount: nat,
    dst_chain: Seq<char>,
    dst_asset: Seq<char>,
    dst_address: Seq<char>,
    src_asset: Seq<char>,
    asset: AssetView,
) -> HtlcView {
    HtlcView {
        id,
        dst_address,
        dst_chain,
        dst_asset,
        src_asset,
        sender,
        src_receiver,
        hashlock,
        secret: zero_bytes(),
        amount,
        timelock,
        reward: 0,
        reward_timelock: 0,
        asset,
        status: Status::Active,
    }
}

/// Why `add_lock` is rejected, if it is.
///
/// A timelock that is valid by itself is still invalid for an escrow that
/// holds a reward unless it is after the reward timelock: the reward must
/// stay earnable before a refund is. And the hashlock offered must not be
/// all zero, which stands for "not set": attaching it would attach nothing,
/// so it is reported as a hashlock that is not set. These two tests come
/// after all the others.
pub open spec fn add_lock_rejection(
    m: HtlcView,
    caller: Seq<u8>,
    hashlock: Seq<u8>,
    timelock: nat,
    now: nat,
    min_horizon: nat,
) -> Option<HTLCError> {
    if m.status != Status::Active {
        Some(HTLCError::AlreadyClaimed)
    } else if caller != m.sender {
        Some(HTLCError::UnauthorizedAccess)
    } else if m.hashlock != zero_bytes() {
        Some(HTLCError::HashlockAlreadySet)
    } else if timelock <= now {
        Some(HTLCError::NotFutureTimeLock)
    } else if timelock < now + min_horizon {
        Some(HTLCError::InvalidTimeLock)
    } else if m.reward > 0 && timelock <= m.reward_timelock {
        Some(HTLCError::InvalidTimeLock)
    } else if hashlock == zero_bytes() {
        Some(HTLCError::HashlockNotSet)
    } else {
        None
    }
}

/// The record after an accepted `add_lock`.
pub open spec fn add_lock_result(m: HtlcView, hashlock: Seq<u8>, timelock: nat) -> HtlcView {
    HtlcView { hashlock, timelock, ..m }
}

/// Why `lock_reward` is rejected, if it is.
///
/// A reward is attached once: an escrow that holds one rejects another.
/// That test comes last, so an invalid reward timelock is named as such
/// whether or not a reward is held.
pub open spec fn lock_reward_rejection(
    m: HtlcView,
    caller: Seq<u8>,
    reward_timelock: nat,
    now: nat,
) -> Option<HTLCError> {
    if m.status != Status::Active {
        Some(HTLCError::AlreadyClaimed)
    } else if caller != m.sender {
        Some(HTLCError::UnauthorizedAccess)
    } else if !(reward_timelock < m.timelock && reward_timelock > now) {
        Some(HTLCError::InvalidRewardTimeLock)
    } else if m.reward != 0 {
        Some(HTLCError::RewardAlreadySet)
    } else {
        None
    }
}

/// The record after an accepted `lock_reward`.
pub open spec fn lock_reward_result(m: HtlcView, reward_timelock: nat, reward: nat) -> HtlcView {
    HtlcView { reward, reward_timelock, ..m }
}

/// Why a redemption is rejected, if it is, given the digest of the secret
/// offered.
pub open spec fn redeem_rejection(m: HtlcView, digest: Seq<u8>) -> Option<HTLCError> {
    if m.status != Status::Active {
        Some(HTLCError::AlreadyClaimed)
    } else if m.hashlock == zero_bytes() {
        Some(HTLCError::HashlockNotSet)
    } else if digest != m.hashlock {
        Some(HTLCError::HashlockNoMatch)
    } else {
        None
    }
}

/// The record after an accepted redemption.
pub open spec fn redeem_result(m: HtlcView, secret: Seq<u8>) -> HtlcView {
    HtlcView { status: Status::Redeemed, secret, ..m }
}

/// Whom an accepted redemption pays, in the order the payments are made.
///
/// Without a reward the receiver gets the principal. Before the reward
/// timelock the reward goes back to the sender, whoever redeems. From the
/// reward timelock on, the receiver keeps the reward if it redeems itself,
/// and otherwise the caller earns it.
pub open spec fn redeem_payouts(m: HtlcView, caller: Seq<u8>, now: nat) -> Seq<PayoutView> {
    if m.reward == 0 {
        seq![PayoutView { to: m.src_receiver, amount: m.amount }]
    } else if now < m.reward_timelock {
        seq![
            PayoutView { to: m.src_receiver, amount: m.amount },
            PayoutView { to: m.sender, amount: m.reward },
        ]
    } else if caller == m.src_receiver {
        seq![PayoutView { to: m.src_receiver, amount: m.pool() }]
    } else {
        seq![
            PayoutView { to: m.src_receiver, amount: m.amount },
            PayoutView { to: caller, amount: m.reward },
        ]
    }
}

/// Why a refund is rejected, if it is.
pub open spec fn refund_rejection(m: HtlcView, caller: Seq<u8>, now: nat) -> Option<HTLCError> {
    if m.status != Status::Active {
        Some(HTLCError::AlreadyClaimed)
    } else if caller != m.sender {
        Some(HTLCError::UnauthorizedAccess)
    } else if now < m.timelock {
        Some(HTLCError::NotPastTimeLock)
    } else {
        None
    }
}

/// The record after an accepted refund.
pub open spec fn refund_result(m: HtlcView) -> HtlcView {
    HtlcView { status: Status::Refunded, ..m }
}

/// Whom an accepted refund pays: the sender, everything in custody, at once.
pub open spec fn refund_payouts(m: HtlcView) -> Seq<PayoutView> {
    seq![PayoutView { to: m.sender, amount: m.pool() }]
}

} // verus!
