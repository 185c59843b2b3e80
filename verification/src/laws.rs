//! The laws of the protocol, proved of the state machine of `model`.
//!
//! Each law is a proof function: its parameters are the values the law
//! speaks of, and its `ensures` is the law.

use crate::bytes::zero_bytes;
use crate::digest::sha256_digest;
use crate::error::HTLCError;
use crate::model::add_lock_rejection;
use crate::model::add_lock_result;
use crate::model::creation_rejection;
use crate::model::creation_result;
use crate::model::lock_reward_rejection;
use crate::model::lock_reward_result;
use crate::model::redeem_payouts;
use crate::model::redeem_rejection;
use crate::model::redeem_result;
use crate::model::refund_payouts;
use crate::model::refund_rejection;
use crate::model::refund_result;
use crate::model::timelock_ok;
use crate::model::total_paid;
use crate::model::AssetView;
use crate::model::HtlcView;
use crate::model::PayoutView;
use crate::status::Status;
use vstd::prelude::*;

verus! {

/// A creation is accepted exactly when the amount is not zero and the
/// timelock is strictly in the future and at least the minimum horizon
/// ahead. The record it makes is well formed, active, holds that amount and
/// that timelock, and has neither secret nor reward.
pub proof fn law_creation(
    id: Seq<u8>,
    sender: Seq<u8>,
    src_receiver: Seq<u8>,
    hashlock: Seq<u8>,
    timelock: nat,
    amount: nat,
    dst_chain: Seq<char>,
    dst_asset: Seq<char>,
    dst_address: Seq<char>,
    src_asset: Seq<char>,
    asset: AssetView,
    now: nat,
    min_horizon: nat,
)
    requires
        amount <= u64::MAX,
    ensures
        creation_rejection(amount, timelock, now, min_horizon) is None <==> amount > 0 && timelock
            > now && timelock >= now + min_horizon,
        creation_rejection(amount, timelock, now, min_horizon) is None ==> ({
            let m = creation_result(
                id,
                sender,
                src_receiver,
                hashlock,
                timelock,
                amount,
                dst_chain,
                dst_asset,
                dst_address,
                src_asset,
                asset,
            );
            &&& m.wf()
            &&& m.status == Status::Active
            &&& m.amount > 0
            &&& m.timelock > now
            &&& m.reward == 0
            &&& m.secret == zero_bytes()
        }),
{
}

/// An active escrow is redeemed by a secret exactly when it has a hashlock
/// and the secret's SHA-256 digest equals it. On an active escrow with a
/// hashlock every other secret is rejected as not matching.
pub proof fn law_redeem_needs_the_preimage(m: HtlcView, secret: Seq<u8>)
    requires
        m.status == Status::Active,
    ensures
        redeem_rejection(m, sha256_digest(secret)) is None <==> sha256_digest(secret) == m.hashlock
            && m.hashlock != zero_bytes(),
        m.hashlock != zero_bytes() && sha256_digest(secret) != m.hashlock ==> redeem_rejection(
            m,
            sha256_digest(secret),
        ) == Some(HTLCError::HashlockNoMatch),
        m.hashlock == zero_bytes() ==> redeem_rejection(m, sha256_digest(secret)) == Some(
            HTLCError::HashlockNotSet,
        ),
        redeem_rejection(m, sha256_digest(secret)) is None ==> redeem_result(m, secret).secret
            == secret && sha256_digest(redeem_result(m, secret).secret) == redeem_result(
            m,
            secret,
        ).hashlock,
{
}

/// An accepted operation leaves the status alone or closes an active
/// escrow: attaching a hashlock or a reward keeps it active, a redemption
/// makes it redeemed, a refund makes it refunded.
pub proof fn law_status_moves_forward(
    m: HtlcView,
    hashlock: Seq<u8>,
    timelock: nat,
    reward_timelock: nat,
    reward: nat,
    secret: Seq<u8>,
)
    ensures
        add_lock_result(m, hashlock, timelock).status == m.status,
        lock_reward_result(m, reward_timelock, reward).status == m.status,
        redeem_result(m, secret).status == Status::Redeemed,
        refund_result(m).status == Status::Refunded,
{
}

/// Once an escrow is redeemed or refunded, every operation on it is
/// rejected as already claimed, whoever calls, whenever, with whatever
/// arguments.
pub proof fn law_closed_is_final(
    m: HtlcView,
    caller: Seq<u8>,
    digest: Seq<u8>,
    hashlock: Seq<u8>,
    timelock: nat,
    reward_timelock: nat,
    now: nat,
    min_horizon: nat,
)
    requires
        m.status != Status::Active,
    ensures
        redeem_rejection(m, digest) == Some(HTLCError::AlreadyClaimed),
        refund_rejection(m, caller, now) == Some(HTLCError::AlreadyClaimed),
        add_lock_rejection(m, caller, hashlock, timelock, now, min_horizon) == Some(
            HTLCError::AlreadyClaimed,
        ),
        lock_reward_rejection(m, caller, reward_timelock, now) == Some(HTLCError::AlreadyClaimed),
{
}

/// What a redemption pays out sums to principal plus reward, whoever calls
/// and whenever; so does what a refund pays out.
pub proof fn law_conservation(m: HtlcView, caller: Seq<u8>, now: nat)
    ensures
        total_paid(redeem_payouts(m, caller, now)) == m.pool(),
        total_paid(refund_payouts(m)) == m.pool(),
        m.pool() == m.amount + m.reward,
{
    lemma_total_of_one(PayoutView { to: m.src_receiver, amount: m.amount });
    lemma_total_of_one(PayoutView { to: m.src_receiver, amount: m.amount + m.reward });
    lemma_total_of_one(PayoutView { to: m.sender, amount: m.amount + m.reward });
    lemma_total_of_two(
        PayoutView { to: m.src_receiver, amount: m.amount },
        PayoutView { to: m.sender, amount: m.reward },
    );
    lemma_total_of_two(
        PayoutView { to: m.src_receiver, amount: m.amount },
        PayoutView { to: caller, amount: m.reward },
    );
}

/// An escrow pays out once: after an accepted redemption or refund, every
/// further redemption and refund is rejected.
pub proof fn law_paid_once(
    m: HtlcView,
    secret: Seq<u8>,
    caller: Seq<u8>,
    digest: Seq<u8>,
    now: nat,
)
    ensures
        redeem_rejection(redeem_result(m, secret), digest) == Some(HTLCError::AlreadyClaimed),
        refund_rejection(redeem_result(m, secret), caller, now) == Some(
            HTLCError::AlreadyClaimed,
        ),
        redeem_rejection(refund_result(m), digest) == Some(HTLCError::AlreadyClaimed),
        refund_rejection(refund_result(m), caller, now) == Some(HTLCError::AlreadyClaimed),
{
}

/// A hashlock is attached exactly once. An escrow that has a hashlock
/// rejects `add_lock`, and says that the hashlock is already set when it is
/// active and its sender calls. An active escrow without hashlock accepts
/// its sender's `add_lock` with a hashlock that is not all zero and a valid
/// timelock that is after the reward timelock of any reward held. An
/// accepted `add_lock` leaves the escrow with the hashlock offered, which is
/// not all zero, so every further `add_lock` is rejected, and as a hashlock
/// already set when the escrow is still active and its sender calls.
pub proof fn law_hashlock_set_once(
    m: HtlcView,
    caller: Seq<u8>,
    hashlock: Seq<u8>,
    timelock: nat,
    now: nat,
    min_horizon: nat,
    later_caller: Seq<u8>,
    later_hashlock: Seq<u8>,
    later_timelock: nat,
    later_now: nat,
)
    ensures
        m.hashlock != zero_bytes() ==> add_lock_rejection(
            m,
            caller,
            hashlock,
            timelock,
            now,
            min_horizon,
        ) is Some,
        m.hashlock != zero_bytes() && m.status == Status::Active && caller == m.sender
            ==> add_lock_rejection(m, caller, hashlock, timelock, now, min_horizon) == Some(
            HTLCError::HashlockAlreadySet,
        ),
        m.hashlock == zero_bytes() && m.status == Status::Active && caller == m.sender
            && timelock_ok(timelock, now, min_horizon) && (m.reward > 0 ==> timelock
            > m.reward_timelock) && hashlock != zero_bytes() ==> add_lock_rejection(
            m,
            caller,
            hashlock,
            timelock,
            now,
            min_horizon,
        ) is None,
        add_lock_rejection(m, caller, hashlock, timelock, now, min_horizon) is None ==> ({
            let next = add_lock_result(m, hashlock, timelock);
            &&& m.hashlock == zero_bytes()
            &&& next.hashlock == hashlock
            &&& next.hashlock != zero_bytes()
            &&& add_lock_rejection(
                next,
                later_caller,
                later_hashlock,
                later_timelock,
                later_now,
                min_horizon,
            ) is Some
            &&& later_caller == m.sender ==> add_lock_rejection(
                next,
                later_caller,
                later_hashlock,
                later_timelock,
                later_now,
                min_horizon,
            ) == Some(HTLCError::HashlockAlreadySet)
        }),
{
}

/// The all-zero hashlock stands for "not set", and `add_lock` never
/// attaches it: offered to an active escrow without hashlock, by its
/// sender and with a timelock that passes every test, it is rejected as a
/// hashlock that is not set.
pub proof fn law_zero_hashlock_is_refused(
    m: HtlcView,
    caller: Seq<u8>,
    timelock: nat,
    now: nat,
    min_horizon: nat,
)
    ensures
        add_lock_rejection(m, caller, zero_bytes(), timelock, now, min_horizon) is Some,
        m.hashlock == zero_bytes() && m.status == Status::Active && caller == m.sender
            && timelock_ok(timelock, now, min_horizon) && (m.reward > 0 ==> timelock
            > m.reward_timelock) ==> add_lock_rejection(
            m,
            caller,
            zero_bytes(),
            timelock,
            now,
            min_horizon,
        ) == Some(HTLCError::HashlockNotSet),
{
}

/// A reward is accepted only with a reward timelock that is before the
/// escrow's timelock and strictly in the future. When the sender of an
/// active escrow offers any other, the call is rejected as an invalid
/// reward timelock, whether or not the escrow holds a reward. An accepted
/// call records both values as given.
pub proof fn law_reward_timelock(
    m: HtlcView,
    caller: Seq<u8>,
    reward_timelock: nat,
    reward: nat,
    now: nat,
)
    ensures
        lock_reward_rejection(m, caller, reward_timelock, now) is None ==> reward_timelock
            < m.timelock && reward_timelock > now,
        m.status == Status::Active && caller == m.sender && !(reward_timelock < m.timelock
            && reward_timelock > now) ==> lock_reward_rejection(m, caller, reward_timelock, now)
            == Some(HTLCError::InvalidRewardTimeLock),
        lock_reward_rejection(m, caller, reward_timelock, now) is None ==> ({
            let next = lock_reward_result(m, reward_timelock, reward);
            next.reward == reward && next.reward_timelock == reward_timelock
        }),
{
}

/// A reward is attached at most once. An escrow that holds a reward rejects
/// `lock_reward`, and says that the reward is already set when it is
/// active, its sender calls and the reward timelock offered is valid. After
/// an accepted `lock_reward` with a reward that is not zero, every further
/// `lock_reward` is rejected, so what was deposited as reward is what the
/// record holds.
pub proof fn law_reward_set_once(
    m: HtlcView,
    caller: Seq<u8>,
    reward_timelock: nat,
    reward: nat,
    now: nat,
    later_caller: Seq<u8>,
    later_reward_timelock: nat,
    later_now: nat,
)
    ensures
        m.reward != 0 ==> lock_reward_rejection(m, caller, reward_timelock, now) is Some,
        m.reward != 0 && m.status == Status::Active && caller == m.sender && reward_timelock
            < m.timelock && reward_timelock > now ==> lock_reward_rejection(
            m,
            caller,
            reward_timelock,
            now,
        ) == Some(HTLCError::RewardAlreadySet),
        lock_reward_rejection(m, caller, reward_timelock, now) is None ==> m.reward == 0,
        lock_reward_rejection(m, caller, reward_timelock, now) is None && reward > 0
            ==> lock_reward_rejection(
            lock_reward_result(m, reward_timelock, reward),
            later_caller,
            later_reward_timelock,
            later_now,
        ) is Some,
{
}

/// While an escrow holds a reward, its reward timelock is before its
/// timelock: an accepted `lock_reward` attaches the reward that way, and
/// an accepted `add_lock` on a well-formed record keeps it so.
pub proof fn law_reward_window(
    m: HtlcView,
    caller: Seq<u8>,
    hashlock: Seq<u8>,
    timelock: nat,
    reward_timelock: nat,
    reward: nat,
    now: nat,
    min_horizon: nat,
)
    ensures
        lock_reward_rejection(m, caller, reward_timelock, now) is None ==> ({
            let next = lock_reward_result(m, reward_timelock, reward);
            next.reward_timelock < next.timelock
        }),
        add_lock_rejection(m, caller, hashlock, timelock, now, min_horizon) is None ==> ({
            let next = add_lock_result(m, hashlock, timelock);
            next.reward > 0 ==> next.reward_timelock < next.timelock
        }),
        m.status == Status::Active && caller == m.sender && m.hashlock == zero_bytes()
            && m.reward > 0 && timelock_ok(timelock, now, min_horizon) && timelock
            <= m.reward_timelock ==> add_lock_rejection(
            m,
            caller,
            hashlock,
            timelock,
            now,
            min_horizon,
        ) == Some(HTLCError::InvalidTimeLock),
{
}

/// Every accepted operation keeps a well-formed record well formed: the
/// principal stays above zero, principal and reward fit a 64-bit amount,
/// a reward held can be earned before the timelock, and the secret is set
/// exactly by redemption. For a reward this needs principal and reward to
/// fit a 64-bit amount together.
pub proof fn law_well_formed_is_kept(
    m: HtlcView,
    caller: Seq<u8>,
    hashlock: Seq<u8>,
    timelock: nat,
    reward_timelock: nat,
    reward: nat,
    secret: Seq<u8>,
    digest: Seq<u8>,
    now: nat,
    min_horizon: nat,
)
    requires
        m.wf(),
    ensures
        add_lock_rejection(m, caller, hashlock, timelock, now, min_horizon) is None
            ==> add_lock_result(m, hashlock, timelock).wf(),
        lock_reward_rejection(m, caller, reward_timelock, now) is None && m.amount + reward
            <= u64::MAX ==> lock_reward_result(m, reward_timelock, reward).wf(),
        redeem_rejection(m, digest) is None ==> redeem_result(m, secret).wf(),
        refund_rejection(m, caller, now) is None ==> refund_result(m).wf(),
{
}

proof fn lemma_total_of_one(p: PayoutView)
    ensures
        total_paid(seq![p]) == p.amount,
{
    reveal_with_fuel(total_paid, 2);
    assert(seq![p].drop_first() =~= Seq::<PayoutView>::empty());
}

proof fn lemma_total_of_two(p: PayoutView, q: PayoutView)
    ensures
        total_paid(seq![p, q]) == p.amount + q.amount,
{
    reveal_with_fuel(total_paid, 3);
    assert(seq![p, q].drop_first() =~= seq![q]);
    assert(seq![q].drop_first() =~= Seq::<PayoutView>::empty());
}

} // verus!
