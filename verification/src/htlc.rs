//! The escrow record and the operations that act on one record.

use crate::bytes::is_zero;
use crate::bytes::same_bytes;
use crate::bytes::zeroed;
use crate::digest::sha256;
use crate::digest::sha256_digest;
use crate::error::HTLCError;
use crate::model::add_lock_rejection;
use crate::model::add_lock_result;
use crate::model::creation_rejection;
use crate::model::creation_result;
use crate::model::lock_reward_rejection;
use crate::model::lock_reward_result;
use crate::model::redeem_payouts;
use crate::model::redeem_rejection;
use crate::model::redeem_result;
use crate::model::refund_payouts;
use crate::model::refund_rejection;
use crate::model::refund_result;
use crate::model::timelock_ok;
use crate::model::AssetView;
use crate::model::HtlcView;
use crate::payout::payouts_view;
use crate::payout::transfer_htlc_out;
use crate::payout::transfer_htlc_reward_out;
use crate::payout::Payout;
use crate::status::Status;
use vstd::prelude::*;

verus! {

/// The asset an escrow holds: the ledger's native asset, or a fungible token
/// named by its ledger identity and held in a custody slot of its own. The
/// two identities are recorded as given and never interpreted.
#[derive(Clone, Copy, Debug, PartialEq, Eq)]
pub enum Asset {
    Native,
    Token { token_contract: [u8; 32], token_wallet: [u8; 32] },
}

impl View for Asset {
    type V = AssetView;

    open spec fn view(&self) -> AssetView {
        match *self {
            Asset::Native => AssetView::Native,
            Asset::Token { token_contract, token_wallet } => AssetView::Token {
                token_contract: token_contract@,
                token_wallet: token_wallet@,
            },
        }
    }
}

/// One escrow: who funded it, who may redeem it, under which hashlock and
/// until when, and what has become of it.
#[derive(Debug, PartialEq, Eq)]
pub struct HTLC {
    /// The swap identifier, chosen by the creator.
    pub id: [u8; 32],
    /// The address that receives funds on the destination side.
    pub dst_address: String,
    /// The chain on which funds are received.
    pub dst_chain: String,
    /// The asset that is received.
    pub dst_asset: String,
    /// The asset that is sent.
    pub src_asset: String,
    /// The party that funded the escrow.
    pub sender: [u8; 32],
    /// The party entitled to redeem.
    pub src_receiver: [u8; 32],
    /// The digest a secret must hash to; all zero while not yet set.
    pub hashlock: [u8; 32],
    /// The secret that redeemed the escrow; all zero until then.
    pub secret: [u8; 32],
    /// The principal held in custody.
    pub amount: u64,
    /// The instant from which a refund is permitted.
    pub timelock: u64,
    /// The bonus for completing redemption on the receiver's behalf.
    pub reward: u64,
    /// The instant from which the reward can be earned.
    pub reward_timelock: u64,
    /// The asset held.
    pub asset: Asset,
    /// Whether the escrow is still open, and how it was closed if not.
    pub status: Status,
}

impl View for HTLC {
    type V = HtlcView;

    open spec fn view(&self) -> HtlcView {
        HtlcView {
            id: self.id@,
            dst_address: self.dst_address@,
            dst_chain: self.dst_chain@,
            dst_asset: self.dst_asset@,
            src_asset: self.src_asset@,
            sender: self.sender@,
            src_receiver: self.src_receiver@,
            hashlock: self.hashlock@,
            secret: self.secret@,
            amount: self.amount as nat,
            timelock: self.timelock as nat,
            reward: self.reward as nat,
            reward_timelock: self.reward_timelock as nat,
            asset: self.asset@,
            status: self.status,
        }
    }
}

/// The minimum horizon customary for escrows of the native asset: none
/// beyond a timelock that is strictly in the future.
pub const NATIVE_MIN_HORIZON: u64 = 0;

/// The minimum horizon customary for escrows of a token.
pub const TOKEN_MIN_HORIZON: u64 = 900;

/// Tells whether a timelock is strictly after `now` and at least
/// `min_horizon` ahead of it.
pub fn timelock_is_valid(timelock: u64, now: u64, min_horizon: u64) -> (ok: bool)
    ensures
        ok == timelock_ok(timelock as nat, now as nat, min_horizon as nat),
{
    timelock > now && timelock - now >= min_horizon
}

impl Clone for HTLC {
    /// Copies the record, field by field.
    fn clone(&self) -> (copy: Self)
        ensures
            copy == *self,
    {
        HTLC {
            id: self.id,
            dst_address: self.dst_address.clone(),
            dst_chain: self.dst_chain.clone(),
            dst_asset: self.dst_asset.clone(),
            src_asset: self.src_asset.clone(),
            sender: self.sender,
            src_receiver: self.src_receiver,
            hashlock: self.hashlock,
            secret: self.secret,
            amount: self.amount,
            timelock: self.timelock,
            reward: self.reward,
            reward_timelock: self.reward_timelock,
            asset: self.asset,
            status: self.status,
        }
    }
}

impl HTLC {
    /// Whether the record is well formed: see `HtlcView::wf`.
    pub open spec fn wf(&self) -> bool {
        self@.wf()
    }

    /// Tells whether the record is well formed.
    pub fn is_wf(&self) -> (ok: bool)
        ensures
            ok == self.wf(),
    {
        let redeemed = self.status == Status::Redeemed;
        self.amount > 0 && self.reward <= u64::MAX - self.amount && (self.reward == 0
            || self.reward_timelock < self.timelock) && (redeemed || is_zero(&self.secret)) && (
        !redeemed || !is_zero(&self.hashlock))
    }

    /// Creates the record of a new escrow.
    ///
    /// The creation is accepted exactly when the timelock is valid (see
    /// `timelock_ok`) and the amount is not zero; an invalid timelock is
    /// reported before a zero amount. The record starts active, without
    /// secret or reward. A `hashlock` of all zero makes a commitment whose
    /// hashlock is attached later.
    pub fn create(
        id: [u8; 32],
        sender: [u8; 32],
        src_receiver: [u8; 32],
        hashlock: [u8; 32],
        timelock: u64,
        amount: u64,
        dst_chain: String,
        dst_asset: String,
        dst_address: String,
        src_asset: String,
        asset: Asset,
        now: u64,
        min_horizon: u64,
    ) -> (outcome: Result<HTLC, HTLCError>)
        ensures
            match outcome {
                Ok(htlc) => {
                    &&& creation_rejection(
                        amount as nat,
                        timelock as nat,
                        now as nat,
                        min_horizon as nat,
                    ) is None
                    &&& htlc@ == creation_result(
                        id@,
                        sender@,
                        src_receiver@,
                        hashlock@,
                        timelock as nat,
                        amount as nat,
                        dst_chain@,
                        dst_asset@,
                        dst_address@,
                        src_asset@,
                        asset@,
                    )
                    &&& htlc.wf()
                },
                Err(e) => creation_rejection(
                    amount as nat,
                    timelock as nat,
                    now as nat,
                    min_horizon as nat,
                ) == Some(e),
            },
    {
        if !timelock_is_valid(timelock, now, min_horizon) {
            return Err(HTLCError::InvalidTimeLock);
        }
        if amount == 0 {
            return Err(HTLCError::FundsNotSent);
        }
        Ok(
            HTLC {
                id,
                dst_address,
                dst_chain,
                dst_asset,
                src_asset,
                sender,
                src_receiver,
                hashlock,
                secret: zeroed(),
                amount,
                timelock,
                reward: 0,
                reward_timelock: 0,
                asset,
                status: Status::Active,
            },
        )
    }

    /// Attaches a hashlock, and a new timelock, to an escrow that has none.
    ///
    /// Accepted exactly when the escrow is active, the caller is its sender,
    /// no hashlock is set yet, the new timelock is strictly after `now` and
    /// at least `min_horizon` ahead of it, the new timelock is after the
    /// reward timelock if the escrow holds a reward, and the hashlock
    /// offered is not all zero. The first of these that fails names the
    /// rejection; the last two are reported as an invalid timelock and as a
    /// hashlock that is not set. A rejected call changes nothing, so an
    /// accepted one always leaves the escrow with a hashlock.
    pub fn add_lock(
        &mut self,
        caller: &[u8; 32],
        hashlock: [u8; 32],
        timelock: u64,
        now: u64,
        min_horizon: u64,
    ) -> (outcome: Result<(), HTLCError>)
        requires
            old(self).wf(),
        ensures
            match outcome {
                Ok(_) => {
                    &&& add_lock_rejection(
                        old(self)@,
                        caller@,
                        hashlock@,
                        timelock as nat,
                        now as nat,
                        min_horizon as nat,
                    ) is None
                    &&& final(self)@ == add_lock_result(old(self)@, hashlock@, timelock as nat)
                },
                Err(e) => add_lock_rejection(
                    old(self)@,
                    caller@,
                    hashlock@,
                    timelock as nat,
                    now as nat,
                    min_horizon as nat,
                ) == Some(e) && *final(self) == *old(self),
            },
            final(self).wf(),
    {
        if self.status != Status::Active {
            return Err(HTLCError::AlreadyClaimed);
        }
        if !same_bytes(caller, &self.sender) {
            return Err(HTLCError::UnauthorizedAccess);
        }
        if !is_zero(&self.hashlock) {
            return Err(HTLCError::HashlockAlreadySet);
        }
        if timelock <= now {
            return Err(HTLCError::NotFutureTimeLock);
        }
        if timelock - now < min_horizon {
            return Err(HTLCError::InvalidTimeLock);
        }
        if self.reward > 0 && timelock <= self.reward_timelock {
            return Err(HTLCError::InvalidTimeLock);
        }
        if is_zero(&hashlock) {
            return Err(HTLCError::HashlockNotSet);
        }
        self.hashlock = hashlock;
        self.timelock = timelock;
        Ok(())
    }

    /// Tells why `lock_reward` would be rejected now, if it would: the
    /// escrow is not active, the caller is not its sender, the reward
    /// timelock is not before the timelock and strictly after `now`, or the
    /// escrow holds a reward already. The first of these that fails names
    /// the rejection.
    pub fn check_lock_reward(&self, caller: &[u8; 32], reward_timelock: u64, now: u64) -> (rejection:
        Option<HTLCError>)
        ensures
            rejection == lock_reward_rejection(
                self@,
                caller@,
                reward_timelock as nat,
                now as nat,
            ),
    {
        if self.status != Status::Active {
            Some(HTLCError::AlreadyClaimed)
        } else if !same_bytes(caller, &self.sender) {
            Some(HTLCError::UnauthorizedAccess)
        } else if !(reward_timelock < self.timelock && reward_timelock > now) {
            Some(HTLCError::InvalidRewardTimeLock)
        } else if self.reward != 0 {
            Some(HTLCError::RewardAlreadySet)
        } else {
            None
        }
    }

    /// Attaches a reward, and the instant from which it can be earned.
    ///
    /// Accepted exactly when `check_lock_reward` finds no rejection: a
    /// reward is attached once, so an escrow that holds one rejects another.
    /// A rejected call changes nothing.
    ///
    /// Principal and reward together must fit a 64-bit amount: no custody
    /// can hold more.
    pub fn lock_reward(
        &mut self,
        caller: &[u8; 32],
        reward_timelock: u64,
        reward: u64,
        now: u64,
    ) -> (outcome: Result<(), HTLCError>)
        requires
            old(self).wf(),
            old(self).amount + reward <= u64::MAX,
        ensures
            match outcome {
                Ok(_) => {
                    &&& lock_reward_rejection(
                        old(self)@,
                        caller@,
                        reward_timelock as nat,
                        now as nat,
                    ) is None
                    &&& final(self)@ == lock_reward_result(
                        old(self)@,
                        reward_timelock as nat,
                        reward as nat,
                    )
                },
                Err(e) => lock_reward_rejection(
                    old(self)@,
                    caller@,
                    reward_timelock as nat,
                    now as nat,
                ) == Some(e) && *final(self) == *old(self),
            },
            final(self).wf(),
    {
        if let Some(e) = self.check_lock_reward(caller, reward_timelock, now) {
            return Err(e);
        }
        self.reward_timelock = reward_timelock;
        self.reward = reward;
        Ok(())
    }

    /// Refunds the escrow to its sender.
    ///
    /// Accepted exactly when the escrow is active, the caller is its sender,
    /// and the timelock has passed (`now` is not before it); the first of
    /// these that fails names the rejection. An accepted refund closes the
    /// escrow as refunded and orders one payout, of principal and reward
    /// together, to the sender. A rejected refund changes nothing.
    pub fn refund(&mut self, caller: &[u8; 32], now: u64) -> (outcome: Result<
        Vec<Payout>,
        HTLCError,
    >)
        requires
            old(self).wf(),
        ensures
            match outcome {
                Ok(payouts) => {
                    &&& refund_rejection(old(self)@, caller@, now as nat) is None
                    &&& final(self)@ == refund_result(old(self)@)
                    &&& payouts_view(payouts@) == refund_payouts(old(self)@)
                },
                Err(e) => refund_rejection(old(self)@, caller@, now as nat) == Some(e)
                    && *final(self) == *old(self),
            },
            final(self).wf(),
    {
        if self.status != Status::Active {
            return Err(HTLCError::AlreadyClaimed);
        }
        if !same_bytes(caller, &self.sender) {
            return Err(HTLCError::UnauthorizedAccess);
        }
        if now < self.timelock {
            return Err(HTLCError::NotPastTimeLock);
        }
        self.status = Status::Refunded;
        Ok(transfer_htlc_out(self.sender, self.amount + self.reward))
    }

    /// Redeems the escrow with a secret whose digest the caller supplies.
    ///
    /// The redemption is accepted exactly when the escrow is active, has a
    /// hashlock, and `digest` equals it. It then records the secret, closes
    /// the escrow as redeemed and orders the payouts of `redeem_payouts`.
    /// A rejected redemption changes nothing.
    pub fn redeem_with_digest(
        &mut self,
        caller: &[u8; 32],
        secret: [u8; 32],
        digest: &[u8; 32],
        now: u64,
    ) -> (outcome: Result<Vec<Payout>, HTLCError>)
        requires
            old(self).wf(),
        ensures
            match outcome {
                Ok(payouts) => {
                    &&& redeem_rejection(old(self)@, digest@) is None
                    &&& final(self)@ == redeem_result(old(self)@, secret@)
                    &&& payouts_view(payouts@) == redeem_payouts(
                        old(self)@,
                        caller@,
                        now as nat,
                    )
                },
                Err(e) => redeem_rejection(old(self)@, digest@) == Some(e) && *final(self) == *old(
                    self,
                ),
            },
            final(self).wf(),
    {
        if self.status != Status::Active {
            return Err(HTLCError::AlreadyClaimed);
        }
        if is_zero(&self.hashlock) {
            return Err(HTLCError::HashlockNotSet);
        }
        if !same_bytes(digest, &self.hashlock) {
            return Err(HTLCError::HashlockNoMatch);
        }
        self.status = Status::Redeemed;
        self.secret = secret;

        let amount = self.amount;
        let reward = self.reward;
        let payouts = if reward != 0 {
            if self.reward_timelock > now {
                transfer_htlc_reward_out(self.src_receiver, self.sender, amount, reward)
            } else if same_bytes(caller, &self.src_receiver) {
                transfer_htlc_out(self.src_receiver, amount + reward)
            } else {
                transfer_htlc_reward_out(self.src_receiver, *caller, amount, reward)
            }
        } else {
            transfer_htlc_out(self.src_receiver, amount)
        };
        Ok(payouts)
    }

    /// Redeems the escrow with a secret.
    ///
    /// Hashes the secret with SHA-256 and proceeds as `redeem_with_digest`
    /// does with that digest: the redemption is accepted exactly when the
    /// escrow is active, has a hashlock, and the secret hashes to it.
    pub fn redeem(&mut self, caller: &[u8; 32], secret: [u8; 32], now: u64) -> (outcome: Result<
        Vec<Payout>,
        HTLCError,
    >)
        requires
            old(self).wf(),
        ensures
            match outcome {
                Ok(payouts) => {
                    &&& redeem_rejection(old(self)@, sha256_digest(secret@)) is None
                    &&& final(self)@ == redeem_result(old(self)@, secret@)
                    &&& payouts_view(payouts@) == redeem_payouts(
                        old(self)@,
                        caller@,
                        now as nat,
                    )
                },
                Err(e) => redeem_rejection(old(self)@, sha256_digest(secret@)) == Some(e)
                    && *final(self) == *old(self),
            },
            final(self).wf(),
    {
        let digest = sha256(&secret);
        self.redeem_with_digest(caller, secret, &digest, now)
    }
}

} // verus!
