//! The operations of the protocol, on the escrow store.
//!
//! Each operation reads the record of the identifier it names, decides, and
//! writes the record back. A rejected operation leaves the store as it was.
//! Funds are not moved here: an accepted `commit` or `lock` obliges the host
//! to take the amount into custody, an accepted `lock_reward` the reward,
//! and `redeem` and `refund` return the payouts the host is to make.

use crate::bytes::zero_bytes;
use crate::bytes::zeroed;
use crate::context::AddLock;
use crate::context::Commit;
use crate::context::GetDetails;
use crate::context::Lock;
use crate::context::LockReward;
use crate::context::Redeem;
use crate::context::Refund;
use crate::digest::sha256_digest;
use crate::error::EscrowError;
use crate::error::HTLCError;
use crate::htlc::HTLC;
use crate::model::add_lock_rejection;
use crate::model::add_lock_result;
use crate::model::creation_rejection;
use crate::model::creation_result;
use crate::model::lock_reward_rejection;
use crate::model::lock_reward_result;
use crate::model::redeem_payouts;
use crate::model::redeem_rejection;
use crate::model::redeem_result;
use crate::model::refund_payouts;
use crate::model::refund_rejection;
use crate::model::refund_result;
use crate::payout::payouts_view;
use crate::payout::Payout;
use crate::store::EscrowStore;
use vstd::prelude::*;

verus! {

/// How a creation fails, if it does: on an identifier that has a record
/// already, and else as the state machine rejects it.
pub open spec fn creation_failure(exists: bool, rejection: Option<HTLCError>) -> Option<
    EscrowError,
> {
    if exists {
        Some(EscrowError::AlreadyExists)
    } else {
        match rejection {
            Some(e) => Some(EscrowError::Rejected(e)),
            None => None,
        }
    }
}

/// How an operation on an existing escrow fails, if it does: on an
/// identifier that has no record, and else as the state machine rejects it.
pub open spec fn failure(exists: bool, rejection: Option<HTLCError>) -> Option<EscrowError> {
    if !exists {
        Some(EscrowError::NotFound)
    } else {
        match rejection {
            Some(e) => Some(EscrowError::Rejected(e)),
            None => None,
        }
    }
}

/// How `lock_reward` fails, if it does: as any operation on an existing
/// escrow does, and else when principal and reward together exceed a 64-bit
/// amount.
pub open spec fn lock_reward_failure(
    exists: bool,
    rejection: Option<HTLCError>,
    amount: nat,
    reward: nat,
) -> Option<EscrowError> {
    match failure(exists, rejection) {
        Some(e) => Some(e),
        None => if amount + reward > u64::MAX {
            Some(EscrowError::AmountOverflow)
        } else {
            None
        },
    }
}

/// Creates an escrow whose hashlock is attached later.
///
/// Accepted exactly when `id` has no record, the timelock is strictly in
/// the future and at least the store's minimum horizon ahead, and the amount
/// is not zero. The new record is active, with the caller as sender and
/// with no hashlock, secret or reward. Returns `id`. The routing hops are
/// opaque to the escrow and are not recorded.
pub fn commit(
    store: &mut EscrowStore,
    ctx: &Commit,
    id: [u8; 32],
    hop_chains: Vec<String>,
    hop_assets: Vec<String>,
    hop_addresses: Vec<String>,
    dst_chain: String,
    dst_asset: String,
    dst_address: String,
    src_asset: String,
    src_receiver: [u8; 32],
    timelock: u64,
    amount: u64,
) -> (outcome: Result<[u8; 32], EscrowError>)
    requires
        old(store).wf(),
    ensures
        final(store).wf(),
        final(store).spec_min_horizon() == old(store).spec_min_horizon(),
        match outcome {
            Ok(out) => {
                &&& out == id
                &&& creation_failure(
                    old(store)@.contains_key(id@),
                    creation_rejection(
                        amount as nat,
                        timelock as nat,
                        ctx.now as nat,
                        old(store).spec_min_horizon() as nat,
                    ),
                ) is None
                &&& final(store)@ == old(store)@.insert(
                    id@,
                    creation_result(
                        id@,
                        ctx.sender@,
                        src_receiver@,
                        zero_bytes(),
                        timelock as nat,
                        amount as nat,
                        dst_chain@,
                        dst_asset@,
                        dst_address@,
                        src_asset@,
                        ctx.asset@,
                    ),
                )
            },
            Err(e) => creation_failure(
                old(store)@.contains_key(id@),
                creation_rejection(
                    amount as nat,
                    timelock as nat,
                    ctx.now as nat,
                    old(store).spec_min_horizon() as nat,
                ),
            ) == Some(e) && final(store)@ == old(store)@,
        },
{
    if store.contains(&id) {
        return Err(EscrowError::AlreadyExists);
    }
    let created = HTLC::create(
        id,
        ctx.sender,
        src_receiver,
        zeroed(),
        timelock,
        amount,
        dst_chain,
        dst_asset,
        dst_address,
        src_asset,
        ctx.asset,
        ctx.now,
        store.min_horizon(),
    );
    match created {
        Ok(record) => match store.create(record) {
            Ok(_) => Ok(id),
            Err(e) => Err(e),
        },
        Err(e) => Err(EscrowError::Rejected(e)),
    }
}

/// Creates an escrow with its hashlock.
///
/// Accepted exactly when `id` has no record, the timelock is strictly in
/// the future and at least the store's minimum horizon ahead, and the amount
/// is not zero. The new record is active, with the caller as sender, the
/// hashlock as given, and no secret or reward. Returns `id`.
pub fn lock(
    store: &mut EscrowStore,
    ctx: &Lock,
    id: [u8; 32],
    hashlock: [u8; 32],
    timelock: u64,
    amount: u64,
    dst_chain: String,
    dst_address: String,
    dst_asset: String,
    src_asset: String,
    src_receiver: [u8; 32],
) -> (outcome: Result<[u8; 32], EscrowError>)
    requires
        old(store).wf(),
    ensures
        final(store).wf(),
        final(store).spec_min_horizon() == old(store).spec_min_horizon(),
        match outcome {
            Ok(out) => {
                &&& out == id
                &&& creation_failure(
                    old(store)@.contains_key(id@),
                    creation_rejection(
                        amount as nat,
                        timelock as nat,
                        ctx.now as nat,
                        old(store).spec_min_horizon() as nat,
                    ),
                ) is None
                &&& final(store)@ == old(store)@.insert(
                    id@,
                    creation_result(
                        id@,
                        ctx.sender@,
                        src_receiver@,
                        hashlock@,
                        timelock as nat,
                        amount as nat,
                        dst_chain@,
                        dst_asset@,
                        dst_address@,
                        src_asset@,
                        ctx.asset@,
                    ),
                )
            },
            Err(e) => creation_failure(
                old(store)@.contains_key(id@),
                creation_rejection(
                    amount as nat,
                    timelock as nat,
                    ctx.now as nat,
                    old(store).spec_min_horizon() as nat,
                ),
            ) == Some(e) && final(store)@ == old(store)@,
        },
{
    if store.contains(&id) {
        return Err(EscrowError::AlreadyExists);
    }
    let created = HTLC::create(
        id,
        ctx.sender,
        src_receiver,
        hashlock,
        timelock,
        amount,
        dst_chain,
        dst_asset,
        dst_address,
        src_asset,
        ctx.asset,
        ctx.now,
        store.min_horizon(),
    );
    match created {
        Ok(record) => match store.create(record) {
            Ok(_) => Ok(id),
            Err(e) => Err(e),
        },
        Err(e) => Err(EscrowError::Rejected(e)),
    }
}

/// Attaches a reward to an escrow, and the instant from which it can be
/// earned.
///
/// Accepted exactly when `id` has a record, the escrow is active, the
/// caller is its sender, the reward timelock is before the escrow's
/// timelock and strictly in the future, the escrow holds no reward yet, and
/// principal and reward together fit a 64-bit amount; the first of these
/// that fails names the failure. Returns `true`.
pub fn lock_reward(
    store: &mut EscrowStore,
    ctx: &LockReward,
    id: [u8; 32],
    reward_timelock: u64,
    reward: u64,
) -> (outcome: Result<bool, EscrowError>)
    requires
        old(store).wf(),
    ensures
        final(store).wf(),
        final(store).spec_min_horizon() == old(store).spec_min_horizon(),
        match outcome {
            Ok(done) => {
                &&& done
                &&& lock_reward_failure(
                    old(store)@.contains_key(id@),
                    lock_reward_rejection(
                        old(store)@[id@],
                        ctx.sender@,
                        reward_timelock as nat,
                        ctx.now as nat,
                    ),
                    old(store)@[id@].amount,
                    reward as nat,
                ) is None
                &&& final(store)@ == old(store)@.insert(
                    id@,
                    lock_reward_result(old(store)@[id@], reward_timelock as nat, reward as nat),
                )
            },
            Err(e) => lock_reward_failure(
                old(store)@.contains_key(id@),
                lock_reward_rejection(
                    old(store)@[id@],
                    ctx.sender@,
                    reward_timelock as nat,
                    ctx.now as nat,
                ),
                old(store)@[id@].amount,
                reward as nat,
            ) == Some(e) && final(store)@ == old(store)@,
        },
{
    let mut record = match store.get(&id) {
        Some(found) => found.clone(),
        None => {
            return Err(EscrowError::NotFound);
        },
    };
    proof {
        store.lemma_records(id@);
    }
    if let Some(e) = record.check_lock_reward(&ctx.sender, reward_timelock, ctx.now) {
        return Err(EscrowError::Rejected(e));
    }
    if reward > u64::MAX - record.amount {
        return Err(EscrowError::AmountOverflow);
    }
    match record.lock_reward(&ctx.sender, reward_timelock, reward, ctx.now) {
        Ok(_) => match store.put(record) {
            Ok(_) => Ok(true),
            Err(e) => Err(e),
        },
        Err(e) => Err(EscrowError::Rejected(e)),
    }
}

/// Attaches a hashlock, and a new timelock, to an escrow that has none.
///
/// Accepted exactly when `id` has a record, the escrow is active, the
/// caller is its sender, no hashlock is set yet, the new timelock is
/// strictly in the future and at least the store's minimum horizon ahead,
/// the new timelock is after the reward timelock if the escrow holds a
/// reward, and the hashlock offered is not all zero; the first of these
/// that fails names the failure. Returns `id`.
pub fn add_lock(
    store: &mut EscrowStore,
    ctx: &AddLock,
    id: [u8; 32],
    hashlock: [u8; 32],
    timelock: u64,
) -> (outcome: Result<[u8; 32], EscrowError>)
    requires
        old(store).wf(),
    ensures
        final(store).wf(),
        final(store).spec_min_horizon() == old(store).spec_min_horizon(),
        match outcome {
            Ok(out) => {
                &&& out == id
                &&& failure(
                    old(store)@.contains_key(id@),
                    add_lock_rejection(
                        old(store)@[id@],
                        ctx.sender@,
                        hashlock@,
                        timelock as nat,
                        ctx.now as nat,
                        old(store).spec_min_horizon() as nat,
                    ),
                ) is None
                &&& final(store)@ == old(store)@.insert(
                    id@,
                    add_lock_result(old(store)@[id@], hashlock@, timelock as nat),
                )
            },
            Err(e) => failure(
                old(store)@.contains_key(id@),
                add_lock_rejection(
                    old(store)@[id@],
                    ctx.sender@,
                    hashlock@,
                    timelock as nat,
                    ctx.now as nat,
                    old(store).spec_min_horizon() as nat,
                ),
            ) == Some(e) && final(store)@ == old(store)@,
        },
{
    let mut record = match store.get(&id) {
        Some(found) => found.clone(),
        None => {
            return Err(EscrowError::NotFound);
        },
    };
    proof {
        store.lemma_records(id@);
    }
    match record.add_lock(&ctx.sender, hashlock, timelock, ctx.now, store.min_horizon()) {
        Ok(_) => match store.put(record) {
            Ok(_) => Ok(id),
            Err(e) => Err(e),
        },
        Err(e) => Err(EscrowError::Rejected(e)),
    }
}

/// Redeems an escrow with a secret.
///
/// Accepted exactly when `id` has a record, the escrow is active and has a
/// hashlock, and the secret's SHA-256 digest equals it. The record then
/// holds the secret and is redeemed, and the payouts returned are those of
/// `redeem_payouts` for this caller at this time.
pub fn redeem(store: &mut EscrowStore, ctx: &Redeem, id: [u8; 32], secret: [u8; 32]) -> (outcome:
    Result<Vec<Payout>, EscrowError>)
    requires
        old(store).wf(),
    ensures
        final(store).wf(),
        final(store).spec_min_horizon() == old(store).spec_min_horizon(),
        match outcome {
            Ok(payouts) => {
                &&& failure(
                    old(store)@.contains_key(id@),
                    redeem_rejection(old(store)@[id@], sha256_digest(secret@)),
                ) is None
                &&& final(store)@ == old(store)@.insert(
                    id@,
                    redeem_result(old(store)@[id@], secret@),
                )
                &&& payouts_view(payouts@) == redeem_payouts(
                    old(store)@[id@],
                    ctx.user_signing@,
                    ctx.now as nat,
                )
            },
            Err(e) => failure(
                old(store)@.contains_key(id@),
                redeem_rejection(old(store)@[id@], sha256_digest(secret@)),
            ) == Some(e) && final(store)@ == old(store)@,
        },
{
    let mut record = match store.get(&id) {
        Some(found) => found.clone(),
        None => {
            return Err(EscrowError::NotFound);
        },
    };
    proof {
        store.lemma_records(id@);
    }
    match record.redeem(&ctx.user_signing, secret, ctx.now) {
        Ok(payouts) => match store.put(record) {
            Ok(_) => Ok(payouts),
            Err(e) => Err(e),
        },
        Err(e) => Err(EscrowError::Rejected(e)),
    }
}

/// Refunds an escrow to its sender.
///
/// Accepted exactly when `id` has a record, the escrow is active, the
/// caller is its sender, and the timelock has passed. The record is then
/// refunded, and the one payout returned gives the sender principal and
/// reward together.
pub fn refund(store: &mut EscrowStore, ctx: &Refund, id: [u8; 32]) -> (outcome: Result<
    Vec<Payout>,
    EscrowError,
>)
    requires
        old(store).wf(),
    ensures
        final(store).wf(),
        final(store).spec_min_horizon() == old(store).spec_min_horizon(),
        match outcome {
            Ok(payouts) => {
                &&& failure(
                    old(store)@.contains_key(id@),
                    refund_rejection(old(store)@[id@], ctx.user_signing@, ctx.now as nat),
                ) is None
                &&& final(store)@ == old(store)@.insert(id@, refund_result(old(store)@[id@]))
                &&& payouts_view(payouts@) == refund_payouts(old(store)@[id@])
            },
            Err(e) => failure(
                old(store)@.contains_key(id@),
                refund_rejection(old(store)@[id@], ctx.user_signing@, ctx.now as nat),
            ) == Some(e) && final(store)@ == old(store)@,
        },
{
    let mut record = match store.get(&id) {
        Some(found) => found.clone(),
        None => {
            return Err(EscrowError::NotFound);
        },
    };
    proof {
        store.lemma_records(id@);
    }
    match record.refund(&ctx.user_signing, ctx.now) {
        Ok(payouts) => match store.put(record) {
            Ok(_) => Ok(payouts),
            Err(e) => Err(e),
        },
        Err(e) => Err(EscrowError::Rejected(e)),
    }
}

/// Returns a copy of the whole record of `id`, or `NotFound` when it has
/// none. Reads only: anyone may ask, at any time.
#[allow(non_snake_case)]
pub fn getDetails(store: &EscrowStore, ctx: &GetDetails, id: [u8; 32]) -> (outcome: Result<
    HTLC,
    EscrowError,
>)
    requires
        store.wf(),
    ensures
        match outcome {
            Ok(record) => store@.contains_key(id@) && record@ == store@[id@] && record.wf(),
            Err(e) => e == EscrowError::NotFound && !store@.contains_key(id@),
        },
{
    match store.get(&id) {
        Some(found) => Ok(found.clone()),
        None => Err(EscrowError::NotFound),
    }
}

} // verus!
