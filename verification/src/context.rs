//! What the host hands to each operation besides its arguments: who is
//! calling, and what time it is.
//!
//! The host is taken to have authenticated the caller, and to read the
//! clock afresh for every operation.

use crate::htlc::Asset;
use vstd::prelude::*;

verus! {

/// The context of `commit`.
#[derive(Clone, Copy, Debug)]
pub struct Commit {
    /// The caller, who funds the escrow and becomes its sender.
    pub sender: [u8; 32],
    /// The asset the caller puts in custody.
    pub asset: Asset,
    /// The current time.
    pub now: u64,
}

/// The context of `lock`.
#[derive(Clone, Copy, Debug)]
pub struct Lock {
    /// The caller, who funds the escrow and becomes its sender.
    pub sender: [u8; 32],
    /// The asset the caller puts in custody.
    pub asset: Asset,
    /// The current time.
    pub now: u64,
}

/// The context of `lock_reward`.
#[derive(Clone, Copy, Debug)]
pub struct LockReward {
    /// The caller, who must be the escrow's sender.
    pub sender: [u8; 32],
    /// The current time.
    pub now: u64,
}

/// The context of `redeem`.
#[derive(Clone, Copy, Debug)]
pub struct Redeem {
    /// The caller: the receiver, or anyone who redeems on its behalf.
    pub user_signing: [u8; 32],
    /// The current time.
    pub now: u64,
}

/// The context of `refund`.
#[derive(Clone, Copy, Debug)]
pub struct Refund {
    /// The caller, who must be the escrow's sender.
    pub user_signing: [u8; 32],
    /// The current time.
    pub now: u64,
}

/// The context of `add_lock`.
#[derive(Clone, Copy, Debug)]
pub struct AddLock {
    /// The caller, who must be the escrow's sender.
    pub sender: [u8; 32],
    /// The current time.
    pub now: u64,
}

/// The context of `getDetails`: a read needs neither a caller nor the time.
#[derive(Clone, Copy, Debug)]
pub struct GetDetails {}

} // verus!
