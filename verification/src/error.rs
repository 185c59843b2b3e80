//! The reasons an escrow operation is rejected.

use vstd::prelude::*;

verus! {

/// A business-rule rejection. Every rejection is detected before any state
/// changes, so an operation that returns one has changed nothing.
#[derive(Clone, Copy, Debug, PartialEq, Eq, Structural)]
pub enum HTLCError {
    /// A creation's timelock constraint fails; or a timelock offered later
    /// is in the future but closer than the minimum horizon, or not after
    /// the reward timelock of a reward the escrow holds.
    InvalidTimeLock,
    /// The timelock is not strictly in the future.
    NotFutureTimeLock,
    /// A refund was attempted before the timelock expired.
    NotPastTimeLock,
    /// The reward timelock is not before the timelock, or not in the future.
    InvalidRewardTimeLock,
    /// A redemption was attempted on an escrow without a hashlock, or the
    /// hashlock offered to an escrow is all zero, which sets none.
    HashlockNotSet,
    /// The secret does not hash to the hashlock.
    HashlockNoMatch,
    /// A hashlock was offered to an escrow that already has one.
    HashlockAlreadySet,
    /// The escrow has already been redeemed or refunded.
    AlreadyClaimed,
    /// The amount to escrow is zero.
    FundsNotSent,
    /// The caller is not the party the operation is reserved for.
    UnauthorizedAccess,
    /// The caller does not own the escrow.
    NotOwner,
    /// The account presented as the sender is not the escrow's sender.
    NotSender,
    /// The account presented as the receiver is not the escrow's receiver.
    NotReciever,
    /// The asset presented is not the one the escrow holds.
    NoToken,
    /// A reward was offered to an escrow that already holds one.
    RewardAlreadySet,
}

/// Why an operation on the escrow store failed.
#[derive(Clone, Copy, Debug, PartialEq, Eq, Structural)]
pub enum EscrowError {
    /// A creation named an identifier that already has a record.
    AlreadyExists,
    /// The operation named an identifier that has no record.
    NotFound,
    /// The record exists, and the state machine rejected the operation.
    Rejected(HTLCError),
    /// The reward offered and the principal held do not fit a 64-bit amount
    /// together, so no custody could hold both.
    AmountOverflow,
}

impl HTLCError {
    /// The text shown to a caller for this rejection.
    pub open spec fn spec_message(self) -> Seq<char> {
        match self {
            HTLCError::InvalidTimeLock => "Invalid TimeLock."@,
            HTLCError::NotFutureTimeLock => "Not Future TimeLock."@,
            HTLCError::NotPastTimeLock => "Not Past TimeLock."@,
            HTLCError::InvalidRewardTimeLock => "Invalid Reward TimeLock."@,
            HTLCError::HashlockNotSet => "Hashlock Is Not Set."@,
            HTLCError::HashlockNoMatch => "Does Not Match the Hashlock."@,
            HTLCError::HashlockAlreadySet => "Hashlock Already Set."@,
            HTLCError::AlreadyClaimed => "Funds Are Alredy Claimed."@,
            HTLCError::FundsNotSent => "Funds Can Not Be Zero."@,
            HTLCError::UnauthorizedAccess => "Unauthorized Access."@,
            HTLCError::NotOwner => "Not The Owner."@,
            HTLCError::NotSender => "Not The Sender."@,
            HTLCError::NotReciever => "Not The Reciever."@,
            HTLCError::NoToken => "Wrong Token."@,
            HTLCError::RewardAlreadySet => "Reward Already Set."@,
        }
    }

    /// Returns the text shown to a caller for this rejection.
    pub fn message(&self) -> (text: &'static str)
        ensures
            text@ == self.spec_message(),
    {
        match self {
            HTLCError::InvalidTimeLock => "Invalid TimeLock.",
            HTLCError::NotFutureTimeLock => "Not Future TimeLock.",
            HTLCError::NotPastTimeLock => "Not Past TimeLock.",
            HTLCError::InvalidRewardTimeLock => "Invalid Reward TimeLock.",
            HTLCError::HashlockNotSet => "Hashlock Is Not Set.",
            HTLCError::HashlockNoMatch => "Does Not Match the Hashlock.",
            HTLCError::HashlockAlreadySet => "Hashlock Already Set.",
            HTLCError::AlreadyClaimed => "Funds Are Alredy Claimed.",
            HTLCError::FundsNotSent => "Funds Can Not Be Zero.",
            HTLCError::UnauthorizedAccess => "Unauthorized Access.",
            HTLCError::NotOwner => "Not The Owner.",
            HTLCError::NotSender => "Not The Sender.",
            HTLCError::NotReciever => "Not The Reciever.",
            HTLCError::NoToken => "Wrong Token.",
            HTLCError::RewardAlreadySet => "Reward Already Set.",
        }
    }
}

} // verus!
