//! The movements of funds that an operation orders. The library decides
//! them; the host that holds the funds carries them out.

use crate::model::PayoutView;
use vstd::prelude::*;

verus! {

/// One movement of funds out of an escrow's custody.
#[derive(Clone, Copy, Debug, PartialEq, Eq)]
pub struct Payout {
    /// The identity that is paid.
    pub to: [u8; 32],
    /// How much it is paid.
    pub amount: u64,
}

impl View for Payout {
    type V = PayoutView;

    open spec fn view(&self) -> PayoutView {
        PayoutView { to: self.to@, amount: self.amount as nat }
    }
}

/// A list of payouts as mathematical values, in order.
pub open spec fn payouts_view(payouts: Seq<Payout>) -> Seq<PayoutView> {
    payouts.map_values(|p: Payout| p@)
}

/// Orders one payment out of custody: `amount` to `destination_wallet`.
pub fn transfer_htlc_out(destination_wallet: [u8; 32], amount: u64) -> (plan: Vec<Payout>)
    ensures
        payouts_view(plan@) == seq![
            PayoutView { to: destination_wallet@, amount: amount as nat },
        ],
{
    let mut plan: Vec<Payout> = Vec::new();
    plan.push(Payout { to: destination_wallet, amount });
    assert(payouts_view(plan@) =~= seq![
        PayoutView { to: destination_wallet@, amount: amount as nat },
    ]);
    plan
}

/// Orders two payments out of custody: first `amount` to
/// `destination_wallet`, then `reward` to `reward_wallet`.
pub fn transfer_htlc_reward_out(
    destination_wallet: [u8; 32],
    reward_wallet: [u8; 32],
    amount: u64,
    reward: u64,
) -> (plan: Vec<Payout>)
    ensures
        payouts_view(plan@) == seq![
            PayoutView { to: destination_wallet@, amount: amount as nat },
            PayoutView { to: reward_wallet@, amount: reward as nat },
        ],
{
    let mut plan: Vec<Payout> = Vec::new();
    plan.push(Payout { to: destination_wallet, amount });
    plan.push(Payout { to: reward_wallet, amount: reward });
    assert(payouts_view(plan@) =~= seq![
        PayoutView { to: destination_wallet@, amount: amount as nat },
        PayoutView { to: reward_wallet@, amount: reward as nat },
    ]);
    plan
}

/// Decides what becomes of a custody slot once its payouts are made: a slot
/// left with no balance is closed, and what it held to exist goes back to
/// the escrow's sender. Returns the identity to reclaim to, if the slot is
/// to be closed.
pub fn close_if_empty(remaining: u64, sender: [u8; 32]) -> (reclaim_to: Option<[u8; 32]>)
    ensures
        remaining == 0 ==> reclaim_to == Some(sender),
        remaining != 0 ==> reclaim_to is None,
{
    if remaining == 0 {
        Some(sender)
    } else {
        None
    }
}

} // verus!
