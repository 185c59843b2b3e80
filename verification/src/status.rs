//! The status of an escrow, and the number that stands for it in a stored
//! record.

use vstd::prelude::*;

verus! {

/// Where an escrow stands in its life. `Active` is the only state that
/// accepts operations; the other two are final.
#[derive(Clone, Copy, Debug, PartialEq, Eq, Structural)]
pub enum Status {
    Active,
    Refunded,
    Redeemed,
}

impl Status {
    /// The number that stands for this status in a stored record.
    pub open spec fn spec_code(self) -> u8 {
        match self {
            Status::Active => 1,
            Status::Refunded => 2,
            Status::Redeemed => 3,
        }
    }

    /// Returns the number that stands for this status in a stored record:
    /// 1 for active, 2 for refunded, 3 for redeemed.
    pub fn code(self) -> (code: u8)
        ensures
            code == self.spec_code(),
    {
        match self {
            Status::Active => 1,
            Status::Refunded => 2,
            Status::Redeemed => 3,
        }
    }

    /// Reads a status from its number in a stored record. Numbers other
    /// than 1, 2 and 3 stand for no status.
    pub fn from_code(code: u8) -> (status: Option<Status>)
        ensures
            match status {
                Some(s) => s.spec_code() == code,
                None => code < 1 || code > 3,
            },
    {
        if code == 1 {
            Some(Status::Active)
        } else if code == 2 {
            Some(Status::Refunded)
        } else if code == 3 {
            Some(Status::Redeemed)
        } else {
            None
        }
    }
}

} // verus!
