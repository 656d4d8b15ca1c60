//! What the host hands to each operation: the accounts of the call, already
//! checked for their signatures, and the ledger's clock.

use vstd::prelude::*;
use crate::identity::Identity;

verus! {

/// The ledger's clock at the time of a call.
#[derive(Clone, Copy, Debug)]
pub struct Clock {
    /// Seconds since the Unix epoch, as the ledger estimates them.
    pub unix_timestamp: i64,
}

/// The accounts of a call that only its signer takes part in.
#[derive(Clone, Copy, Debug)]
pub struct Auth {
    /// The account that signed the call.
    pub authority: Identity,
}

/// The accounts of a call that closes a round.
#[derive(Clone, Copy, Debug)]
pub struct EndGame {
    /// The account that signed the call.
    pub authority: Identity,
    /// The time at which the round is closed.
    pub clock: Clock,
}

/// The accounts of a call that pays the winner.
#[derive(Clone, Copy, Debug)]
pub struct Payout {
    /// The account that signed the call.
    pub authority: Identity,
    /// The account that holds the pool and its escrow.
    pub state: Identity,
    /// The account to be paid.
    pub winner: Identity,
}

/// The accounts of a call that buys a ticket.
#[derive(Clone, Copy, Debug)]
pub struct BuyTicket {
    /// The account that signed the call and pays for the ticket.
    pub buyer: Identity,
    /// The account that holds the pool and its escrow.
    pub state: Identity,
}

/// A movement of lamports that the host has to carry out together with the
/// operation that asked for it: either both take effect or neither does.
#[derive(Clone, Copy, Debug, PartialEq, Eq)]
pub struct Transfer {
    /// The account that pays.
    pub from: Identity,
    /// The account that receives.
    pub to: Identity,
    /// The amount moved.
    pub lamports: u64,
}

impl Transfer {
    /// By how many lamports the transfer changes what `account` holds: what
    /// it receives, less what it pays.
    pub open spec fn gain_of(self, account: Identity) -> int {
        (if self.to == account {
            self.lamports as int
        } else {
            0
        }) - (if self.from == account {
            self.lamports as int
        } else {
            0
        })
    }
}

} // verus!
