//! Delayed-unstake tickets: fixed claims on base currency, redeemable
//! after an epoch boundary.

use vstd::prelude::*;

use crate::Pubkey;

verus! {

/// A claim right for a fixed base-currency amount.  Created by the
/// ticket issuer; claimed and destroyed by an external operation once
/// a consensus-epoch boundary has passed.
#[derive(Clone, Copy, Debug, PartialEq, Eq, Structural)]
pub struct TicketAccountData {
    /// The pool this ticket was issued against.
    pub state_address: Pubkey,
    /// Who may claim the ticket.
    pub beneficiary: Pubkey,
    /// Claimable base-currency amount, fixed at issuance.
    pub lamports_amount: u64,
    /// Epoch from which the ticket may be claimed; one past the
    /// issuance epoch when that epoch already saw a stake delta.
    pub created_epoch: u64,
}

} // verus!
