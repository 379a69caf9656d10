//! A verified escrow ledger: funds locked by a payer are released to the
//! payee, or refunded to the payer, once a quorum of the named parties
//! approves — and, for release, only after a configured time-lock has
//! elapsed. Exactly one of the two outcomes can ever occur per agreement.

pub mod agreement;
pub mod ledger;
