//! Escrow for pay-per-request services.
//!
//! A seller opens a payment record for one request, a buyer deposits the
//! amount into the record's custody, and the held value then goes either to
//! the seller (release) or, once the deadline has passed, back to the buyer
//! (refund). The transitions are verified against their contracts; the host
//! platform supplies the clock, the storage of records and the movement of
//! value, which the library describes as `Transfer` actions.

pub mod key;
pub mod error;
pub mod record;
pub mod ledger;
pub mod laws;
