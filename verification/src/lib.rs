//! Escrow-and-entitlement accounting for merchant discount campaigns.
//!
//! Merchants fund a campaign budget held in a vault, coupons are issued
//! against it, traded between owners within price bounds, and redeemed or
//! retired. Every operation is a total function on plain records whose
//! contract states the outcome exactly.

pub mod address;
pub mod derivation;
pub mod errors;
pub mod instructions;
pub mod ledger;
pub mod states;
pub mod table;
pub mod utils;
