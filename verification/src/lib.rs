//! A call-money loan: a short-term loan that the lender may demand back on
//! notice, with simple pro-rata daily interest, full or partial repayment,
//! late-repayment penalties, single-slot collateral custody, and an
//! append-only transaction log.
//!
//! All monetary amounts and rates are fixed-point decimals ([`decimal::Decimal`]);
//! dates are whole-second Unix timestamps. Party and asset identifiers are
//! opaque to the library: resolving them to real accounts or assets, and
//! moving any actual value, is the caller's concern.

pub mod contract;
pub mod decimal;
