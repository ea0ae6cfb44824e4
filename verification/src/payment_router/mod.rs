//! Escrow and settlement.
//!
//! All-or-nothing release is a poor fit for continuous inference usage: a buyer
//! will not lock a month of spend up front, and a provider will not serve a
//! month before being paid. The router settles incrementally instead: the
//! metered portion is released as it accrues, the rest stays escrowed, and the
//! payee pulls what has been released on their own schedule.

pub mod types;

pub mod router;
pub mod rules;
pub mod ledger;
pub mod calls;
pub mod conservation;
pub mod recovery;
pub mod safety;
