//! The rules of ModelTrace: attestation, metering and settlement of AI
//! inference on a ledger that both parties can read and neither controls.
//!
//! - [`audit_registry`] keeps attestations and decides which of them can be
//!   billed against.
//! - [`usage_meter`] turns attested usage into billing records.
//! - [`payment_router`] escrows deposits and settles them step by step.
//!
//! Each contract call is a function from the ledger entries that the call
//! reads, and its arguments, to a [`host::Plan`]: the steps that the host takes
//! in order, and how the call ends. The functions themselves touch no ledger.

pub mod audit_registry;
pub mod host;
pub mod payment_router;
pub mod usage_meter;
