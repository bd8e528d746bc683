//! A counter contract core: a scalar counter with a mirrored optional copy,
//! a per-account ledger of balances, and the events its handlers report.
//!
//! The hosting environment is explicit: every handler that depends on the
//! caller takes the caller's identity as an argument, and every handler that
//! reports a result appends its event to an [`events::EventEmitter`].

pub mod account;
pub mod events;
pub mod incrementer;
pub mod ledger;
pub mod model;

pub use crate::account::AccountId;
pub use crate::events::{EventEmitter, IncResult};
pub use crate::incrementer::Incrementer;
pub use crate::ledger::AccountLedger;
