//! Settlement of trade intents: a user declares what they give and which
//! asset they want for it, and a solver later carries the trade out against
//! an allowance that the user granted to the protocol's authority.
//!
//! `submit_intent`, `cancel_intent` and `fulfill_intent` decide one
//! operation each on the accounts that a call names; `IntentStore` keeps the
//! records and runs the same operations against what it holds.

pub mod accounts;
pub mod address;
pub mod cancel;
pub mod error;
pub mod fulfill;
pub mod intent;
pub mod laws;
pub mod pda;
pub mod store;
pub mod submit;

pub use crate::accounts::{CancelIntent, FulfillIntent, SubmitIntent};
pub use crate::cancel::cancel_intent;
pub use crate::error::CustomError;
pub use crate::fulfill::fulfill_intent;
pub use crate::intent::{Intent, IntentCancelledEvent, IntentFulfilledEvent, IntentSubmittedEvent};
pub use crate::submit::submit_intent;
