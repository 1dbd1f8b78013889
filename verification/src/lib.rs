//! Settlement core of an options protocol whose quotes are signed off the
//! ledger and settled on it: replay protection, quote authentication, the
//! intent state machine, dispute resolution and settlement arithmetic.

pub mod constants;
pub mod custody;
pub mod errors;
pub mod instructions;
pub mod lifecycle;
pub mod math;
pub mod pubkey;
pub mod state;
pub mod utils;
