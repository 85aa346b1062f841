//! A custodial agent-wallet ledger: deterministically addressed wallet
//! records keyed by an agent identifier, a transfer engine that skims a
//! fixed protocol fee and enforces a minimum retained balance, and a
//! tiered loyalty-points policy.

pub mod errors;
pub mod events;
pub mod identity;
pub mod policy;
pub mod registry;
pub mod wallet;
