//! Optional extensions around the core ledger: burn helpers, the pause
//! switch and upgrade gating.

pub mod burnable;
pub mod pausable;
pub mod upgradeable;
