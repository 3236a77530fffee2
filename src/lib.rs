//! Invoice lifecycle engine: payment detection against derived receive
//! addresses, the settlement state machine, the reconciliation loop's
//! decisions and the gas-aware sweep arithmetic.
pub mod codes;
pub mod error;
pub mod invoice;
pub mod lifecycle;
pub mod manager;
pub mod sweep;
pub mod wallet;
