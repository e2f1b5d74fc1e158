//! Gas parameters for a transaction, scaled to how many of the sender's
//! transactions are still unconfirmed.

pub mod decimal;
pub mod draft;
pub mod estimate;
pub mod rounding;
pub mod policy;
