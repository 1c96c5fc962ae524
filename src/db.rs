//! Storage of deposit amounts, needed to settle disputes, which carry no amount.

pub mod in_mem;
pub mod traits;

pub use traits::DepositValueCache;
