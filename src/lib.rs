//! A streaming payment engine: per-client balances under a dispute and
//! chargeback protocol, with checked fixed-point arithmetic, and the
//! decisions of the fabric that shards the event stream by client.

pub mod balances;
pub mod checked_decimal;
pub mod client_processor;
pub mod csv;
pub mod db;
pub mod error;
pub mod non_negative_checked_decimal;
pub mod protocol;
pub mod stream_processor;
pub mod transaction;
