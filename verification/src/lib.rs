//! Fixed-layout binary codec for the fee-model state of a decentralized
//! exchange: a static record of configuration-time fee parameters and a
//! dynamic record of time-evolving volatility state. Each record is stored
//! in a ledger account as a fixed number of bytes, little-endian throughout,
//! with reserved padding bytes carried through losslessly.

pub mod dynamic_fee;
pub mod error;
pub mod le_bytes;
pub mod static_fee;

pub use dynamic_fee::DynamicFeeParameters;
pub use error::DecodeError;
pub use static_fee::StaticFeeParameters;
