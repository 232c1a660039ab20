//! A market-depth feed: token extraction, frame decoding, snapshot rendering
//! and the session state machine, all on plain values.

pub mod decimal;
pub mod decode;
pub mod error;
pub mod json;
pub mod price;
pub mod render;
pub mod session;
pub mod snapshot;
pub mod subscribe;
pub mod token;
