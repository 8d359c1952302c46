//! Event routing layer for a market-data gateway: normalization of foreign
//! response records, decoding of fixed-width text fields that may carry the
//! GB18030 encoding, a consumer interface with a slot registry, and a bounded
//! channel / group fan-out layer for delivering events downstream.

pub mod channel;
pub mod spi;
pub mod response;
pub mod text;
