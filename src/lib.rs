//! Signatures for an open letter, confirmed and withdrawn through stateless
//! capability tokens.
//!
//! A token is derived from a signature's own stored fields. The timestamp that
//! feeds it rotates when the signature is confirmed, so every link handed out
//! before that moment stops working by construction.

pub mod external;
pub mod model;
pub mod token;
pub mod notify;
pub mod lifecycle;
pub mod public;
