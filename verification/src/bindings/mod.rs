//! Contracts for the crates this library calls. The contracts of the items
//! marked `external_body` are not proved: each states what the called code
//! is trusted to do, and the text above it names the call.

pub mod clock;
pub mod encoding;
pub mod hashing;
pub mod ids;
pub mod secrets;
pub mod signing;
pub mod text;
