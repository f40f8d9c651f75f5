//! A fixed-price marketplace settlement engine for unique tokens.
//!
//! The engine keeps a registry of collections and active listings, decides
//! every list / unlist / buy / register request, and computes the three-way
//! split of each payment (seller, marketplace fee, creator royalty).
//! Everything that depends on the outside world — who owns a token, whether a
//! transfer or a payment went through, what a deployer instantiated — is
//! passed in as a plain value, so the whole decision logic is verified.

pub mod fees;
pub mod laws;
pub mod marketplace;
pub mod store;
pub mod types;
