//! A tokenized-asset marketplace: an asset registry holding fractional
//! positions and buyer balances, and a coordinator that prices
//! purchases, splits fees, and drives the registry's restricted sale
//! entry point through a scoped delegation.
//!
//! State lives in explicit values — [`registry::TerraTokenization`]
//! and [`marketplace::TerraMarketplace`] — and authorization in
//! explicit capability proofs ([`auth::AuthProof`], [`auth::SaleGrant`])
//! checked by the operations themselves, so every transition is a
//! verified function from state to state. Every failure is a typed
//! [`errors::Error`] and leaves state untouched. [`laws`] states and
//! proves the cross-operation guarantees; [`network`] holds the pure
//! kernel of the off-chain status proxy.

pub mod auth;
pub mod errors;
pub mod laws;
pub mod marketplace;
pub mod network;
pub mod registry;
