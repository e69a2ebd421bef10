//! A liveness service: one route, `/health`, answered with a fixed JSON
//! record, under a cross-origin policy that admits every caller.
//!
//! The record and its wire form are plain values with exact contracts. The
//! policy and the router are values of `tower-http` and `axum`; what they
//! have been set up with is stated over ghost models of their contents.

pub mod cors;
pub mod health;
pub mod router;
pub mod startup;
