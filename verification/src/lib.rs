//! Verified core of a multi-hop swap router.
//!
//! The library holds the router's decision logic: route validation, fee
//! computation and attribution, the step plan that drives one atomic
//! execution, settlement, the final minimum-receive assertion, and the
//! read-only simulation walk.  Every function here carries a contract and is
//! verified.  The host shell around it performs chain queries, storage access
//! and message serialization, handing this library plain values and sending
//! out the messages it plans.

pub mod asset;
pub mod config;
pub mod error;
pub mod fee;
pub mod msgs;
pub mod queries;
pub mod router;
pub mod routes;
pub mod sim;
