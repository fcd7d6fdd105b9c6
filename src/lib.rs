//! Typed route contracts: one declaration of an endpoint from which both the
//! server dispatch entry and the client request pipeline are derived.

pub mod client;
pub mod contract;
pub mod handler;
pub mod route;
pub mod status;
