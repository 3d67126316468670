//! An adapter that exposes a pluggable committee-scheduler backend over a
//! remote-procedure-call boundary.
//!
//! Clients either ask once for the current committee assignment of a contract
//! (a unary call) or subscribe to a live feed of committee changes (a
//! server-streaming call). The adapter owns no scheduling logic: it builds the
//! backend-facing request, invokes the backend capability, translates each
//! backend committee to its wire representation in order, and maps backend
//! failures to call statuses. Per streaming call it keeps only the small
//! forwarding lifecycle (not started, forwarding, closed); the hosting RPC
//! runtime performs the actual transport I/O around it.

pub mod committee;
pub mod contract;
pub mod status;
pub mod unary;
pub mod watch;
pub mod service;
pub mod replay;
