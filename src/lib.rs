//! Client side of the BOINC GUI RPC protocol: framing, authentication,
//! session bookkeeping and reply validation, with their contracts.

pub mod client;
pub mod errors;
pub mod failover;
pub mod handshake;
pub mod models;
pub mod node;
pub mod rpc;
pub mod session;
pub mod text;
pub mod util;
pub mod xml;

pub use client::{verify_rpc_reply_contents, Client};
