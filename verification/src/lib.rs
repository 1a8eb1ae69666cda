//! Dispatch-and-correlation core for a client SDK that exchanges typed
//! commands with a single remote host over two interchangeable transports:
//! request/response HTTP and a persistent duplex socket.
//!
//! The library holds the verified logic: the command catalog, transport
//! selection, REST query and URL construction, the pending-replies
//! correlation table, and the chunk assembler and splitter that move large
//! binary payloads across a channel of small discrete messages.

pub mod assembler;
pub mod b64;
pub mod catalog;
pub mod config;
pub mod correlation;
pub mod dispatch;
pub mod error;
pub mod frames;
pub mod models;
pub mod query;
pub mod rest;
pub mod splitter;
pub mod text;
