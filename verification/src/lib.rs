//! Service core for a chat-moderation bot server.
//!
//! The library holds the verified logic of the service: the cursor-tracked
//! long-poll state machine with its chat filter, the bearer-token
//! authorization gate, the HTTP response envelope and its wire rendering,
//! the storage-initialization plan, and the lifecycle state machines for
//! graceful shutdown. All network, storage and terminal I/O lives outside
//! the library and drives these state machines with plain values.

pub mod auth;
pub mod config;
pub mod listener;
pub mod numfmt;
pub mod orchestrator;
pub mod poller;
pub mod response;
pub mod routes;
pub mod storage;
pub mod text;
pub mod ui;
pub mod update;
