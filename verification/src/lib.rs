//! Core of a small multi-user paste-sharing service: a credential store with
//! salted one-way password hashes, a session token manager with expiring
//! bearer tokens, an append-only paste store, and the request handlers that
//! orchestrate the three. The transport layer and the durable snapshot I/O
//! live outside this crate and exchange plain values with it.

pub mod clock;
pub mod creds;
pub mod errors;
pub mod handlers;
pub mod hashing;
pub mod idgen;
pub mod kv;
pub mod laws;
pub mod pastes;
pub mod tokens;
