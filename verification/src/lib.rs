//! Message-envelope protocol layer for a multi-chain validator network.
//!
//! This crate defines the closed vocabulary of requests, responses, and
//! internal messages exchanged between clients, proxies, and validators
//! ([`message::RpcMessage`]), together with the routing facts computed over
//! it: which chain a message targets ([`message::RpcMessage::target_chain_id`])
//! and whether a proxy can answer it locally
//! ([`message::RpcMessage::is_local_message`]). Typed extraction turns a
//! received envelope back into the payload the caller expects, propagating a
//! remote error or reporting a protocol violation, and never coercing one
//! response kind into another.
//!
//! Domain payloads (certificates, votes, chain-info structures, blob
//! identifiers, hashes) are external collaborators; [`data`] models each of
//! them by the plain values this layer reads, chiefly the embedded chain
//! identity.

pub mod data;
pub mod laws;
pub mod message;
