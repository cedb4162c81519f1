//! Call adapter and lifecycle guard for an NFT collection service reachable
//! through a narrow, numbered call interface.
//!
//! The library turns high-level intents (create a collection, mint an NFT,
//! read ownership, attach or detach a resource) into fixed-shape binary call
//! inputs, interprets host status codes and encoded reply payloads into a
//! closed error taxonomy, and enforces the adapter's ordering invariant: a
//! collection must exist before any NFT operation, and is created at most
//! once. The host transport itself lives outside the library; callers hand
//! each raw host reply (status word plus payload bytes) back to the adapter,
//! which decides everything else.

pub mod adapter;
pub mod codec;
pub mod errors;
pub mod gateway;
